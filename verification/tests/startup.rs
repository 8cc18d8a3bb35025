use rest_api::builder::RestApiBuilder;
use rest_api::context::ServerContext;
use rest_api::errors::RestApiServerError;
use rest_api::lifecycle::Phase;
use rest_api::method::Method;
use rest_api::resource::Resource;
use rest_api::startup::StartUp;

fn halves() -> (StartUp, ServerContext<u8>) {
    RestApiBuilder::new()
        .with_bind("127.0.0.1:0")
        .add_resource(Resource::new(Method::Get, "/health", 0u8))
        .build()
        .unwrap()
        .run()
}

#[test]
fn start_up_is_starting() {
    assert_eq!(halves().0.phase(), Phase::Starting);
}

#[test]
fn failed_spawn_is_a_start_up_error() {
    let error = halves().0.spawn_failed("Resource temporarily unavailable (os error 11)");
    assert_eq!(
        error,
        RestApiServerError::StartUpError(
            "Resource temporarily unavailable (os error 11)".to_string()
        )
    );
}

#[test]
fn closed_handshake_is_a_start_up_error() {
    let outcome = halves().0.handshake(Err("receiving on a closed channel".to_string()));
    assert_eq!(
        outcome.err(),
        Some(RestApiServerError::StartUpError(
            "Unable to receive Server Addr: receiving on a closed channel".to_string()
        ))
    );
}

#[test]
fn receive_failed_formats_the_message() {
    assert_eq!(
        RestApiServerError::receive_failed(""),
        RestApiServerError::StartUpError("Unable to receive Server Addr: ".to_string())
    );
    assert_eq!(
        RestApiServerError::receive_failed("x"),
        RestApiServerError::StartUpError("Unable to receive Server Addr: x".to_string())
    );
}

#[test]
fn send_failed_formats_the_message() {
    assert_eq!(
        RestApiServerError::send_failed("sending on a closed channel"),
        RestApiServerError::StartUpError(
            "Unable to send Server Addr: sending on a closed channel".to_string()
        )
    );
}

#[test]
fn failed_bind_ends_the_context_with_a_start_up_error() {
    let next = halves().1.bound::<()>(Err("Address already in use (os error 98)".to_string()));
    assert_eq!(
        next.err(),
        Some(RestApiServerError::StartUpError("Address already in use (os error 98)".to_string()))
    );
}

#[test]
fn bound_listener_is_handed_on() {
    let (_listening, listener) = halves().1.bound(Ok(41u16)).unwrap();
    assert_eq!(listener, 41);
}

#[test]
fn failed_announcement_ends_the_context_with_a_start_up_error() {
    let (listening, _) = halves().1.bound(Ok(())).unwrap();
    let next = listening.announced(Err("sending on a closed channel".to_string()));
    assert_eq!(
        next.err(),
        Some(RestApiServerError::StartUpError(
            "Unable to send Server Addr: sending on a closed channel".to_string()
        ))
    );
}

#[test]
fn clean_stop_ends_the_context_cleanly() {
    let (listening, _) = halves().1.bound(Ok(())).unwrap();
    let serving = listening.announced(Ok(())).unwrap();
    assert_eq!(serving.stopped(Ok(())), Ok(()));
}

#[test]
fn failed_stop_ends_the_context_with_a_shutdown_error() {
    let (listening, _) = halves().1.bound(Ok(())).unwrap();
    let serving = listening.announced(Ok(())).unwrap();
    assert_eq!(
        serving.stopped(Err("Non-zero exit code: 1".to_string())),
        Err(RestApiServerError::ShutdownError("Non-zero exit code: 1".to_string()))
    );
}
