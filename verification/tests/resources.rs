use actix_http::Response;
use actix_web::http::StatusCode;
use actix_web::test::{call_service, init_service, read_body, TestRequest};
use actix_web::{web, App, HttpRequest};
use futures::IntoFuture;
use rest_api::method::Method;
use rest_api::resource::{Resource, RestResourceProvider};

#[test]
fn test_create_handle() {
    let handler = Resource::new(Method::Get, "/test", |_: HttpRequest, _: web::Payload| {
        Box::new(Response::Ok().finish().into_future())
    });
    assert_eq!(handler.method(), Method::Get);
    assert_eq!(handler.route().as_str(), "/test");
}

#[test]
fn resource_keeps_method_route_and_handler() {
    let resource = Resource::new(Method::Patch, "/things/{id}", 17u32);
    assert_eq!(resource.method(), Method::Patch);
    assert_eq!(resource.route().as_str(), "/things/{id}");
    assert_eq!(**resource.handle(), 17u32);
}

#[test]
fn resource_route_is_not_validated() {
    let resource = Resource::new(Method::Get, "", 0u8);
    assert_eq!(resource.route().as_str(), "");
    let resource = Resource::new(Method::Get, "no leading slash {", 0u8);
    assert_eq!(resource.route().as_str(), "no leading slash {");
}

#[test]
fn clone_shares_the_handler() {
    let resource = Resource::new(Method::Delete, "/gone", String::from("state"));
    let copy = resource.clone();
    assert_eq!(copy.method(), Method::Delete);
    assert_eq!(copy.route().as_str(), "/gone");
    assert!(std::sync::Arc::ptr_eq(resource.handle(), copy.handle()));
    assert_eq!(std::sync::Arc::strong_count(resource.handle()), 2);
}

#[test]
fn into_route_hands_out_path_and_handler() {
    let resource = Resource::new(Method::Put, "/put/here", 5u64);
    let shared = resource.handle().clone();
    let (_route, path, handle) = resource.into_route();
    assert_eq!(path, "/put/here");
    assert_eq!(*handle, 5u64);
    assert!(std::sync::Arc::ptr_eq(&shared, &handle));
}

struct TwoResources;

impl RestResourceProvider<u8> for TwoResources {
    fn resources(&self) -> Vec<Resource<u8>> {
        vec![Resource::new(Method::Get, "/a", 1), Resource::new(Method::Post, "/b", 2)]
    }
}

#[test]
fn provider_contributes_its_resources() {
    let resources = TwoResources.resources();
    assert_eq!(resources.len(), 2);
    assert_eq!(resources[0].method(), Method::Get);
    assert_eq!(resources[0].route().as_str(), "/a");
    assert_eq!(resources[1].method(), Method::Post);
    assert_eq!(resources[1].route().as_str(), "/b");
}

fn status_of(registered: Method, request: TestRequest) -> StatusCode {
    let resource = Resource::new(registered, "/probe", |_: HttpRequest, _: web::Payload| {
        Box::new(Response::Ok().body("ok").into_future())
    });
    let (route, path, handle) = resource.into_route();
    let service = web::resource(&path)
        .route(route.to_async(move |r: HttpRequest, p: web::Payload| (handle)(r, p)));
    let mut app = init_service(App::new().service(service));
    call_service(&mut app, request.uri("/probe").to_request()).status()
}

fn request_for(method: Method) -> TestRequest {
    match method {
        Method::Get => TestRequest::get(),
        Method::Post => TestRequest::post(),
        Method::Put => TestRequest::put(),
        Method::Patch => TestRequest::patch(),
        Method::Delete => TestRequest::delete(),
        Method::Head => TestRequest::default().method(actix_web::http::Method::HEAD),
    }
}

const ALL: [Method; 6] =
    [Method::Get, Method::Post, Method::Put, Method::Patch, Method::Delete, Method::Head];

#[test]
fn route_answers_its_own_verb() {
    for method in ALL.iter() {
        assert_eq!(status_of(*method, request_for(*method)), StatusCode::OK, "{:?}", method);
    }
}

#[test]
fn route_answers_no_other_verb() {
    for registered in ALL.iter() {
        for asked in ALL.iter() {
            if registered != asked {
                assert_eq!(
                    status_of(*registered, request_for(*asked)),
                    StatusCode::METHOD_NOT_ALLOWED,
                    "{:?} asked of {:?}",
                    asked,
                    registered
                );
            }
        }
    }
}

#[test]
fn registered_handler_produces_the_response() {
    let resource = Resource::new(Method::Get, "/health", |_: HttpRequest, _: web::Payload| {
        Box::new(Response::Ok().body("ok").into_future())
    });
    let (route, path, handle) = resource.into_route();
    let service = web::resource(&path)
        .route(route.to_async(move |r: HttpRequest, p: web::Payload| (handle)(r, p)));
    let mut app = init_service(App::new().service(service));

    let response =
        call_service(&mut app, TestRequest::get().uri("/health").to_request());
    assert_eq!(response.status(), StatusCode::OK);
    assert_eq!(&read_body(response)[..], b"ok");

    let response =
        call_service(&mut app, TestRequest::get().uri("/other").to_request());
    assert_eq!(response.status(), StatusCode::NOT_FOUND);
}
