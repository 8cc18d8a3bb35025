//! The caller's half of a start-up: it waits for the handshake with the server
//! context and decides what the caller gets.

use vstd::prelude::*;
use crate::errors::{receive_failure, ErrorView, RestApiServerError};
use crate::lifecycle::{advance, step, Directive, Phase, Signal};
use crate::shutdown::RestApiShutdownHandle;

verus! {

/// A server that is `Starting`: its context was asked for and the handshake
/// is open. It ends in exactly one of two ways: the context could not be
/// spawned, or the handshake came to an end.
pub struct StartUp {
    phase: Phase,
}

impl StartUp {
    #[verifier::type_invariant]
    spec fn starting(&self) -> bool {
        self.phase == Phase::Starting
    }

    /// The start-up of a server that has just left `Idle`.
    pub(crate) fn new(phase: Phase) -> (start_up: Self)
        requires
            phase == Phase::Starting,
        ensures
            start_up.phase() == phase,
    {
        StartUp { phase }
    }

    /// The phase of the server.
    pub closed spec fn spec_phase(&self) -> Phase {
        self.phase
    }

    /// The phase of the server, which is `Starting`.
    #[verifier::when_used_as_spec(spec_phase)]
    pub fn phase(&self) -> (phase: Phase)
        ensures
            phase == self.phase(),
            phase == Phase::Starting,
    {
        proof {
            use_type_invariant(self);
        }
        self.phase
    }

    /// The server context could not be spawned: the server is `Terminated`
    /// without a handshake, and the caller gets a start-up error that carries
    /// `reason`.
    pub fn spawn_failed(self, reason: &str) -> (error: RestApiServerError)
        ensures
            step(self.phase(), Signal::SpawnFailed) == (Phase::Terminated, Directive::Fail),
            error@ == ErrorView::StartUpError(reason@),
    {
        proof {
            use_type_invariant(&self);
        }
        RestApiServerError::StartUpError(reason.to_string())
    }

    /// The handshake has ended. If it delivered the handle of the live
    /// listener, the server is `Running` and the caller gets the shutdown
    /// handle for that listener. If the channel closed without a value, as it
    /// does when the address could not be bound, the server is `Terminated`
    /// and the caller gets a start-up error that says so and carries the
    /// reason.
    pub fn handshake(self, received: Result<actix_web::dev::Server, String>) -> (outcome: Result<
        RestApiShutdownHandle,
        RestApiServerError,
    >)
        ensures
            match received {
                Ok(listener) => {
                    &&& outcome is Ok
                    &&& outcome->Ok_0.listener() == listener
                    &&& outcome->Ok_0.phase() == step(self.phase(), Signal::ListenerReady).0
                    &&& outcome->Ok_0.phase() == Phase::Running
                },
                Err(reason) => {
                    &&& outcome is Err
                    &&& outcome->Err_0@ == ErrorView::StartUpError(receive_failure(reason@))
                    &&& step(self.phase(), Signal::HandshakeClosed).0 == Phase::Terminated
                },
            },
    {
        proof {
            use_type_invariant(&self);
        }
        match received {
            Ok(listener) => {
                let (next, _) = advance(self.phase, Signal::ListenerReady);
                Ok(RestApiShutdownHandle::new(listener, next))
            },
            Err(reason) => Err(RestApiServerError::receive_failed(reason.as_str())),
        }
    }
}

} // verus!
