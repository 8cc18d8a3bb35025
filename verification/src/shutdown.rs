//! The handle over which a running server is asked to stop.

use vstd::prelude::*;
use crate::engine::stop_server;
use crate::errors::RestApiServerError;
use crate::lifecycle::{advance, step, Directive, Phase, Signal};

verus! {

/// The capability to ask one running server for a graceful stop. It belongs to
/// the server whose listener it holds, and is `Running` until the first
/// request and `ShuttingDown` after.
pub struct RestApiShutdownHandle {
    listener: actix_web::dev::Server,
    phase: Phase,
}

impl RestApiShutdownHandle {
    #[verifier::type_invariant]
    spec fn live(&self) -> bool {
        self.phase == Phase::Running || self.phase == Phase::ShuttingDown
    }

    /// The handle of a server whose listener has just been announced.
    pub(crate) fn new(listener: actix_web::dev::Server, phase: Phase) -> (handle: Self)
        requires
            phase == Phase::Running,
        ensures
            handle.listener() == listener,
            handle.phase() == phase,
    {
        RestApiShutdownHandle { listener, phase }
    }

    /// The listener this handle speaks to.
    pub closed spec fn listener(&self) -> actix_web::dev::Server {
        self.listener
    }

    /// The phase of the server, as far as this handle knows it.
    pub closed spec fn spec_phase(&self) -> Phase {
        self.phase
    }

    /// The phase of the server, as far as this handle knows it: `Running`
    /// before the first request to stop, `ShuttingDown` after.
    #[verifier::when_used_as_spec(spec_phase)]
    pub fn phase(&self) -> (phase: Phase)
        ensures
            phase == self.phase(),
            phase == Phase::Running || phase == Phase::ShuttingDown,
    {
        proof {
            use_type_invariant(self);
        }
        self.phase
    }

    /// Decides what a request to stop means for the engine, and takes note of
    /// it. The first request moves the server from `Running` to `ShuttingDown`
    /// and asks for the graceful stop, `Some(true)`: what is in flight is let
    /// to an end. A later request changes nothing and asks for nothing.
    pub fn request_stop(&mut self) -> (stop: Option<bool>)
        ensures
            final(self).phase() == step(old(self).phase(), Signal::Shutdown).0,
            final(self).listener() == old(self).listener(),
            stop == stop_wanted(old(self).phase()),
            stop == (if old(self).phase() == Phase::Running {
                Some(true)
            } else {
                None::<bool>
            }),
    {
        proof {
            use_type_invariant(&*self);
        }
        let (next, directive) = advance(self.phase, Signal::Shutdown);
        self.phase = next;
        match directive {
            Directive::Stop => Some(true),
            _ => None,
        }
    }

    /// Asks the server to stop and returns without waiting for it to end. It
    /// never fails, and the server is `ShuttingDown` after. Which stop is asked
    /// for, and on which call, is decided by [`Self::request_stop`]; this
    /// function passes that on to the engine. The call to the engine is taken
    /// on trust, so what follows speaks of the handle and the result only.
    pub fn shutdown(&mut self) -> (outcome: Result<(), RestApiServerError>)
        ensures
            outcome is Ok,
            final(self).phase() == step(old(self).phase(), Signal::Shutdown).0,
            final(self).phase() == Phase::ShuttingDown,
            final(self).listener() == old(self).listener(),
    {
        proof {
            use_type_invariant(&*self);
        }
        match self.request_stop() {
            Some(graceful) => stop_server(&self.listener, graceful),
            None => {},
        }
        Ok(())
    }
}

/// The stop that a request for shutdown in `phase` asks of the engine: the
/// graceful one where the lifecycle answers with `Stop`, and none elsewhere.
pub open spec fn stop_wanted(phase: Phase) -> Option<bool> {
    if step(phase, Signal::Shutdown).1 == Directive::Stop {
        Some(true)
    } else {
        None
    }
}

} // verus!
