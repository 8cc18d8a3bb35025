//! The server context's half of a start-up: what the context that binds and
//! serves has to do with the outcome of each of its steps.
//!
//! The context binds the address, announces the listener to the caller, serves
//! until it is stopped, and ends. Each step is done outside this library; its
//! outcome is handed to the function of the stage the context is in, which
//! either lets the context go on or says with which error it ends.

use vstd::prelude::*;
use crate::builder::RestApiView;
use crate::errors::{send_failure, ErrorView, RestApiServerError};
use crate::resource::{views, Resource};

verus! {

/// A server context that has not bound its address yet. It holds what the
/// engine needs: the address and the resource table.
pub struct ServerContext<H> {
    resources: Vec<Resource<H>>,
    bind: String,
}

/// A server context whose listener is bound and not yet announced.
pub struct Listening(());

/// A server context whose listener is announced: the server is running.
pub struct Serving(());

impl<H> View for ServerContext<H> {
    type V = RestApiView<H>;

    closed spec fn view(&self) -> RestApiView<H> {
        RestApiView { resources: views(self.resources@), bind: self.bind@ }
    }
}

impl<H> ServerContext<H> {
    /// The context for a server with this address and these resources.
    pub(crate) fn new(bind: String, resources: Vec<Resource<H>>) -> (context: Self)
        ensures
            context@ == (RestApiView { resources: views(resources@), bind: bind@ }),
    {
        ServerContext { resources, bind }
    }

    /// The address to bind.
    pub fn bind(&self) -> (bind: &String)
        ensures
            bind@ == self@.bind,
    {
        &self.bind
    }

    /// The resources to register with the engine, in this order.
    pub fn resources(&self) -> (resources: &Vec<Resource<H>>)
        ensures
            views(resources@) == self@.resources,
    {
        &self.resources
    }

    /// The address was tried. If it is bound, the context goes on to announce
    /// the listener, and what the binding gave is handed on untouched. If not,
    /// the context ends with a start-up error that carries the reason, and
    /// nothing is announced.
    pub fn bound<L>(self, outcome: Result<L, String>) -> (next: Result<
        (Listening, L),
        RestApiServerError,
    >)
        ensures
            match outcome {
                Ok(listener) => next is Ok && next->Ok_0.1 == listener,
                Err(reason) => next is Err && next->Err_0@ == ErrorView::StartUpError(reason@),
            },
    {
        match outcome {
            Ok(listener) => Ok((Listening(()), listener)),
            Err(reason) => Err(RestApiServerError::StartUpError(reason)),
        }
    }
}

impl Listening {
    /// The listener's handle was sent to the caller. If it went out, the
    /// context goes on to serve. If not, the context ends, and its listener
    /// with it, with a start-up error that says so and carries the reason.
    pub fn announced(self, outcome: Result<(), String>) -> (next: Result<Serving, RestApiServerError>)
        ensures
            match outcome {
                Ok(_) => next is Ok,
                Err(reason) => next is Err && next->Err_0@ == ErrorView::StartUpError(
                    send_failure(reason@),
                ),
            },
    {
        match outcome {
            Ok(_) => Ok(Serving(())),
            Err(reason) => Err(RestApiServerError::send_failed(reason.as_str())),
        }
    }
}

impl Serving {
    /// The serving has ended. The context ends cleanly if the serving did, and
    /// with a shutdown error that carries the reason if it did not.
    pub fn stopped(self, outcome: Result<(), String>) -> (end: Result<(), RestApiServerError>)
        ensures
            match outcome {
                Ok(_) => end is Ok,
                Err(reason) => end is Err && end->Err_0@ == ErrorView::ShutdownError(reason@),
            },
    {
        match outcome {
            Ok(_) => Ok(()),
            Err(reason) => Err(RestApiServerError::ShutdownError(reason)),
        }
    }
}

} // verus!
