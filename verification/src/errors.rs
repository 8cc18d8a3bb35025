//! The errors the REST API reports to its caller.

use vstd::prelude::*;
use vstd::string::StringExecFns;

verus! {

/// What can go wrong while a REST API is assembled, started or stopped.
#[derive(Debug, PartialEq, Eq)]
pub enum RestApiServerError {
    /// A required field of the builder was never set; carries the field's name.
    MissingField(String),
    /// The server did not come up; carries a description of what failed.
    StartUpError(String),
    /// The server did not go down cleanly; carries a description of what failed.
    ShutdownError(String),
}

/// The mathematical content of a [`RestApiServerError`].
pub enum ErrorView {
    MissingField(Seq<char>),
    StartUpError(Seq<char>),
    ShutdownError(Seq<char>),
}

impl View for RestApiServerError {
    type V = ErrorView;

    open spec fn view(&self) -> ErrorView {
        match self {
            RestApiServerError::MissingField(name) => ErrorView::MissingField(name@),
            RestApiServerError::StartUpError(message) => ErrorView::StartUpError(message@),
            RestApiServerError::ShutdownError(message) => ErrorView::ShutdownError(message@),
        }
    }
}

/// The message of the start-up error for a handshake that ended without the
/// listener's handle, where `reason` says how the receiving failed.
pub open spec fn receive_failure(reason: Seq<char>) -> Seq<char> {
    "Unable to receive Server Addr: "@ + reason
}

/// The message of the start-up error for a handle that could not be sent to
/// the caller, where `reason` says how the sending failed.
pub open spec fn send_failure(reason: Seq<char>) -> Seq<char> {
    "Unable to send Server Addr: "@ + reason
}

impl RestApiServerError {
    /// The start-up error for a handshake that ended without the listener's
    /// handle.
    pub fn receive_failed(reason: &str) -> (error: Self)
        ensures
            error@ == ErrorView::StartUpError(receive_failure(reason@)),
    {
        let message = "Unable to receive Server Addr: ".to_string().concat(reason);
        RestApiServerError::StartUpError(message)
    }

    /// The start-up error for a handle that could not be sent to the caller.
    pub fn send_failed(reason: &str) -> (error: Self)
        ensures
            error@ == ErrorView::StartUpError(send_failure(reason@)),
    {
        let message = "Unable to send Server Addr: ".to_string().concat(reason);
        RestApiServerError::StartUpError(message)
    }
}

} // verus!
