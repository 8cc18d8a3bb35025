//! The HTTP verbs a resource can be bound to.

use vstd::prelude::*;

verus! {

/// The HTTP verbs that a resource can answer.
#[derive(Clone, Copy, Debug, PartialEq, Eq, Structural)]
pub enum Method {
    Get,
    Post,
    Put,
    Patch,
    Delete,
    Head,
}

} // verus!
