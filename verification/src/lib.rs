//! A lifecycle manager for an embeddable REST server.
//!
//! Collaborators contribute [`Resource`]s: a handler bound to a verb and a
//! path. A [`RestApiBuilder`] collects them with the address to bind and builds
//! a [`RestApi`]. Running it splits the server into the caller's half, which
//! waits for the handshake and hands out the [`RestApiShutdownHandle`], and the
//! server context's half, which binds, announces and serves. The threads, the
//! sockets and the event loop are the caller's; what each of their outcomes
//! means is decided here.

pub mod builder;
pub mod context;
pub mod engine;
pub mod errors;
pub mod lifecycle;
pub mod method;
pub mod resource;
pub mod shutdown;
pub mod startup;

pub use builder::{RestApi, RestApiBuilder};
pub use errors::RestApiServerError;
pub use method::Method;
pub use resource::{Resource, RestResourceProvider};
pub use shutdown::RestApiShutdownHandle;
