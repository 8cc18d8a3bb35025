//! What the library takes on trust: the types and calls of the HTTP engine,
//! `actix-web`, and one call of std. Nothing in this file is proved.

use vstd::prelude::*;
use crate::method::Method;
use std::sync::Arc;

verus! {

/// `actix_web::Route`: one route of the engine, a handler behind a list of
/// guards. The library only carries it; nothing is claimed of what it holds.
#[verifier::external_type_specification]
#[verifier::external_body]
pub struct ExRoute(actix_web::Route);

/// `actix_web::dev::Server`: the handle of a started server, over which
/// commands are sent to it. The library only carries it; nothing is claimed of
/// what it holds.
#[verifier::external_type_specification]
#[verifier::external_body]
pub struct ExServer(actix_web::dev::Server);

/// The verb that a route of the engine admits. It is claimed of the routes
/// that the six constructors below make and of no other: each of them makes a
/// new route and gives it one guard, which admits the requests of one verb.
pub uninterp spec fn route_verb(route: actix_web::Route) -> Method;

/// `actix_web::web::get`: a new route whose one guard admits `GET` requests.
#[verifier::external_body]
pub(crate) fn route_get() -> (route: actix_web::Route)
    ensures
        route_verb(route) == Method::Get,
{
    actix_web::web::get()
}

/// `actix_web::web::post`: a new route whose one guard admits `POST` requests.
#[verifier::external_body]
pub(crate) fn route_post() -> (route: actix_web::Route)
    ensures
        route_verb(route) == Method::Post,
{
    actix_web::web::post()
}

/// `actix_web::web::put`: a new route whose one guard admits `PUT` requests.
#[verifier::external_body]
pub(crate) fn route_put() -> (route: actix_web::Route)
    ensures
        route_verb(route) == Method::Put,
{
    actix_web::web::put()
}

/// `actix_web::web::patch`: a new route whose one guard admits `PATCH` requests.
#[verifier::external_body]
pub(crate) fn route_patch() -> (route: actix_web::Route)
    ensures
        route_verb(route) == Method::Patch,
{
    actix_web::web::patch()
}

/// `actix_web::web::delete`: a new route whose one guard admits `DELETE` requests.
#[verifier::external_body]
pub(crate) fn route_delete() -> (route: actix_web::Route)
    ensures
        route_verb(route) == Method::Delete,
{
    actix_web::web::delete()
}

/// `actix_web::web::head`: a new route whose one guard admits `HEAD` requests.
#[verifier::external_body]
pub(crate) fn route_head() -> (route: actix_web::Route)
    ensures
        route_verb(route) == Method::Head,
{
    actix_web::web::head()
}

/// `Arc::clone` of std: another pointer to the same allocation, so that what
/// it points to is what `handle` points to.
#[verifier::external_body]
pub(crate) fn share_handle<H>(handle: &Arc<H>) -> (shared: Arc<H>)
    ensures
        shared == *handle,
{
    Arc::clone(handle)
}

/// `actix_web::dev::Server::stop`: queues the stop command for the server and
/// returns without waiting for it to take effect. Only that the call returns
/// is claimed; the future it hands back is dropped.
#[verifier::external_body]
pub(crate) fn stop_server(server: &actix_web::dev::Server, graceful: bool) {
    let _ = server.stop(graceful);
}

} // verus!
