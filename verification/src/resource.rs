//! Resources: one handler bound to one verb and one path.

use vstd::prelude::*;
use crate::engine::{
    route_delete, route_get, route_head, route_patch, route_post, route_put, route_verb,
    share_handle,
};
use crate::method::Method;
use std::sync::Arc;

verus! {

/// One endpoint of the REST API: the handler `handle` answers requests for
/// `method` on `route`. The handler is shared, so a resource is cheap to clone.
pub struct Resource<H> {
    route: String,
    method: Method,
    handle: Arc<H>,
}

/// The mathematical content of a [`Resource`].
pub struct ResourceView<H> {
    pub method: Method,
    pub route: Seq<char>,
    pub handle: H,
}

impl<H> View for Resource<H> {
    type V = ResourceView<H>;

    closed spec fn view(&self) -> ResourceView<H> {
        ResourceView { method: self.method, route: self.route@, handle: *self.handle }
    }
}

impl<H: Send + Sync + 'static> Resource<H> {
    /// Binds `handle` to `method` and `route`. The route is taken as it is:
    /// whether it is a path is for the engine to say when it is registered.
    /// The handler has to be fit for any thread, since any worker may call it.
    pub fn new(method: Method, route: &str, handle: H) -> (resource: Self)
        ensures
            resource@ == (ResourceView { method, route: route@, handle }),
    {
        Resource { method, route: route.to_string(), handle: Arc::new(handle) }
    }
}

impl<H> Resource<H> {
    /// Takes the resource apart for the engine: a new route of the engine
    /// that admits the resource's verb, the path to mount it on, and the
    /// handler that the route is to be given.
    pub fn into_route(self) -> (parts: (actix_web::Route, String, Arc<H>))
        ensures
            route_verb(parts.0) == self@.method,
            parts.1@ == self@.route,
            *parts.2 == self@.handle,
    {
        let route = match self.method {
            Method::Get => route_get(),
            Method::Post => route_post(),
            Method::Put => route_put(),
            Method::Patch => route_patch(),
            Method::Delete => route_delete(),
            Method::Head => route_head(),
        };
        (route, self.route, self.handle)
    }

    /// The verb the resource answers.
    pub fn method(&self) -> (method: Method)
        ensures
            method == self@.method,
    {
        self.method
    }

    /// The path the resource is mounted on.
    pub fn route(&self) -> (route: &String)
        ensures
            route@ == self@.route,
    {
        &self.route
    }

    /// The shared handler.
    pub fn handle(&self) -> (handle: &Arc<H>)
        ensures
            **handle == self@.handle,
    {
        &self.handle
    }
}

impl<H> Clone for Resource<H> {
    /// A second resource for the same verb, path and handler. The handler is
    /// shared between the two, not copied.
    fn clone(&self) -> (copy: Self)
        ensures
            copy@ == self@,
    {
        Resource {
            route: self.route.clone(),
            method: self.method,
            handle: share_handle(&self.handle),
        }
    }
}

/// The views of a sequence of resources, in the same order.
pub open spec fn views<H>(resources: Seq<Resource<H>>) -> Seq<ResourceView<H>> {
    resources.map_values(|resource: Resource<H>| resource@)
}

/// A collaborator that contributes resources to a REST API.
pub trait RestResourceProvider<H> {
    /// The resources this provider contributes.
    fn resources(&self) -> Vec<Resource<H>>;
}

} // verus!
