//! The configuration of a REST API and the builder that assembles it.

use vstd::prelude::*;
use crate::context::ServerContext;
use crate::errors::{ErrorView, RestApiServerError};
use crate::lifecycle::{advance, step, Phase, Signal};
use crate::resource::{views, Resource, ResourceView};
use crate::startup::StartUp;

verus! {

/// The name under which a missing bind address is reported.
pub open spec fn bind_field() -> Seq<char> {
    "bind"@
}

/// The mathematical content of a [`RestApi`]: the address to bind and the
/// resource table, in the order of registration.
pub struct RestApiView<H> {
    pub resources: Seq<ResourceView<H>>,
    pub bind: Seq<char>,
}

/// The mathematical content of a [`RestApiBuilder`].
pub struct RestApiBuilderView<H> {
    pub resources: Seq<ResourceView<H>>,
    pub bind: Option<Seq<char>>,
}

impl<H> RestApiBuilderView<H> {
    /// The builder that holds nothing yet.
    pub open spec fn empty() -> Self {
        RestApiBuilderView { resources: Seq::empty(), bind: None }
    }

    /// The builder with the bind address replaced by `value`.
    pub open spec fn with_bind(self, value: Seq<char>) -> Self {
        RestApiBuilderView { bind: Some(value), ..self }
    }

    /// The builder with `resource` added behind those it holds.
    pub open spec fn add_resource(self, resource: ResourceView<H>) -> Self {
        RestApiBuilderView { resources: self.resources.push(resource), ..self }
    }

    /// The builder with `resources` added, in their order, behind those it
    /// holds.
    pub open spec fn add_resources(self, resources: Seq<ResourceView<H>>) -> Self {
        RestApiBuilderView { resources: self.resources + resources, ..self }
    }

    /// What building yields: the configuration, or the missing field.
    pub open spec fn build(self) -> Result<RestApiView<H>, ErrorView> {
        match self.bind {
            Some(bind) => Ok(RestApiView { resources: self.resources, bind }),
            None => Err(ErrorView::MissingField(bind_field())),
        }
    }
}

/// A REST API that is configured and not yet run: the address to bind and the
/// resources to serve. It does not change once built.
pub struct RestApi<H> {
    resources: Vec<Resource<H>>,
    bind: String,
}

impl<H> View for RestApi<H> {
    type V = RestApiView<H>;

    closed spec fn view(&self) -> RestApiView<H> {
        RestApiView { resources: views(self.resources@), bind: self.bind@ }
    }
}

impl<H> RestApi<H> {
    /// The address the server is to bind.
    pub fn bind(&self) -> (bind: &String)
        ensures
            bind@ == self@.bind,
    {
        &self.bind
    }

    /// The resource table, in the order of registration.
    pub fn resources(&self) -> (resources: &Vec<Resource<H>>)
        ensures
            views(resources@) == self@.resources,
    {
        &self.resources
    }

    /// Runs the server: it leaves `Idle` and is `Starting`. The configuration
    /// is used up and comes back in two halves. The second is the server
    /// context, which holds the address and the resources unchanged and is to
    /// be spawned. The first stays with the caller, who hands it the outcome of
    /// the spawning and of the handshake, and gets the shutdown handle only
    /// from it.
    pub fn run(self) -> (halves: (StartUp, ServerContext<H>))
        ensures
            halves.0.phase() == step(Phase::Idle, Signal::Run).0,
            halves.0.phase() == Phase::Starting,
            halves.1@ == self@,
    {
        let (next, _) = advance(Phase::Idle, Signal::Run);
        (StartUp::new(next), ServerContext::new(self.bind, self.resources))
    }
}

impl<H> Clone for RestApi<H> {
    /// A second configuration with the same address and the same resources in
    /// the same order; the handlers are shared between the two.
    fn clone(&self) -> (copy: Self)
        ensures
            copy@ == self@,
    {
        let resources = self.resources.clone();
        assert(views(resources@) =~= views(self.resources@));
        RestApi { resources, bind: self.bind.clone() }
    }
}

/// Collects the bind address and the resources of a REST API.
pub struct RestApiBuilder<H> {
    resources: Vec<Resource<H>>,
    bind: Option<String>,
}

impl<H> View for RestApiBuilder<H> {
    type V = RestApiBuilderView<H>;

    closed spec fn view(&self) -> RestApiBuilderView<H> {
        RestApiBuilderView {
            resources: views(self.resources@),
            bind: match self.bind {
                Some(bind) => Some(bind@),
                None => None,
            },
        }
    }
}

impl<H> Default for RestApiBuilder<H> {
    /// The builder that holds nothing yet.
    fn default() -> (builder: Self)
        ensures
            builder@ == RestApiBuilderView::<H>::empty(),
    {
        let builder = RestApiBuilder { resources: Vec::new(), bind: None };
        assert(views(builder.resources@) =~= Seq::empty());
        builder
    }
}

impl<H> RestApiBuilder<H> {
    /// The builder that holds nothing yet.
    pub fn new() -> (builder: Self)
        ensures
            builder@ == RestApiBuilderView::<H>::empty(),
    {
        let builder = RestApiBuilder { resources: Vec::new(), bind: None };
        assert(views(builder.resources@) =~= Seq::empty());
        builder
    }

    /// Sets the address to bind, in place of any set before.
    pub fn with_bind(self, value: &str) -> (builder: Self)
        ensures
            builder@ == self@.with_bind(value@),
    {
        let mut builder = self;
        builder.bind = Some(value.to_string());
        builder
    }

    /// Adds one resource behind those already there.
    pub fn add_resource(self, value: Resource<H>) -> (builder: Self)
        ensures
            builder@ == self@.add_resource(value@),
    {
        let mut builder = self;
        builder.resources.push(value);
        assert(views(builder.resources@) =~= views(self.resources@).push(value@));
        builder
    }

    /// Adds resources behind those already there, in the order they come in.
    pub fn add_resources(self, values: Vec<Resource<H>>) -> (builder: Self)
        ensures
            builder@ == self@.add_resources(views(values@)),
    {
        let mut builder = self;
        let mut values = values;
        let ghost added = values@;
        builder.resources.append(&mut values);
        assert(views(builder.resources@) =~= views(self.resources@) + views(added));
        builder
    }

    /// Builds the REST API: fails if and only if no bind address was set, and
    /// otherwise keeps the address and the resources as they are.
    pub fn build(self) -> (built: Result<RestApi<H>, RestApiServerError>)
        ensures
            match self@.build() {
                Ok(api) => built is Ok && built->Ok_0@ == api,
                Err(error) => built is Err && built->Err_0@ == error,
            },
            self@.bind is None <==> built is Err,
            built is Err ==> built->Err_0@ == ErrorView::MissingField(bind_field()),
    {
        match self.bind {
            Some(bind) => Ok(RestApi { bind, resources: self.resources }),
            None => Err(RestApiServerError::MissingField("bind".to_string())),
        }
    }
}

/// A builder whose bind address was never set does not build, whatever
/// resources it was given: it stays without an address under every addition,
/// and building it yields the missing field `bind`.
pub proof fn law_build_without_bind_fails<H>(
    builder: RestApiBuilderView<H>,
    one: ResourceView<H>,
    many: Seq<ResourceView<H>>,
)
    requires
        builder.bind is None,
    ensures
        builder.build() == Err::<RestApiView<H>, ErrorView>(ErrorView::MissingField("bind"@)),
        RestApiBuilderView::<H>::empty().bind is None,
        builder.add_resource(one).bind is None,
        builder.add_resources(many).bind is None,
{
}

/// Adding one resource and then several keeps every resource and the order
/// in which they came: the count grows by one and by the number of the later
/// ones, what was there before stays in front, the single resource follows,
/// and the later ones follow it in their own order. The bind address is not
/// touched.
pub proof fn law_added_resources_keep_count_and_order<H>(
    builder: RestApiBuilderView<H>,
    first: ResourceView<H>,
    rest: Seq<ResourceView<H>>,
)
    ensures
        ({
            let grown = builder.add_resource(first).add_resources(rest);
            &&& grown.bind == builder.bind
            &&& grown.resources == builder.resources + seq![first] + rest
            &&& grown.resources.len() == builder.resources.len() + 1 + rest.len()
            &&& forall|i: int|
                0 <= i < builder.resources.len() ==> grown.resources[i] == builder.resources[i]
            &&& grown.resources[builder.resources.len() as int] == first
            &&& forall|j: int|
                0 <= j < rest.len() ==> grown.resources[builder.resources.len() + 1 + j]
                    == rest[j]
        }),
{
    let grown = builder.add_resource(first).add_resources(rest);
    assert(grown.resources =~= builder.resources + seq![first] + rest);
}

} // verus!
