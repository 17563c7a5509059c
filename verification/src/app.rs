//! The application builder: a registry and a routing table that are filled
//! during bootstrap and then handed over.

use crate::di::{Container, ServiceBox};
use crate::router::fresh;
use axum::Router;
use std::any::TypeId;
use vstd::prelude::*;

verus! {

/// An application under construction.
///
/// `build` takes the builder by value: once the routing table is handed
/// over, the builder is gone and cannot be changed or built again.
pub struct App {
    container: Container,
    router: Router,
}

impl App {
    /// The registry of the application.
    pub closed spec fn registry(&self) -> Container {
        self.container
    }

    /// The routing table of the application.
    pub closed spec fn routes(&self) -> Router {
        self.router
    }

    /// A builder with an empty registry and an empty routing table.
    pub fn new() -> (app: Self)
        ensures
            app.registry()@ == Map::<TypeId, ServiceBox>::empty(),
            fresh(app.routes()),
    {
        App { container: Container::new(), router: crate::router::new() }
    }

    /// The registry, to look services up.
    pub fn container(&self) -> (container: &Container)
        ensures
            *container == self.registry(),
    {
        &self.container
    }

    /// The registry, to register services during bootstrap. The routing
    /// table stays as it is.
    pub fn container_mut(&mut self) -> (container: &mut Container)
        ensures
            *container == old(self).registry(),
            final(self).registry() == *final(container),
            final(self).routes() == old(self).routes(),
    {
        &mut self.container
    }

    /// The routing table.
    pub fn router(&self) -> (router: &Router)
        ensures
            *router == self.routes(),
    {
        &self.router
    }

    /// Ends the construction and hands the routing table over.
    pub fn build(self) -> (router: Router)
        ensures
            router == self.routes(),
    {
        self.router
    }
}

impl Default for App {
    fn default() -> (app: Self)
        ensures
            app.registry()@ == Map::<TypeId, ServiceBox>::empty(),
            fresh(app.routes()),
    {
        App::new()
    }
}

} // verus!
