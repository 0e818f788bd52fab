//! The composition root: owns the route registry and the ordered
//! middleware-prefix registrations, and resolves the chain to run for one
//! request. Handlers and middlewares are carried opaquely as type
//! parameters; the transport adapter invokes them.

use crate::chain::{matching_indices, resolve_middlewares, ChainPlan};
use crate::router::{route_matches, RouteRegistry};
use crate::types::HttpMethods;
use vstd::prelude::*;

verus! {

/// Whether `new_routes` is `old_routes` with one registration for
/// (`method`, `path`, `handler`) appended.
pub open spec fn route_appended<H>(
    old_routes: Seq<(HttpMethods, String, H)>,
    new_routes: Seq<(HttpMethods, String, H)>,
    method: HttpMethods,
    path: Seq<char>,
    handler: H,
) -> bool {
    &&& new_routes.len() == old_routes.len() + 1
    &&& new_routes.drop_last() == old_routes
    &&& new_routes.last().0 == method
    &&& new_routes.last().1@ == path
    &&& new_routes.last().2 == handler
}

/// An application: a route registry plus ordered (prefix, middleware)
/// registrations. Both are populated during setup and treated as immutable
/// once the transport starts serving.
pub struct App<H, M> {
    routes: RouteRegistry<H>,
    middlewares: Vec<(String, M)>,
}

impl<H, M> App<H, M> {
    /// The route registrations, in registration order.
    pub closed spec fn spec_routes(&self) -> Seq<(HttpMethods, String, H)> {
        self.routes.spec_routes()
    }

    /// The (prefix, middleware) registrations, in registration order.
    pub closed spec fn spec_middlewares(&self) -> Seq<(String, M)> {
        self.middlewares@
    }

    /// An application with no routes and no middlewares.
    pub fn new() -> (r: Self)
        ensures
            r.spec_routes() == Seq::<(HttpMethods, String, H)>::empty(),
            r.spec_middlewares() == Seq::<(String, M)>::empty(),
    {
        App { routes: RouteRegistry::new(), middlewares: Vec::new() }
    }

    /// Registers a handler for GET requests to the literal path.
    pub fn get(&mut self, path: &str, handler: H)
        ensures
            route_appended(
                old(self).spec_routes(),
                final(self).spec_routes(),
                HttpMethods::GET,
                path@,
                handler,
            ),
            final(self).spec_middlewares() == old(self).spec_middlewares(),
    {
        self.routes.register(HttpMethods::GET, path, handler);
    }

    /// Registers a handler for POST requests to the literal path.
    pub fn post(&mut self, path: &str, handler: H)
        ensures
            route_appended(
                old(self).spec_routes(),
                final(self).spec_routes(),
                HttpMethods::POST,
                path@,
                handler,
            ),
            final(self).spec_middlewares() == old(self).spec_middlewares(),
    {
        self.routes.register(HttpMethods::POST, path, handler);
    }

    /// Registers a handler for PUT requests to the literal path.
    pub fn put(&mut self, path: &str, handler: H)
        ensures
            route_appended(
                old(self).spec_routes(),
                final(self).spec_routes(),
                HttpMethods::PUT,
                path@,
                handler,
            ),
            final(self).spec_middlewares() == old(self).spec_middlewares(),
    {
        self.routes.register(HttpMethods::PUT, path, handler);
    }

    /// Registers a handler for DELETE requests to the literal path.
    pub fn delete(&mut self, path: &str, handler: H)
        ensures
            route_appended(
                old(self).spec_routes(),
                final(self).spec_routes(),
                HttpMethods::DELETE,
                path@,
                handler,
            ),
            final(self).spec_middlewares() == old(self).spec_middlewares(),
    {
        self.routes.register(HttpMethods::DELETE, path, handler);
    }

    /// Registers a handler for PATCH requests to the literal path.
    pub fn patch(&mut self, path: &str, handler: H)
        ensures
            route_appended(
                old(self).spec_routes(),
                final(self).spec_routes(),
                HttpMethods::PATCH,
                path@,
                handler,
            ),
            final(self).spec_middlewares() == old(self).spec_middlewares(),
    {
        self.routes.register(HttpMethods::PATCH, path, handler);
    }

    /// Appends a middleware that applies to every request whose path starts
    /// with `prefix`.
    pub fn use_middleware(&mut self, prefix: &str, middleware: M)
        ensures
            final(self).spec_middlewares().len() == old(self).spec_middlewares().len() + 1,
            final(self).spec_middlewares().drop_last() == old(self).spec_middlewares(),
            final(self).spec_middlewares().last().0@ == prefix@,
            final(self).spec_middlewares().last().1 == middleware,
            final(self).spec_routes() == old(self).spec_routes(),
    {
        self.middlewares.push((prefix.to_owned(), middleware));
        proof {
            assert(self.middlewares@.drop_last() =~= old(self).middlewares@);
        }
    }

    /// Resolves a (method, path) pair to the first matching route, in
    /// registration order.
    pub fn dispatch(&self, method: HttpMethods, path: &str) -> (r: Option<usize>)
        ensures
            match r {
                Some(i) => 0 <= i < self.spec_routes().len() && route_matches(
                    self.spec_routes()[i as int],
                    method,
                    path@,
                ) && (forall|j: int|
                    0 <= j < i ==> !route_matches(self.spec_routes()[j], method, path@)),
                None => forall|j: int|
                    0 <= j < self.spec_routes().len() ==> !route_matches(
                        self.spec_routes()[j],
                        method,
                        path@,
                    ),
            },
    {
        self.routes.dispatch(method, path)
    }

    /// Resolves the chain to run for one request: the indices of every
    /// middleware whose prefix matches the path, in registration order, the
    /// first matching route, and the plan the chain driver steps through
    /// (ended by the built-in not-found response when no route matched).
    pub fn plan(&self, method: HttpMethods, path: &str) -> (r: (
        Vec<usize>,
        Option<usize>,
        ChainPlan,
    ))
        ensures
            r.0@.map_values(|i: usize| i as int) == matching_indices(
                self.spec_middlewares(),
                path@,
            ),
            match r.1 {
                Some(i) => 0 <= i < self.spec_routes().len() && route_matches(
                    self.spec_routes()[i as int],
                    method,
                    path@,
                ) && (forall|j: int|
                    0 <= j < i ==> !route_matches(self.spec_routes()[j], method, path@)),
                None => forall|j: int|
                    0 <= j < self.spec_routes().len() ==> !route_matches(
                        self.spec_routes()[j],
                        method,
                        path@,
                    ),
            },
            r.2.spec_middleware_count() == r.0@.len(),
            r.2.spec_has_handler() == (r.1 is Some),
    {
        let mws = resolve_middlewares(&self.middlewares, path);
        let route = self.routes.dispatch(method, path);
        let plan = ChainPlan::new(mws.len(), route.is_some());
        (mws, route, plan)
    }

    /// The number of middleware registrations.
    pub fn middleware_count(&self) -> (n: usize)
        ensures
            n == self.spec_middlewares().len(),
    {
        self.middlewares.len()
    }

    /// The number of route registrations.
    pub fn route_count(&self) -> (n: usize)
        ensures
            n == self.spec_routes().len(),
    {
        self.routes.len()
    }

    /// The handler of the route registration at `i`.
    pub fn handler_at(&self, i: usize) -> (r: &H)
        requires
            i < self.spec_routes().len(),
        ensures
            *r == self.spec_routes()[i as int].2,
    {
        self.routes.handler_at(i)
    }

    /// The middleware of the registration at `i`.
    pub fn middleware_at(&self, i: usize) -> (r: &M)
        requires
            i < self.spec_middlewares().len(),
        ensures
            *r == self.spec_middlewares()[i as int].1,
    {
        &self.middlewares[i].1
    }
}

} // verus!
