//! The route registry: an append-only ordered list of
//! (method, literal path, handler) registrations and the first-match-wins
//! dispatch rule over it. Dispatch compares paths literally: route-pattern
//! captures are a capability of the request snapshot, filled from what the
//! transport resolved, and play no part here.

use crate::strutil::str_eq;
use crate::types::HttpMethods;
use vstd::prelude::*;

verus! {

/// Whether a registration answers the given method and path. Paths are
/// compared literally and case-sensitively; no pattern matching is
/// performed.
pub open spec fn route_matches<H>(
    entry: (HttpMethods, String, H),
    method: HttpMethods,
    path: Seq<char>,
) -> bool {
    entry.0 == method && entry.1@ == path
}

/// An append-only ordered list of route registrations. Duplicate
/// (method, path) registrations are permitted; dispatch scans in
/// registration order and the first match wins.
pub struct RouteRegistry<H> {
    routes: Vec<(HttpMethods, String, H)>,
}

impl<H> RouteRegistry<H> {
    /// The registrations, in registration order.
    pub closed spec fn spec_routes(&self) -> Seq<(HttpMethods, String, H)> {
        self.routes@
    }

    /// An empty registry.
    pub fn new() -> (r: Self)
        ensures
            r.spec_routes() == Seq::<(HttpMethods, String, H)>::empty(),
    {
        RouteRegistry { routes: Vec::new() }
    }

    /// Appends a registration; an existing entry for the same method and
    /// path is neither rejected nor replaced.
    pub fn register(&mut self, method: HttpMethods, path: &str, handler: H)
        ensures
            final(self).spec_routes().len() == old(self).spec_routes().len() + 1,
            final(self).spec_routes().drop_last() == old(self).spec_routes(),
            final(self).spec_routes().last().0 == method,
            final(self).spec_routes().last().1@ == path@,
            final(self).spec_routes().last().2 == handler,
    {
        self.routes.push((method, path.to_owned(), handler));
        proof {
            assert(self.routes@.drop_last() =~= old(self).routes@);
        }
    }

    /// The number of registrations.
    pub fn len(&self) -> (n: usize)
        ensures
            n == self.spec_routes().len(),
    {
        self.routes.len()
    }

    /// Resolves a (method, path) pair to the index of the first matching
    /// registration, scanning in registration order; `None` when no
    /// registration matches.
    pub fn dispatch(&self, method: HttpMethods, path: &str) -> (r: Option<usize>)
        ensures
            match r {
                Some(i) => 0 <= i < self.spec_routes().len() && route_matches(
                    self.spec_routes()[i as int],
                    method,
                    path@,
                ) && (forall|j: int|
                    0 <= j < i ==> !route_matches(self.spec_routes()[j], method, path@)),
                None => forall|j: int|
                    0 <= j < self.spec_routes().len() ==> !route_matches(
                        self.spec_routes()[j],
                        method,
                        path@,
                    ),
            },
    {
        let mut i: usize = 0;
        while i < self.routes.len()
            invariant
                i <= self.routes.len(),
                forall|j: int| 0 <= j < i ==> !route_matches(self.spec_routes()[j], method, path@),
            decreases self.routes.len() - i,
        {
            let entry = &self.routes[i];
            if entry.0 == method && str_eq(entry.1.as_str(), path) {
                return Some(i);
            }
            i += 1;
        }
        None
    }

    /// The handler of the registration at `i`.
    pub fn handler_at(&self, i: usize) -> (r: &H)
        requires
            i < self.spec_routes().len(),
        ensures
            *r == self.spec_routes()[i as int].2,
    {
        &self.routes[i].2
    }
}

} // verus!
