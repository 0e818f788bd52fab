//! The middleware chain: per-path-prefix resolution, the explicit
//! chain-cursor protocol with its single-use [`Next`] continuation, and the
//! chain execution semantics with its short-circuit and pass-through laws.

use crate::response::HttpResponse;
use crate::strutil::str_eq;
use vstd::prelude::*;
use vstd::string::StrSliceExecFns;

verus! {

/// Whether `prefix` is a prefix of `path`: a middleware registered under a
/// prefix applies exactly to the requests whose path starts with it.
pub fn path_has_prefix(path: &str, prefix: &str) -> (r: bool)
    ensures
        r == prefix@.is_prefix_of(path@),
{
    let pl = path.unicode_len();
    let nl = prefix.unicode_len();
    if nl > pl {
        return false;
    }
    let head = path.substring_char(0, nl);
    proof {
        assert(head@ =~= path@.subrange(0, prefix@.len() as int));
    }
    str_eq(head, prefix)
}

/// The indices of the registrations whose prefix matches `path`, in
/// registration order.
pub open spec fn matching_indices<M>(regs: Seq<(String, M)>, path: Seq<char>) -> Seq<int>
    decreases regs.len(),
{
    if regs.len() == 0 {
        Seq::empty()
    } else {
        let front = matching_indices(regs.drop_last(), path);
        if regs.last().0@.is_prefix_of(path) {
            front.push(regs.len() - 1)
        } else {
            front
        }
    }
}

/// Collects the indices of the middleware registrations that apply to
/// `path`, in registration order.
pub fn resolve_middlewares<M>(regs: &Vec<(String, M)>, path: &str) -> (r: Vec<usize>)
    ensures
        r@.map_values(|i: usize| i as int) == matching_indices(regs@, path@),
{
    let mut out: Vec<usize> = Vec::new();
    let mut i: usize = 0;
    proof {
        assert(regs@.take(0) =~= Seq::<(String, M)>::empty());
        assert(out@.map_values(|k: usize| k as int) =~= Seq::<int>::empty());
    }
    while i < regs.len()
        invariant
            i <= regs.len(),
            out@.map_values(|k: usize| k as int) == matching_indices(regs@.take(i as int), path@),
        decreases regs.len() - i,
    {
        let ghost out0 = out@.map_values(|k: usize| k as int);
        proof {
            assert(regs@.take(i + 1).drop_last() =~= regs@.take(i as int));
            assert(regs@.take(i + 1).last() == regs@[i as int]);
        }
        if path_has_prefix(path, regs[i].0.as_str()) {
            out.push(i);
            proof {
                assert(out@.map_values(|k: usize| k as int) =~= out0.push(i as int));
            }
        }
        i += 1;
    }
    proof {
        assert(regs@.take(regs.len() as int) =~= regs@);
    }
    out
}

/// A single-use continuation: "the remainder of the chain from this
/// cursor on". Running a step hands out the continuation for the next
/// cursor; consuming it is the only way to advance, so a middleware cannot
/// invoke its continuation twice.
pub struct Next {
    cursor: usize,
}

impl Next {
    /// The cursor this continuation resumes at.
    pub closed spec fn spec_cursor(&self) -> usize {
        self.cursor
    }

    /// A continuation bound to the given cursor.
    pub fn new(cursor: usize) -> (r: Self)
        ensures
            r.spec_cursor() == cursor,
    {
        Next { cursor }
    }

    /// The cursor, readable without consuming the continuation.
    pub fn cursor(&self) -> (r: usize)
        ensures
            r == self.spec_cursor(),
    {
        self.cursor
    }
}

/// What the chain asks its driver to do next.
pub enum ChainStep {
    /// Invoke the middleware at this index, offering it the continuation.
    RunMiddleware(usize, Next),
    /// All middlewares are exhausted: invoke the terminal route handler,
    /// which is not offered a continuation.
    RunHandler,
    /// No route matched: finish with the built-in not-found response.
    NotFound,
}

/// The shape of the chain resolved for one request: how many middlewares
/// apply, and whether dispatch found a terminal handler.
pub struct ChainPlan {
    middleware_count: usize,
    has_handler: bool,
}

impl ChainPlan {
    /// The number of middlewares in the chain.
    pub closed spec fn spec_middleware_count(&self) -> usize {
        self.middleware_count
    }

    /// Whether a terminal handler stands at the end of the chain.
    pub closed spec fn spec_has_handler(&self) -> bool {
        self.has_handler
    }

    /// A plan over `middleware_count` middlewares, ended by a handler or by
    /// the built-in not-found response.
    pub fn new(middleware_count: usize, has_handler: bool) -> (r: Self)
        ensures
            r.spec_middleware_count() == middleware_count,
            r.spec_has_handler() == has_handler,
    {
        ChainPlan { middleware_count, has_handler }
    }

    /// The number of middlewares in the chain.
    pub fn middleware_count(&self) -> (r: usize)
        ensures
            r == self.spec_middleware_count(),
    {
        self.middleware_count
    }

    /// Whether a terminal handler stands at the end of the chain.
    pub fn has_handler(&self) -> (r: bool)
        ensures
            r == self.spec_has_handler(),
    {
        self.has_handler
    }

    /// The step at a cursor: the middleware there with a continuation bound
    /// one past it, or the chain's terminal once middlewares are exhausted.
    pub fn step(&self, cursor: usize) -> (r: ChainStep)
        requires
            cursor <= self.spec_middleware_count(),
        ensures
            cursor < self.spec_middleware_count() ==> (r matches ChainStep::RunMiddleware(i, next)
                && i == cursor && next.spec_cursor() == cursor + 1),
            cursor == self.spec_middleware_count() && self.spec_has_handler() ==> r
                == ChainStep::RunHandler,
            cursor == self.spec_middleware_count() && !self.spec_has_handler() ==> r
                == ChainStep::NotFound,
    {
        if cursor < self.middleware_count {
            ChainStep::RunMiddleware(cursor, Next { cursor: cursor + 1 })
        } else if self.has_handler {
            ChainStep::RunHandler
        } else {
            ChainStep::NotFound
        }
    }

    /// The chain's first step.
    pub fn start(&self) -> (r: ChainStep)
        ensures
            0 < self.spec_middleware_count() ==> (r matches ChainStep::RunMiddleware(i, next)
                && i == 0 && next.spec_cursor() == 1),
            self.spec_middleware_count() == 0 && self.spec_has_handler() ==> r
                == ChainStep::RunHandler,
            self.spec_middleware_count() == 0 && !self.spec_has_handler() ==> r
                == ChainStep::NotFound,
    {
        self.step(0)
    }

    /// Consumes a continuation and yields the step it stands for: the rest
    /// of the chain from its cursor.
    pub fn resume(&self, next: Next) -> (r: ChainStep)
        requires
            next.spec_cursor() <= self.spec_middleware_count(),
        ensures
            next.spec_cursor() < self.spec_middleware_count() ==> (r
                matches ChainStep::RunMiddleware(i, n2) && i == next.spec_cursor()
                && n2.spec_cursor() == next.spec_cursor() + 1),
            next.spec_cursor() == self.spec_middleware_count() && self.spec_has_handler() ==> r
                == ChainStep::RunHandler,
            next.spec_cursor() == self.spec_middleware_count() && !self.spec_has_handler() ==> r
                == ChainStep::NotFound,
    {
        self.step(next.cursor)
    }
}

/// The response the chain produces when dispatch found no route.
pub fn not_found_response() -> (r: HttpResponse)
    ensures
        r.wf(),
        r.spec_status() == 404,
        r.spec_body() matches crate::types::ResponseContentBody::TEXT(t) && t@ == "Not Found"@,
{
    HttpResponse::new().status(404).text("Not Found")
}

/// A middleware behaviour expressed as data: either answer the request
/// itself without invoking the continuation, or forward to the rest of the
/// chain and return the downstream result unmodified.
pub enum MiddlewareAction {
    /// Short-circuit: return this response; everything downstream is
    /// skipped.
    Respond(HttpResponse),
    /// Forward to the continuation unconditionally and hand its result
    /// back unchanged.
    Forward,
}

/// The outcome of running a chain of middleware actions in front of the
/// terminal response: the final response, how many middlewares were
/// invoked, and whether the terminal handler was reached.
pub open spec fn chain_outcome(
    actions: Seq<MiddlewareAction>,
    terminal: HttpResponse,
) -> (HttpResponse, int, bool)
    decreases actions.len(),
{
    if actions.len() == 0 {
        (terminal, 0, true)
    } else {
        match actions[0] {
            MiddlewareAction::Respond(resp) => (resp, 1, false),
            MiddlewareAction::Forward => {
                let rest = chain_outcome(actions.drop_first(), terminal);
                (rest.0, rest.1 + 1, rest.2)
            },
        }
    }
}

/// The result of [`run_chain`].
pub struct ChainRun {
    /// The response the chain exit hands to the transport.
    pub response: HttpResponse,
    /// How many links of the chain were invoked, in order from the front.
    pub middlewares_run: usize,
    /// Whether the terminal handler was reached.
    pub handler_ran: bool,
}

/// Runs a chain of middleware actions in front of the terminal response
/// `terminal` (what the dispatched handler produces): each link either
/// short-circuits, skipping everything downstream, or forwards and returns
/// the downstream result unmodified.
pub fn run_chain(actions: Vec<MiddlewareAction>, terminal: HttpResponse) -> (r: ChainRun)
    ensures
        ({
            let o = chain_outcome(actions@, terminal);
            &&& r.response == o.0
            &&& r.middlewares_run as int == o.1
            &&& r.handler_ran == o.2
            &&& r.middlewares_run <= actions@.len()
        }),
    decreases actions@.len(),
{
    let mut actions = actions;
    if actions.len() == 0 {
        ChainRun { response: terminal, middlewares_run: 0, handler_ran: true }
    } else {
        let ghost actions0 = actions@;
        let head = actions.remove(0);
        proof {
            assert(actions@ =~= actions0.drop_first());
        }
        match head {
            MiddlewareAction::Respond(resp) => ChainRun {
                response: resp,
                middlewares_run: 1,
                handler_ran: false,
            },
            MiddlewareAction::Forward => {
                let rest = run_chain(actions, terminal);
                ChainRun {
                    response: rest.response,
                    middlewares_run: rest.middlewares_run + 1,
                    handler_ran: rest.handler_ran,
                }
            },
        }
    }
}

/// A middleware that returns without invoking its continuation
/// short-circuits the chain: no later middleware and no handler is
/// invoked, and the chain's response is exactly that middleware's own.
pub proof fn lemma_short_circuit_skips_rest(
    actions: Seq<MiddlewareAction>,
    terminal: HttpResponse,
    resp: HttpResponse,
)
    requires
        actions.len() >= 1,
        actions[0] == MiddlewareAction::Respond(resp),
    ensures
        chain_outcome(actions, terminal).0 == resp,
        chain_outcome(actions, terminal).1 == 1,
        chain_outcome(actions, terminal).2 == false,
{
}

/// A chain whose every middleware forwards and returns the downstream
/// result unmodified is transparent: every link and the terminal handler
/// run, and the final response is exactly the handler's.
pub proof fn lemma_transparent_chain(actions: Seq<MiddlewareAction>, terminal: HttpResponse)
    requires
        forall|i: int| 0 <= i < actions.len() ==> actions[i] == MiddlewareAction::Forward,
    ensures
        chain_outcome(actions, terminal).0 == terminal,
        chain_outcome(actions, terminal).1 == actions.len(),
        chain_outcome(actions, terminal).2 == true,
    decreases actions.len(),
{
    if actions.len() > 0 {
        lemma_transparent_chain(actions.drop_first(), terminal);
    }
}

} // verus!
