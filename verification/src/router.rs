use vstd::prelude::*;
use crate::body::Body;
use crate::context::ServerContext;
use crate::error::Error;
use crate::handler::{Endpoint, Handler};
use crate::request::Request;
use crate::response::Response;

verus! {

/// The dispatch table described by a registration journal: later entries
/// override earlier ones, so re-registering a path silently replaces the
/// handle stored under it.
pub open spec fn table_of<B>(entries: Seq<(String, Endpoint<B>)>) -> Map<
    Seq<char>,
    Endpoint<B>,
>
    decreases entries.len(),
{
    if entries.len() == 0 {
        Map::empty()
    } else {
        table_of(entries.drop_last()).insert(entries.last().0@, entries.last().1)
    }
}

/// A path absent from every entry of the journal is absent from the table.
proof fn lemma_table_of_miss<B>(entries: Seq<(String, Endpoint<B>)>, path: Seq<char>)
    requires
        forall|j: int| 0 <= j < entries.len() ==> entries[j].0@ != path,
    ensures
        !table_of(entries).dom().contains(path),
    decreases entries.len(),
{
    if entries.len() > 0 {
        lemma_table_of_miss(entries.drop_last(), path);
    }
}

/// The latest entry of the journal under a path is the one the table holds.
proof fn lemma_table_of_hit<B>(entries: Seq<(String, Endpoint<B>)>, i: int, path: Seq<char>)
    requires
        0 <= i < entries.len(),
        entries[i].0@ == path,
        forall|j: int| i < j < entries.len() ==> entries[j].0@ != path,
    ensures
        table_of(entries).dom().contains(path),
        table_of(entries)[path] == entries[i].1,
    decreases entries.len(),
{
    if i + 1 < entries.len() {
        lemma_table_of_hit(entries.drop_last(), i, path);
    }
}

/// An immutable-after-construction dispatch table from canonical paths to
/// handler handles. Routes are added while the router is being built; once
/// it serves, the table is only read. The router itself satisfies the call
/// capability: dispatching forwards to the handle registered under the
/// context's canonical path, or fails with a service-not-found error.
#[verifier::reject_recursive_types(B)]
pub struct Router<B: 'static> {
    routes: Vec<(String, Endpoint<B>)>,
}

impl<B> Router<B> {
    /// The dispatch table, as a mathematical map from canonical paths to the
    /// latest handle registered under each.
    pub closed spec fn route_map(&self) -> Map<Seq<char>, Endpoint<B>> {
        table_of(self.routes@)
    }

    /// An empty router: no path is registered.
    pub fn new() -> (r: Self)
        ensures
            r.route_map() == Map::<Seq<char>, Endpoint<B>>::empty(),
    {
        Router { routes: Vec::new() }
    }

    /// Registers a handle under a path, returning the router for chaining.
    ///
    /// The path must be non-empty and begin with `/`; a violation is a
    /// configuration error caught at startup, so such paths are ruled out
    /// here rather than reported as a per-call error. Registering a path a
    /// second time silently replaces the handle stored under it.
    pub fn handle(self, path: &str, service: Endpoint<B>) -> (r: Self)
        requires
            path@.len() > 0,
            path@[0] == '/',
        ensures
            r.route_map() == self.route_map().insert(path@, service),
    {
        let mut routes = self.routes;
        let ghost old_routes = routes@;
        routes.push((path.to_owned(), service));
        proof {
            assert(routes@.drop_last() =~= old_routes);
        }
        Router { routes }
    }
}

impl<B> Clone for Router<B> {
    /// Duplicates the router: the copy holds the same dispatch table, entry
    /// for entry, so it dispatches exactly as the original does.
    fn clone(&self) -> (r: Self)
        ensures
            r.route_map() == self.route_map(),
    {
        let mut routes: Vec<(String, Endpoint<B>)> = Vec::new();
        let n = self.routes.len();
        let mut i: usize = 0;
        while i < n
            invariant
                i <= n == self.routes@.len(),
                routes@.len() == i,
                forall|j: int| 0 <= j < i ==> routes@[j] == self.routes@[j],
            decreases n - i,
        {
            routes.push((self.routes[i].0.clone(), self.routes[i].1.clone()));
            i = i + 1;
        }
        proof {
            assert(routes@ =~= self.routes@);
        }
        Router { routes }
    }
}

impl<B> Default for Router<B> {
    /// Same as [`Router::new`]: an empty router.
    fn default() -> (r: Self)
        ensures
            r.route_map() == Map::<Seq<char>, Endpoint<B>>::empty(),
    {
        Router::new()
    }
}

impl<B> Handler<B> for Router<B> {
    /// Dispatch resolves the context's canonical path against the table.
    /// On a hit, the outcome and the final context are governed by the
    /// registered handle's own promise; on a miss, the context is unchanged
    /// and the outcome is a service-not-found error carrying the computed
    /// path.
    open spec fn call_ens(
        &self,
        pre: ServerContext,
        post: ServerContext,
        req: Request<B>,
        outcome: Result<Response<Body>, Error>,
    ) -> bool {
        if self.route_map().dom().contains(pre.spec_service_path()) {
            self.route_map()[pre.spec_service_path()].call_ens(pre, post, req, outcome)
        } else {
            &&& post == pre
            &&& outcome matches Err(Error::ServiceNotFound(p)) && p@ == pre.spec_service_path()
        }
    }

    /// Computes the canonical path from the context, looks it up in the
    /// table, and on a hit duplicates the stored handle and forwards the
    /// call to it; on a miss, fails with the computed path.
    fn call(&self, cx: &mut ServerContext, req: Request<B>) -> (outcome: Result<
        Response<Body>,
        Error,
    >) {
        let path = cx.service_path();
        let ghost p = path@;
        let n = self.routes.len();
        let mut i = n;
        while i > 0
            invariant
                i <= n == self.routes@.len(),
                *cx == *old(cx),
                path@ == p,
                p == old(cx).spec_service_path(),
                forall|j: int| i <= j < n ==> self.routes@[j].0@ != p,
            decreases i,
        {
            i = i - 1;
            if self.routes[i].0 == path {
                let route = self.routes[i].1.clone();
                proof {
                    lemma_table_of_hit(self.routes@, i as int, p);
                }
                return route.call(cx, req);
            }
        }
        proof {
            lemma_table_of_miss(self.routes@, p);
        }
        Err(Error::ServiceNotFound(path))
    }
}

/// Dispatching a context whose canonical path is registered is governed by
/// the handle stored under that path: the outcome and the final context are
/// the handle's, unchanged.
pub proof fn lemma_registered_path_forwards<B>(
    router: Router<B>,
    pre: ServerContext,
    post: ServerContext,
    req: Request<B>,
    outcome: Result<Response<Body>, Error>,
)
    requires
        router.route_map().dom().contains(pre.spec_service_path()),
        router.call_ens(pre, post, req, outcome),
    ensures
        router.route_map()[pre.spec_service_path()].call_ens(pre, post, req, outcome),
{
}

/// A hit returns the registered handler's result unchanged: when the handle
/// stored under the context's canonical path promises exactly what a
/// handler promises — as a handle wrapped from that handler does — the
/// dispatch outcome and the final context are governed by that handler's
/// own promise; nothing is added, retried or transformed.
pub proof fn lemma_hit_forwards_to_wrapped_handler<B, S: Handler<B>>(
    router: Router<B>,
    handler: S,
    pre: ServerContext,
    post: ServerContext,
    req: Request<B>,
    outcome: Result<Response<Body>, Error>,
)
    requires
        router.route_map().dom().contains(pre.spec_service_path()),
        forall|p2: ServerContext, q2: ServerContext, r2: Request<B>, o2: Result<
            Response<Body>,
            Error,
        >|
            #[trigger] router.route_map()[pre.spec_service_path()].call_ens(p2, q2, r2, o2)
                <==> handler.call_ens(p2, q2, r2, o2),
        router.call_ens(pre, post, req, outcome),
    ensures
        handler.call_ens(pre, post, req, outcome),
{
}

/// Dispatching a context whose canonical path is not registered always
/// misses: the outcome is a service-not-found error carrying exactly the
/// computed path, and the context is left unchanged.
pub proof fn lemma_unregistered_path_misses<B>(
    router: Router<B>,
    pre: ServerContext,
    post: ServerContext,
    req: Request<B>,
    outcome: Result<Response<Body>, Error>,
)
    requires
        !router.route_map().dom().contains(pre.spec_service_path()),
        router.call_ens(pre, post, req, outcome),
    ensures
        post == pre,
        outcome matches Err(Error::ServiceNotFound(p)) && p@ == pre.spec_service_path(),
{
}

/// Registering twice under one path leaves only the second handle
/// reachable: the dispatch table maps the path to the latest registration,
/// and dispatching a context that resolves to the path is governed by the
/// second handle's promise alone.
pub proof fn lemma_last_registration_wins<B>(
    r0: Router<B>,
    r1: Router<B>,
    r2: Router<B>,
    path: Seq<char>,
    first: Endpoint<B>,
    second: Endpoint<B>,
)
    requires
        r1.route_map() == r0.route_map().insert(path, first),
        r2.route_map() == r1.route_map().insert(path, second),
    ensures
        r2.route_map()[path] == second,
        r2.route_map() == r0.route_map().insert(path, second),
        forall|pre: ServerContext, post: ServerContext, req: Request<B>, outcome: Result<
            Response<Body>,
            Error,
        >|
            pre.spec_service_path() == path ==> (#[trigger] r2.call_ens(pre, post, req, outcome))
                == second.call_ens(pre, post, req, outcome),
{
    assert(r0.route_map().insert(path, first).insert(path, second) =~= r0.route_map().insert(
        path,
        second,
    ));
}

/// Routers with disjoint route sets never interfere: a dispatch whose
/// computed path is registered in one router always misses in the other,
/// with the service-not-found error carrying that path and the context left
/// unchanged.
pub proof fn lemma_disjoint_routers_no_interference<B>(
    r1: Router<B>,
    r2: Router<B>,
    pre: ServerContext,
    post: ServerContext,
    req: Request<B>,
    outcome: Result<Response<Body>, Error>,
)
    requires
        r1.route_map().dom().contains(pre.spec_service_path()),
        r1.route_map().dom().disjoint(r2.route_map().dom()),
        r2.call_ens(pre, post, req, outcome),
    ensures
        post == pre,
        outcome matches Err(Error::ServiceNotFound(p)) && p@ == pre.spec_service_path(),
{
}

} // verus!
