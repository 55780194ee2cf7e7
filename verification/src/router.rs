use vstd::prelude::*;
use crate::error::Error;

verus! {

/// A request method. The benchmarked routes only answer GET, but dispatch
/// treats every method alike.
#[derive(Clone, Copy, PartialEq, Eq, Structural, Debug, Hash)]
pub enum Method {
    Get,
    Head,
    Post,
    Put,
    Delete,
    Options,
    Patch,
}

/// The identity of a handler unit. Dispatch resolves a (method, path) pair
/// to one of these; running the handler is a separate step.
#[derive(Clone, Copy, PartialEq, Eq, Structural, Debug)]
pub enum Handler {
    Plaintext,
    Json,
    Db,
    Fortunes,
    Queries,
    Updates,
}

/// An immutable exact-match dispatch table from (method, path) to a
/// handler. Routes are registered once at startup; within a router no two
/// routes share a (method, path) pair.
pub struct Router {
    pub routes: Vec<(Method, String, Handler)>,
}

/// The handler of the first route matching (m, p), if any.
pub open spec fn find_route(
    rs: Seq<(Method, String, Handler)>,
    m: Method,
    p: Seq<char>,
) -> Option<Handler>
    decreases rs.len(),
{
    if rs.len() == 0 {
        None
    } else if rs[0].0 == m && rs[0].1@ == p {
        Some(rs[0].2)
    } else {
        find_route(rs.drop_first(), m, p)
    }
}

proof fn lemma_find_route_absent(rs: Seq<(Method, String, Handler)>, m: Method, p: Seq<char>)
    requires
        forall|j: int| 0 <= j < rs.len() ==> !(rs[j].0 == m && rs[j].1@ == p),
    ensures
        find_route(rs, m, p) is None,
    decreases rs.len(),
{
    if rs.len() > 0 {
        lemma_find_route_absent(rs.drop_first(), m, p);
    }
}

proof fn lemma_find_route_at(rs: Seq<(Method, String, Handler)>, m: Method, p: Seq<char>, i: int)
    requires
        0 <= i < rs.len(),
        rs[i].0 == m && rs[i].1@ == p,
        forall|j: int| 0 <= j < i ==> !(rs[j].0 == m && rs[j].1@ == p),
    ensures
        find_route(rs, m, p) == Some(rs[i].2),
    decreases rs.len(),
{
    if i > 0 {
        lemma_find_route_at(rs.drop_first(), m, p, i - 1);
    }
}

impl Router {
    /// The registered routes, in registration order.
    pub open spec fn routes_seq(self) -> Seq<(Method, String, Handler)> {
        self.routes@
    }

    /// No two routes share a (method, path) pair.
    pub open spec fn wf(self) -> bool {
        forall|i: int, j: int|
            0 <= i < j < self.routes@.len() ==> !(self.routes@[i].0 == self.routes@[j].0
                && self.routes@[i].1@ == self.routes@[j].1@)
    }

    /// Handler h is registered under (m, p).
    pub open spec fn registered(self, m: Method, p: Seq<char>, h: Handler) -> bool {
        exists|i: int|
            0 <= i < self.routes@.len() && self.routes@[i].0 == m && self.routes@[i].1@ == p
                && self.routes@[i].2 == h
    }

    /// Some handler is registered under (m, p).
    pub open spec fn has_route(self, m: Method, p: Seq<char>) -> bool {
        exists|i: int|
            0 <= i < self.routes@.len() && self.routes@[i].0 == m && self.routes@[i].1@ == p
    }

    /// Some handler is registered under path p, whatever the method.
    pub open spec fn has_path(self, p: Seq<char>) -> bool {
        exists|i: int| 0 <= i < self.routes@.len() && self.routes@[i].1@ == p
    }

    /// The routes as a mapping keyed by (method, path). Under
    /// well-formedness each key carries the one handler registered for it.
    pub open spec fn route_map(self) -> Map<(Method, Seq<char>), Handler> {
        Map::new(
            |k: (Method, Seq<char>)| self.has_route(k.0, k.1),
            |k: (Method, Seq<char>)| choose|h: Handler| self.registered(k.0, k.1, h),
        )
    }

    /// What dispatch returns: the handler registered under (m, p); else
    /// `MethodNotAllowed` where the path is known under another method;
    /// else `RouteNotFound`.
    pub open spec fn dispatch_spec(self, m: Method, p: Seq<char>) -> Result<Handler, Error> {
        match find_route(self.routes@, m, p) {
            Some(h) => Ok(h),
            None => if self.has_path(p) {
                Err(Error::MethodNotAllowed)
            } else {
                Err(Error::RouteNotFound)
            },
        }
    }

    /// An empty dispatch table.
    pub fn new() -> (r: Router)
        ensures
            r.wf(),
            r.routes_seq() == Seq::<(Method, String, Handler)>::empty(),
    {
        Router { routes: Vec::new() }
    }

    /// Whether some handler is already registered under (m, path).
    pub fn contains(&self, m: Method, path: &String) -> (r: bool)
        ensures
            r == self.has_route(m, path@),
    {
        let mut i: usize = 0;
        while i < self.routes.len()
            invariant
                i <= self.routes@.len(),
                forall|j: int|
                    0 <= j < i ==> !(self.routes@[j].0 == m && self.routes@[j].1@ == path@),
            decreases self.routes@.len() - i,
        {
            if self.routes[i].0 == m && self.routes[i].1 == *path {
                return true;
            }
            i += 1;
        }
        false
    }

    /// Register a handler under a (method, path) pair that is not yet
    /// taken. Registration happens once, at startup.
    pub fn register(&mut self, m: Method, path: String, h: Handler)
        requires
            old(self).wf(),
            !old(self).has_route(m, path@),
        ensures
            final(self).wf(),
            final(self).routes_seq() == old(self).routes_seq().push((m, path, h)),
    {
        self.routes.push((m, path, h));
    }

    /// Resolve a (method, path) pair to the registered handler, or to the
    /// typed routing error the spec table gives.
    pub fn dispatch(&self, m: Method, path: &String) -> (r: Result<Handler, Error>)
        ensures
            r == self.dispatch_spec(m, path@),
    {
        let mut path_seen: bool = false;
        let mut i: usize = 0;
        while i < self.routes.len()
            invariant
                i <= self.routes@.len(),
                forall|j: int|
                    0 <= j < i ==> !(self.routes@[j].0 == m && self.routes@[j].1@ == path@),
                path_seen == exists|j: int| 0 <= j < i && self.routes@[j].1@ == path@,
            decreases self.routes@.len() - i,
        {
            if self.routes[i].1 == *path {
                if self.routes[i].0 == m {
                    proof {
                        lemma_find_route_at(self.routes@, m, path@, i as int);
                    }
                    return Ok(self.routes[i].2);
                }
                path_seen = true;
            }
            i += 1;
        }
        proof {
            lemma_find_route_absent(self.routes@, m, path@);
        }
        if path_seen {
            Err(Error::MethodNotAllowed)
        } else {
            Err(Error::RouteNotFound)
        }
    }
}

/// Dispatch is exact and deterministic: whatever handler is registered
/// under a (method, path) pair is what dispatch returns for that pair, on
/// this call and on every repeated call with the same inputs.
pub proof fn lemma_dispatch_registered(r: Router, m: Method, p: Seq<char>, h: Handler)
    requires
        r.wf(),
        r.registered(m, p, h),
    ensures
        r.dispatch_spec(m, p) == Ok::<Handler, Error>(h),
{
    let i: int = choose|i: int|
        0 <= i < r.routes_seq().len() && r.routes_seq()[i].0 == m && r.routes_seq()[i].1@ == p
            && r.routes_seq()[i].2 == h;
    lemma_find_route_at(r.routes_seq(), m, p, i);
}

/// A key of a well-formed router carries one handler only.
proof fn lemma_unique_handler(r: Router, m: Method, p: Seq<char>, h1: Handler, h2: Handler)
    requires
        r.wf(),
        r.registered(m, p, h1),
        r.registered(m, p, h2),
    ensures
        h1 == h2,
{
    let i1: int = choose|i: int|
        0 <= i < r.routes@.len() && r.routes@[i].0 == m && r.routes@[i].1@ == p && r.routes@[i].2
            == h1;
    let i2: int = choose|i: int|
        0 <= i < r.routes@.len() && r.routes@[i].0 == m && r.routes@[i].1@ == p && r.routes@[i].2
            == h2;
    assert(i1 == i2);
}

/// What `register` does to the route mapping: it is exactly insertion of
/// the new key with its handler; every other key keeps its handler.
pub proof fn lemma_register_inserts(before: Router, after: Router, m: Method, path: String, h: Handler)
    requires
        before.wf(),
        !before.has_route(m, path@),
        after.routes_seq() == before.routes_seq().push((m, path, h)),
    ensures
        after.route_map() =~= before.route_map().insert((m, path@), h),
{
    let k0 = (m, path@);
    let n = before.routes@.len() as int;
    assert(after.routes@[n] == (m, path, h));
    assert forall|k: (Method, Seq<char>)| after.route_map().contains_key(k) implies (
    before.route_map().contains_key(k) || k == k0) by {
        let i: int = choose|i: int|
            0 <= i < after.routes@.len() && after.routes@[i].0 == k.0 && after.routes@[i].1@
                == k.1;
        if i < n {
            assert(before.has_route(k.0, k.1));
        }
    }
    assert forall|k: (Method, Seq<char>)| before.route_map().contains_key(k) implies after
        .route_map().contains_key(k) by {
        let i: int = choose|i: int|
            0 <= i < before.routes@.len() && before.routes@[i].0 == k.0 && before.routes@[i].1@
                == k.1;
        assert(after.routes@[i].0 == k.0 && after.routes@[i].1@ == k.1);
        assert(after.has_route(k.0, k.1));
    }
    assert(after.has_route(m, path@));
    assert forall|k: (Method, Seq<char>)| before.route_map().contains_key(k) && k != k0 implies
        after.route_map()[k] == before.route_map()[k] by {
        let hb = before.route_map()[k];
        let ha = after.route_map()[k];
        let ib: int = choose|i: int|
            0 <= i < before.routes@.len() && before.routes@[i].0 == k.0 && before.routes@[i].1@
                == k.1;
        assert(before.registered(k.0, k.1, before.routes@[ib].2));
        assert(before.registered(k.0, k.1, hb));
        assert(after.registered(k.0, k.1, before.routes@[ib].2)) by {
            assert(after.routes@[ib] == before.routes@[ib]);
        }
        assert(after.registered(k.0, k.1, ha));
        let ia: int = choose|i: int|
            0 <= i < after.routes@.len() && after.routes@[i].0 == k.0 && after.routes@[i].1@
                == k.1 && after.routes@[i].2 == ha;
        assert(ia != n);
        assert(before.registered(k.0, k.1, ha));
        lemma_unique_handler(before, k.0, k.1, hb, ha);
    }
    assert(after.route_map()[k0] == h) by {
        assert(after.registered(m, path@, h));
        let ha = after.route_map()[k0];
        assert(after.registered(m, path@, ha));
        let ia: int = choose|i: int|
            0 <= i < after.routes@.len() && after.routes@[i].0 == m && after.routes@[i].1@
                == path@ && after.routes@[i].2 == ha;
        if ia < n {
            assert(before.has_route(m, path@));
        }
    }
}

/// Dispatch is exactly lookup in the route mapping keyed by (method,
/// path): a present key yields its one registered handler; an absent key
/// yields `MethodNotAllowed` where the path is registered under another
/// method and `RouteNotFound` where it is registered nowhere.
pub proof fn lemma_dispatch_is_map_lookup(r: Router, m: Method, p: Seq<char>)
    requires
        r.wf(),
    ensures
        r.route_map().contains_key((m, p)) ==> r.dispatch_spec(m, p) == Ok::<Handler, Error>(
            r.route_map()[(m, p)],
        ),
        !r.route_map().contains_key((m, p)) && r.has_path(p) ==> r.dispatch_spec(m, p)
            == Err::<Handler, Error>(Error::MethodNotAllowed),
        !r.route_map().contains_key((m, p)) && !r.has_path(p) ==> r.dispatch_spec(m, p)
            == Err::<Handler, Error>(Error::RouteNotFound),
{
    if r.route_map().contains_key((m, p)) {
        let i: int = choose|i: int|
            0 <= i < r.routes@.len() && r.routes@[i].0 == m && r.routes@[i].1@ == p;
        assert(r.registered(m, p, r.routes@[i].2));
        let h: Handler = choose|h: Handler| r.registered(m, p, h);
        lemma_dispatch_registered(r, m, p, h);
    } else {
        lemma_dispatch_miss(r, m, p);
    }
}

/// A path nowhere registered dispatches to `RouteNotFound`; a registered
/// path asked with a method nobody registered for it dispatches to
/// `MethodNotAllowed`.
pub proof fn lemma_dispatch_miss(r: Router, m: Method, p: Seq<char>)
    requires
        !r.has_route(m, p),
    ensures
        !r.has_path(p) ==> r.dispatch_spec(m, p) == Err::<Handler, Error>(Error::RouteNotFound),
        r.has_path(p) ==> r.dispatch_spec(m, p) == Err::<Handler, Error>(Error::MethodNotAllowed),
{
    lemma_find_route_absent(r.routes_seq(), m, p);
}

} // verus!
