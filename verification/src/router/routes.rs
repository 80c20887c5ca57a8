//! The table of routes.

use crate::body::Full;
use crate::headers::{ascii_bytes, header_map_contents, no_headers};
use crate::message::{parse_uri_path, text_bytes, uri_path, Request, Response, NOT_FOUND};
use crate::router::path::{normalize_path, normalized};
use vstd::prelude::*;

verus! {

/// What a request is told that no route matches.
pub const NOT_FOUND_BODY: &'static str = "Not Found";

/// One route: a method, a path in normal form, and the service that answers
/// there.
struct Route<S> {
    method: String,
    path: String,
    service: S,
}

/// What names a route: its method and its path.
spec fn key_of<S>(route: Route<S>) -> (Seq<char>, Seq<char>) {
    (route.method@, route.path@)
}

/// No two routes of the list have the same method and path.
spec fn distinct<S>(routes: Seq<Route<S>>) -> bool {
    forall|i: int, j: int|
        0 <= i < j < routes.len() ==> key_of(#[trigger] routes[i]) != key_of(#[trigger] routes[j])
}

/// Whether the list holds a route under `key`.
spec fn holds<S>(routes: Seq<Route<S>>, key: (Seq<char>, Seq<char>)) -> bool {
    exists|i: int| 0 <= i < routes.len() && key_of(#[trigger] routes[i]) == key
}

/// The place in the list of the route under `key`.
spec fn place<S>(routes: Seq<Route<S>>, key: (Seq<char>, Seq<char>)) -> int {
    choose|i: int| 0 <= i < routes.len() && key_of(#[trigger] routes[i]) == key
}

/// The routes of a list as a map from method and path to service.
spec fn table<S>(routes: Seq<Route<S>>) -> Map<(Seq<char>, Seq<char>), S> {
    Map::new(
        |key: (Seq<char>, Seq<char>)| holds(routes, key),
        |key: (Seq<char>, Seq<char>)| routes[place(routes, key)].service,
    )
}

/// The routes of `routes` with `prefix` put in front of each path.
pub open spec fn prefixed<S>(
    routes: Map<(Seq<char>, Seq<char>), S>,
    prefix: Seq<char>,
) -> Map<(Seq<char>, Seq<char>), S> {
    Map::new(
        |key: (Seq<char>, Seq<char>)|
            key.1.len() >= prefix.len() && key.1.subrange(0, prefix.len() as int) == prefix
                && routes.dom().contains((key.0, key.1.skip(prefix.len() as int))),
        |key: (Seq<char>, Seq<char>)| routes[(key.0, key.1.skip(prefix.len() as int))],
    )
}

/// A router: at most one service for each method and path.
pub struct Router<S> {
    routes: Vec<Route<S>>,
}

impl<S> View for Router<S> {
    type V = Map<(Seq<char>, Seq<char>), S>;

    closed spec fn view(&self) -> Map<(Seq<char>, Seq<char>), S> {
        table(self.routes@)
    }
}

impl<S: Clone> Clone for Router<S> {
    /// A router with a clone of each service under the same method and path.
    fn clone(&self) -> (cloned: Self)
        ensures
            cloned@.dom() == self@.dom(),
    {
        proof {
            use_type_invariant(self);
        }
        let mut routes: Vec<Route<S>> = Vec::new();
        let mut i: usize = 0;
        while i < self.routes.len()
            invariant
                i <= self.routes@.len(),
                routes@.len() == i,
                forall|j: int|
                    0 <= j < i ==> key_of(#[trigger] routes@[j]) == key_of(self.routes@[j]),
            decreases self.routes@.len() - i,
        {
            let route = &self.routes[i];
            routes.push(
                Route {
                    method: route.method.clone(),
                    path: route.path.clone(),
                    service: route.service.clone(),
                },
            );
            i = i + 1;
        }
        proof {
            assert forall|key: (Seq<char>, Seq<char>)| holds(routes@, key) == holds(
                self.routes@,
                key,
            ) by {
                if holds(routes@, key) {
                    let j = place(routes@, key);
                    assert(key_of(self.routes@[j]) == key);
                }
                if holds(self.routes@, key) {
                    let j = place(self.routes@, key);
                    assert(key_of(routes@[j]) == key);
                }
            }
            assert(table(routes@).dom() =~= table(self.routes@).dom());
        }
        Router { routes }
    }
}

/// Putting a route at the end of a list that has none under its key adds it to
/// the table.
proof fn lemma_table_push<S>(routes: Seq<Route<S>>, route: Route<S>)
    requires
        distinct(routes),
        !holds(routes, key_of(route)),
    ensures
        distinct(routes.push(route)),
        table(routes.push(route)) == table(routes).insert(key_of(route), route.service),
{
    let after = routes.push(route);
    assert forall|i: int, j: int| 0 <= i < j < after.len() implies key_of(#[trigger] after[i])
        != key_of(#[trigger] after[j]) by {
        if j == routes.len() {
            assert(after[i] == routes[i]);
        } else {
            assert(after[i] == routes[i] && after[j] == routes[j]);
        }
    }
    let want = table(routes).insert(key_of(route), route.service);
    assert forall|key: (Seq<char>, Seq<char>)| #[trigger] table(after).dom().contains(key)
        <==> want.dom().contains(key) by {
        if holds(after, key) {
            let i = place(after, key);
            if i < routes.len() {
                assert(after[i] == routes[i]);
            }
        }
        if holds(routes, key) {
            let i = place(routes, key);
            assert(after[i] == routes[i]);
        }
        if key == key_of(route) {
            assert(after[routes.len() as int] == route);
        }
    }
    assert forall|key: (Seq<char>, Seq<char>)| #[trigger] table(after).dom().contains(key)
        implies table(after)[key] == want[key] by {
        let i = place(after, key);
        if i < routes.len() {
            assert(after[i] == routes[i]);
            let j = place(routes, key);
            assert(after[j] == routes[j]);
            assert(i == j);
        }
    }
    assert(table(after) =~= want);
}

/// Putting a route in the place of the one with the same key changes the
/// service under that key and nothing else.
proof fn lemma_table_update<S>(routes: Seq<Route<S>>, at: int, route: Route<S>)
    requires
        distinct(routes),
        0 <= at < routes.len(),
        key_of(routes[at]) == key_of(route),
    ensures
        distinct(routes.update(at, route)),
        table(routes.update(at, route)) == table(routes).insert(key_of(route), route.service),
{
    let after = routes.update(at, route);
    assert forall|i: int, j: int| 0 <= i < j < after.len() implies key_of(#[trigger] after[i])
        != key_of(#[trigger] after[j]) by {
        assert(key_of(after[i]) == key_of(routes[i]));
        assert(key_of(after[j]) == key_of(routes[j]));
    }
    let want = table(routes).insert(key_of(route), route.service);
    assert forall|key: (Seq<char>, Seq<char>)| #[trigger] table(after).dom().contains(key)
        <==> want.dom().contains(key) by {
        if holds(after, key) {
            let i = place(after, key);
            assert(key_of(after[i]) == key_of(routes[i]));
        }
        if holds(routes, key) {
            let i = place(routes, key);
            assert(key_of(after[i]) == key_of(routes[i]));
        }
        if key == key_of(route) {
            assert(key_of(after[at]) == key);
        }
    }
    assert forall|key: (Seq<char>, Seq<char>)| #[trigger] table(after).dom().contains(key)
        implies table(after)[key] == want[key] by {
        let i = place(after, key);
        assert(key_of(after[i]) == key_of(routes[i]));
        if key == key_of(route) {
            assert(key_of(after[at]) == key);
            assert(i == at);
        } else {
            let j = place(routes, key);
            assert(key_of(after[j]) == key_of(routes[j]));
            assert(i == j);
        }
    }
    assert(table(after) =~= want);
}

/// Putting a route in front of a list that has none under its key adds it to
/// the table.
proof fn lemma_table_push_front<S>(routes: Seq<Route<S>>, route: Route<S>)
    requires
        distinct(routes),
        !holds(routes, key_of(route)),
    ensures
        distinct(seq![route] + routes),
        table(seq![route] + routes) == table(routes).insert(key_of(route), route.service),
{
    let after = seq![route] + routes;
    assert forall|i: int, j: int| 0 <= i < j < after.len() implies key_of(#[trigger] after[i])
        != key_of(#[trigger] after[j]) by {
        assert(after[j] == routes[j - 1]);
        if i > 0 {
            assert(after[i] == routes[i - 1]);
        }
    }
    let want = table(routes).insert(key_of(route), route.service);
    assert forall|key: (Seq<char>, Seq<char>)| #[trigger] table(after).dom().contains(key)
        <==> want.dom().contains(key) by {
        if holds(after, key) {
            let i = place(after, key);
            if i > 0 {
                assert(after[i] == routes[i - 1]);
            }
        }
        if holds(routes, key) {
            let i = place(routes, key);
            assert(after[i + 1] == routes[i]);
        }
        if key == key_of(route) {
            assert(after[0] == route);
        }
    }
    assert forall|key: (Seq<char>, Seq<char>)| #[trigger] table(after).dom().contains(key)
        implies table(after)[key] == want[key] by {
        let i = place(after, key);
        if i > 0 {
            assert(after[i] == routes[i - 1]);
            let j = place(routes, key);
            assert(after[j + 1] == routes[j]);
            assert(i == j + 1);
        }
    }
    assert(table(after) =~= want);
}

/// Adding a route to a map adds it, under the longer path, to the map with
/// `prefix` in front of each path.
proof fn lemma_prefixed_insert<S>(
    routes: Map<(Seq<char>, Seq<char>), S>,
    prefix: Seq<char>,
    method: Seq<char>,
    path: Seq<char>,
    service: S,
)
    ensures
        prefixed(routes.insert((method, path), service), prefix) == prefixed(routes, prefix).insert(
            (method, prefix + path),
            service,
        ),
{
    let left = prefixed(routes.insert((method, path), service), prefix);
    let right = prefixed(routes, prefix).insert((method, prefix + path), service);
    let full = prefix + path;
    assert(full.subrange(0, prefix.len() as int) =~= prefix);
    assert(full.skip(prefix.len() as int) =~= path);
    assert forall|key: (Seq<char>, Seq<char>)| #[trigger] left.dom().contains(key)
        <==> right.dom().contains(key) by {
        if key.1.len() >= prefix.len() && key.1.subrange(0, prefix.len() as int) == prefix {
            let rest = key.1.skip(prefix.len() as int);
            assert(key.1 =~= prefix + rest);
        }
    }
    assert forall|key: (Seq<char>, Seq<char>)| #[trigger] left.dom().contains(key) implies left[key]
        == right[key] by {
        let rest = key.1.skip(prefix.len() as int);
        assert(key.1 =~= prefix + rest);
    }
    assert(left =~= right);
}

impl<S> Router<S> {
    #[verifier::type_invariant]
    spec fn no_route_twice(self) -> bool {
        distinct(self.routes@)
    }

    /// A router without routes.
    pub fn new() -> (router: Self)
        ensures
            router@ == Map::<(Seq<char>, Seq<char>), S>::empty(),
    {
        let router = Router { routes: Vec::new() };
        assert(table(router.routes@) =~= Map::<(Seq<char>, Seq<char>), S>::empty());
        router
    }

    /// The place of the route under the given method and path, if there is
    /// one.
    fn find(&self, method: &String, path: &String) -> (found: Option<usize>)
        ensures
            found matches Some(i) ==> i < self.routes@.len() && key_of(self.routes@[i as int]) == (
                method@,
                path@,
            ),
            found is None ==> !holds(self.routes@, (method@, path@)),
    {
        let mut i: usize = 0;
        while i < self.routes.len()
            invariant
                i <= self.routes@.len(),
                forall|j: int|
                    0 <= j < i ==> key_of(#[trigger] self.routes@[j]) != (method@, path@),
            decreases self.routes@.len() - i,
        {
            if self.routes[i].method == *method && self.routes[i].path == *path {
                return Some(i);
            }
            i = i + 1;
        }
        None
    }

    /// Puts `service` under the given method and the normal form of `path`,
    /// in the place of what stood there.
    fn insert(self, method: String, path: String, service: S) -> (router: Self)
        ensures
            router@ == self@.insert((method@, path@), service),
    {
        proof {
            use_type_invariant(&self);
        }
        let found = self.find(&method, &path);
        let mut routes = self.routes;
        let route = Route { method, path, service };
        match found {
            Some(i) => {
                proof {
                    lemma_table_update(routes@, i as int, route);
                }
                routes.set(i, route);
            },
            None => {
                proof {
                    lemma_table_push(routes@, route);
                }
                routes.push(route);
            },
        }
        Router { routes }
    }

    /// The router with `service` under `method` and the normal form of `path`.
    /// What stood there before is replaced; every other route stays.
    pub fn at(self, path: &str, method: String, service: S) -> (router: Self)
        ensures
            router@ == self@.insert((method@, normalized(path@)), service),
    {
        let path = normalize_path(path);
        self.insert(method, path, service)
    }

    /// The router with `service` under `GET` and the normal form of `path`.
    pub fn get(self, path: &str, service: S) -> (router: Self)
        ensures
            router@ == self@.insert(("GET"@, normalized(path@)), service),
    {
        self.at(path, String::from_str("GET"), service)
    }

    /// The router with `service` under `POST` and the normal form of `path`.
    pub fn post(self, path: &str, service: S) -> (router: Self)
        ensures
            router@ == self@.insert(("POST"@, normalized(path@)), service),
    {
        self.at(path, String::from_str("POST"), service)
    }

    /// The router with the routes of `sub_router` added, each under the
    /// normal form of `prefix` followed by its own path. Where a route of this
    /// router has the same method and path as one that is added, the added one
    /// takes its place.
    pub fn nest(self, prefix: &str, sub_router: Router<S>) -> (router: Self)
        ensures
            router@ == self@.union_prefer_right(prefixed(sub_router@, normalized(prefix@))),
    {
        proof {
            use_type_invariant(&sub_router);
        }
        let prefix = normalize_path(prefix);
        let ghost base = self@;
        let ghost all = sub_router.routes@;
        let mut routes = sub_router.routes;
        let mut router = self;
        proof {
            assert(all.subrange(all.len() as int, all.len() as int) =~= Seq::<Route<S>>::empty());
            assert(table(Seq::<Route<S>>::empty()) =~= Map::<(Seq<char>, Seq<char>), S>::empty());
            assert(prefixed(Map::<(Seq<char>, Seq<char>), S>::empty(), prefix@)
                =~= Map::<(Seq<char>, Seq<char>), S>::empty());
            assert(base.union_prefer_right(Map::<(Seq<char>, Seq<char>), S>::empty()) =~= base);
            assert(all.subrange(0, all.len() as int) =~= all);
        }
        while routes.len() > 0
            invariant
                distinct(all),
                routes@.len() <= all.len(),
                routes@ == all.subrange(0, routes@.len() as int),
                distinct(all.subrange(routes@.len() as int, all.len() as int)),
                router@ == base.union_prefer_right(
                    prefixed(table(all.subrange(routes@.len() as int, all.len() as int)), prefix@),
                ),
            decreases routes@.len(),
        {
            let ghost n = routes@.len() as int;
            let ghost done = all.subrange(n, all.len() as int);
            let ghost more = all.subrange(n - 1, all.len() as int);
            let route = routes.pop().unwrap();
            proof {
                assert(route == all[n - 1]);
                assert(routes@ =~= all.subrange(0, n - 1));
                assert forall|i: int, j: int| 0 <= i < j < more.len() implies key_of(
                    #[trigger] more[i],
                ) != key_of(#[trigger] more[j]) by {
                    assert(more[i] == all[n - 1 + i] && more[j] == all[n - 1 + j]);
                }
                if holds(done, key_of(route)) {
                    let i = place(done, key_of(route));
                    assert(done[i] == all[n + i]);
                }
                lemma_table_push_front(done, route);
                assert(seq![route] + done =~= more);
                lemma_prefixed_insert(
                    table(done),
                    prefix@,
                    route.method@,
                    route.path@,
                    route.service,
                );
                assert(base.union_prefer_right(
                    prefixed(table(done), prefix@).insert(
                        (route.method@, prefix@ + route.path@),
                        route.service,
                    ),
                ) =~= base.union_prefer_right(prefixed(table(done), prefix@)).insert(
                    (route.method@, prefix@ + route.path@),
                    route.service,
                ));
            }
            let full = prefix.clone().concat(route.path.as_str());
            router = router.insert(route.method, full, route.service);
        }
        proof {
            assert(all.subrange(0, all.len() as int) =~= all);
        }
        router
    }

    /// The service under `method` and the normal form of `path`, if there is
    /// one.
    pub fn route(&self, method: &str, path: &str) -> (service: Option<&S>)
        ensures
            service.is_some() == self@.dom().contains((method@, normalized(path@))),
            service matches Some(found) ==> *found == self@[(method@, normalized(path@))],
    {
        proof {
            use_type_invariant(self);
        }
        let method = String::from_str(method);
        let path = normalize_path(path);
        match self.find(&method, &path) {
            Some(i) => {
                proof {
                    let key = (method@, path@);
                    let j = place(self.routes@, key);
                    assert(key_of(self.routes@[i as int]) == key);
                    assert(j == i);
                }
                Some(&self.routes[i].service)
            },
            None => None,
        }
    }
}

/// The response to a request that no route matches: status 404, no headers,
/// and a short text.
pub fn not_found() -> (response: Response<Full>)
    ensures
        response.status == NOT_FOUND,
        header_map_contents(response.headers) == no_headers(),
        response.body@ == ascii_bytes(NOT_FOUND_BODY@),
{
    proof {
        reveal_strlit("Not Found");
    }
    let mut response = Response::new(Full::new(text_bytes(NOT_FOUND_BODY)));
    response.status = NOT_FOUND;
    response
}

/// The method and path under which a request is looked up: its method and the
/// normal form of the path of its URI. A request whose URI cannot be read is
/// looked up nowhere.
pub open spec fn target<B>(req: Request<B>) -> Option<(Seq<char>, Seq<char>)> {
    match uri_path(req.uri@) {
        Some(path) => Some((req.method@, normalized(path))),
        None => None,
    }
}

/// What became of a request at the router: a service took it and `future`
/// will give its outcome, or no route matched.
#[derive(Debug)]
pub enum Routed<F> {
    Found { future: F },
    NotFound { response: Response<Full> },
}

/// The response to a request that no route matches.
pub open spec fn is_not_found(response: Response<Full>) -> bool {
    &&& response.status == NOT_FOUND
    &&& header_map_contents(response.headers) == no_headers()
    &&& response.body@ == ascii_bytes(NOT_FOUND_BODY@)
}

impl<S> Router<S> {
    /// Handles one request. The service under the method of the request and
    /// the normal form of its path is called exactly once through `invoke`,
    /// with the request as it came. Where there is no such service the
    /// request is answered with 404 and `invoke` is not called.
    pub fn call<B, F, C>(&self, req: Request<B>, invoke: C) -> (routed: Routed<F>) where
        C: FnOnce(&S, Request<B>) -> F,

        requires
            forall|key: (Seq<char>, Seq<char>)|
                self@.dom().contains(key) ==> call_requires(invoke, (&self@[key], req)),
        ensures
            match target(req) {
                Some(key) if self@.dom().contains(key) => routed matches Routed::Found { future }
                    && call_ensures(invoke, (&self@[key], req), future),
                _ => routed matches Routed::NotFound { response } && is_not_found(response),
            },
    {
        let found = match parse_uri_path(req.uri.as_str()) {
            Some(path) => self.route(req.method.as_str(), path.as_str()),
            None => None,
        };
        match found {
            Some(service) => Routed::Found { future: invoke(service, req) },
            None => Routed::NotFound { response: not_found() },
        }
    }
}

} // verus!
