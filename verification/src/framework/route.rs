//! Routes and the route table of a server.

use vstd::prelude::*;

use crate::error::HostError;
use crate::framework::pattern::path_matches;
use crate::framework::pattern::segments_accept;
use crate::framework::pattern::segments_match;
use crate::framework::pattern::segments_view;
use crate::framework::pattern::split_path;
use crate::framework::pattern::split_segments;
use crate::search::first;
use crate::search::lemma_first_cases;
use crate::search::lemma_first_is;
use crate::search::lemma_first_none;

verus! {

/// Whether a route's handler name has been resolved to a function that
/// the component exports.
#[derive(Clone, Copy, Debug, PartialEq, Eq, Structural)]
pub enum Binding {
    /// Only the name is known. A request that reaches such a route fails.
    Unbound,
    /// The position of the export in the binding table.
    Bound(usize),
}

/// Names held as strings, as mathematical values.
pub open spec fn names_view(names: Seq<String>) -> Seq<Seq<char>> {
    names.map_values(|s: String| s@)
}

/// The binding table, if there is one yet, as a mathematical value.
pub open spec fn table_view(exports: Option<Vec<String>>) -> Option<Seq<Seq<char>>> {
    match exports {
        Some(names) => Some(names_view(names@)),
        None => None,
    }
}

/// The first position of a name in the binding table.
pub open spec fn export_index(exports: Seq<Seq<char>>, handler: Seq<char>) -> Option<int> {
    first(|i: int| exports[i] == handler, exports.len() as int)
}

/// The binding of a handler name under a binding table: bound to the
/// first export of that name; unbound where there is no table yet or the
/// table has no such name.
pub open spec fn resolve(exports: Option<Seq<Seq<char>>>, handler: Seq<char>) -> Binding {
    match exports {
        None => Binding::Unbound,
        Some(table) => match export_index(table, handler) {
            Some(i) => Binding::Bound(i as usize),
            None => Binding::Unbound,
        },
    }
}

/// Resolves a handler name against the binding table.
pub fn resolve_export(exports: &Option<Vec<String>>, handler: &String) -> (binding: Binding)
    ensures
        binding == resolve(table_view(*exports), handler@),
{
    match exports {
        None => Binding::Unbound,
        Some(names) => {
            let ghost table = names_view(names@);
            let ghost holds = |i: int| table[i] == handler@;
            let mut i: usize = 0;
            while i < names.len()
                invariant
                    i <= names.len(),
                    *exports == Some(*names),
                    table == names_view(names@),
                    holds == (|i: int| table[i] == handler@),
                    forall|j: int| 0 <= j < i ==> !#[trigger] holds(j),
                decreases names.len() - i,
            {
                if names[i] == *handler {
                    proof {
                        assert(holds(i as int));
                        lemma_first_is(holds, table.len() as int, i as int);
                    }
                    return Binding::Bound(i);
                }
                assert(!holds(i as int));
                i = i + 1;
            }
            proof {
                lemma_first_none(holds, table.len() as int);
            }
            Binding::Unbound
        },
    }
}

/// The mathematical value of a [`Route`].
pub struct RouteView {
    pub method: Seq<char>,
    pub pattern: Seq<char>,
    pub handler: Seq<char>,
    pub binding: Binding,
}

impl RouteView {
    /// Whether the route takes a request: the method is the route's own,
    /// letter for letter, and the pattern accepts the path.
    pub open spec fn accepts(self, method: Seq<char>, path: Seq<char>) -> bool {
        self.method == method && path_matches(self.pattern, path)
    }

    /// The route with its handler resolved against a binding table.
    pub open spec fn rebound(self, exports: Option<Seq<Seq<char>>>) -> RouteView {
        RouteView { binding: resolve(exports, self.handler), ..self }
    }
}

/// One entry of a route table: a method and a path pattern, and the
/// component's handler for the requests that they accept.
#[derive(Debug)]
pub struct Route {
    method: String,
    pattern: String,
    segments: Vec<Vec<char>>,
    handler: String,
    binding: Binding,
}

impl View for Route {
    type V = RouteView;

    closed spec fn view(&self) -> RouteView {
        RouteView {
            method: self.method@,
            pattern: self.pattern@,
            handler: self.handler@,
            binding: self.binding,
        }
    }
}

impl Route {
    #[verifier::type_invariant]
    spec fn segments_are_of_pattern(self) -> bool {
        segments_view(self.segments@) == split_path(self.pattern@)
    }

    pub fn new(method: String, pattern: String, handler: String, binding: Binding) -> (route: Route)
        ensures
            route@ == (RouteView {
                method: method@,
                pattern: pattern@,
                handler: handler@,
                binding,
            }),
    {
        let segments = split_segments(pattern.as_str());
        Route { method, pattern, segments, handler, binding }
    }

    pub fn method(&self) -> (r: &String)
        ensures
            r@ == self@.method,
    {
        &self.method
    }

    pub fn pattern(&self) -> (r: &String)
        ensures
            r@ == self@.pattern,
    {
        &self.pattern
    }

    /// The name of the component's handler.
    pub fn handler(&self) -> (r: &String)
        ensures
            r@ == self@.handler,
    {
        &self.handler
    }

    pub fn binding(&self) -> (r: Binding)
        ensures
            r == self@.binding,
    {
        self.binding
    }

    /// Whether the route takes a request with the given method and the
    /// given path, the path handed over as its segments.
    pub fn accepts(&self, method: &String, path: &Vec<Vec<char>>) -> (r: bool)
        ensures
            r == (self@.method == method@ && segments_match(
                split_path(self@.pattern),
                segments_view(path@),
            )),
    {
        proof {
            use_type_invariant(self);
        }
        self.method == *method && segments_accept(&self.segments, path)
    }

    /// The export to call for a request that the route takes. A route
    /// that was never bound has none.
    pub fn call_target(&self) -> (r: Result<usize, HostError>)
        ensures
            r == match self@.binding {
                Binding::Bound(export) => Ok::<usize, HostError>(export),
                Binding::Unbound => Err(HostError::HandlerInvocationFailure),
            },
    {
        match self.binding {
            Binding::Bound(export) => Ok(export),
            Binding::Unbound => Err(HostError::HandlerInvocationFailure),
        }
    }

    /// Resolves the route's handler against a binding table.
    pub(crate) fn rebind(&mut self, exports: &Option<Vec<String>>)
        ensures
            final(self)@ == old(self)@.rebound(table_view(*exports)),
    {
        proof {
            use_type_invariant(&*self);
        }
        self.binding = resolve_export(exports, &self.handler);
    }
}

/// Routes held in a vector, as mathematical values.
pub open spec fn route_views(routes: Seq<Route>) -> Seq<RouteView> {
    routes.map_values(|r: Route| r@)
}

/// The route that takes a request: the first, in the order of
/// registration, that accepts its method and path. No ranking by length
/// or by how specific a pattern is.
pub open spec fn first_match(routes: Seq<RouteView>, method: Seq<char>, path: Seq<char>) -> Option<
    int,
> {
    first(|i: int| routes[i].accepts(method, path), routes.len() as int)
}

/// Every route of a table resolved against a binding table.
pub open spec fn rebound_all(routes: Seq<RouteView>, exports: Option<Seq<Seq<char>>>) -> Seq<
    RouteView,
> {
    routes.map_values(|r: RouteView| r.rebound(exports))
}

/// The routes of one server, in the order in which they were registered.
#[derive(Debug)]
pub struct RouteTable {
    routes: Vec<Route>,
}

impl View for RouteTable {
    type V = Seq<RouteView>;

    closed spec fn view(&self) -> Seq<RouteView> {
        route_views(self.routes@)
    }
}

impl RouteTable {
    pub fn new() -> (table: RouteTable)
        ensures
            table@ == Seq::<RouteView>::empty(),
    {
        let table = RouteTable { routes: Vec::new() };
        assert(table@ =~= Seq::<RouteView>::empty());
        table
    }

    pub fn len(&self) -> (n: usize)
        ensures
            n == self@.len(),
    {
        self.routes.len()
    }

    /// The route at a position, if the table is that long.
    pub fn get(&self, i: usize) -> (r: Option<&Route>)
        ensures
            match r {
                Some(route) => i < self@.len() && route@ == self@[i as int],
                None => i >= self@.len(),
            },
    {
        if i < self.routes.len() {
            Some(&self.routes[i])
        } else {
            None
        }
    }

    /// Adds a route behind those already registered.
    pub(crate) fn push(&mut self, route: Route)
        ensures
            final(self)@ == old(self)@.push(route@),
    {
        self.routes.push(route);
        assert(self@ =~= old(self)@.push(route@));
    }

    /// Finds the route that takes a request.
    pub fn find(&self, method: &String, path: &str) -> (r: Result<usize, HostError>)
        ensures
            match r {
                Ok(i) => i < self@.len() && first_match(self@, method@, path@) == Some(i as int),
                Err(e) => e == HostError::RouteNotFound && first_match(self@, method@, path@)
                    is None,
            },
    {
        let segments = split_segments(path);
        let ghost holds = |i: int| self@[i].accepts(method@, path@);
        let mut i: usize = 0;
        while i < self.routes.len()
            invariant
                i <= self.routes.len(),
                segments_view(segments@) == split_path(path@),
                holds == (|i: int| self@[i].accepts(method@, path@)),
                forall|j: int| 0 <= j < i ==> !#[trigger] holds(j),
            decreases self.routes.len() - i,
        {
            if self.routes[i].accepts(method, &segments) {
                proof {
                    assert(holds(i as int));
                    lemma_first_is(holds, self@.len() as int, i as int);
                }
                return Ok(i);
            }
            assert(!holds(i as int));
            i = i + 1;
        }
        proof {
            lemma_first_none(holds, self@.len() as int);
        }
        Err(HostError::RouteNotFound)
    }

    /// Resolves every route's handler against a binding table.
    pub(crate) fn rebind(&mut self, exports: &Option<Vec<String>>)
        ensures
            final(self)@ == rebound_all(old(self)@, table_view(*exports)),
    {
        let mut i: usize = 0;
        while i < self.routes.len()
            invariant
                i <= self.routes.len(),
                self.routes.len() == old(self).routes.len(),
                forall|j: int|
                    0 <= j < i ==> (#[trigger] self.routes[j])@ == old(self).routes[j]@.rebound(
                        table_view(*exports),
                    ),
                forall|j: int|
                    i <= j < self.routes.len() ==> #[trigger] self.routes[j] == old(
                        self,
                    ).routes[j],
            decreases self.routes.len() - i,
        {
            self.routes[i].rebind(exports);
            i = i + 1;
        }
        assert(self@ =~= rebound_all(old(self)@, table_view(*exports)));
    }
}

/// Registration order decides: where two routes both accept a request,
/// the later of them is never the one that takes it, and the earlier
/// takes it unless a route before it accepts the request as well.
pub proof fn lemma_first_match_wins(
    routes: Seq<RouteView>,
    method: Seq<char>,
    path: Seq<char>,
    i: int,
    j: int,
)
    requires
        0 <= i < j < routes.len(),
        routes[i].accepts(method, path),
        routes[j].accepts(method, path),
    ensures
        first_match(routes, method, path) matches Some(k) && k <= i && routes[k].accepts(
            method,
            path,
        ),
        first_match(routes, method, path) != Some(j),
        (forall|k: int| 0 <= k < i ==> !routes[k].accepts(method, path)) ==> first_match(
            routes,
            method,
            path,
        ) == Some(i),
{
    let holds = |k: int| routes[k].accepts(method, path);
    lemma_first_cases(holds, routes.len() as int);
    assert(holds(i));
    match first_match(routes, method, path) {
        Some(k) => {
            if i < k {
                assert(!holds(i));
            }
        },
        None => {},
    }
    if forall|k: int| 0 <= k < i ==> !routes[k].accepts(method, path) {
        assert forall|k: int| 0 <= k < i implies !#[trigger] holds(k) by {}
        lemma_first_is(holds, routes.len() as int, i);
    }
}

} // verus!
