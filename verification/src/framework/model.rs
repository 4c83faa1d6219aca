//! The framework as a mathematical state machine: its state, what each
//! call does to it, and what therefore holds of every run.

use vstd::prelude::*;

use crate::capability::CapabilityKind;
use crate::capability::HandlerState;
use crate::capability::HostOutcome;
use crate::capability::LifecyclePhase;
use crate::error::HostError;
use crate::framework::event::EventView;
use crate::framework::event::ResponseView;
use crate::framework::event::STATUS_INTERNAL_SERVER_ERROR;
use crate::framework::event::STATUS_NOT_FOUND;
use crate::framework::route::first_match;
use crate::framework::route::resolve;
use crate::framework::route::Binding;
use crate::framework::route::RouteView;
use crate::framework::server::ServerState;
use crate::framework::server::ServerView;
use crate::search::first;
use crate::search::lemma_first_cases;
use crate::search::lemma_first_is;
use crate::search::lemma_first_none;

verus! {

/// What is to be done with a request.
pub enum DispatchView {
    /// Call the export at this position of the binding table with the
    /// event, and complete the event with what it returns.
    Invoke { export: usize, event: EventView },
    /// Send the event as it is: its response is filled in.
    Respond(EventView),
}

/// The mathematical value of the HTTP framework.
pub struct FrameworkView {
    /// Where the capability stands in its lifecycle.
    pub state: HandlerState,
    /// The servers that exist, in the order of their creation.
    pub servers: Seq<ServerView>,
    /// The identifier that the next server gets.
    pub next_id: u64,
    /// The names of the functions that the component exports, once they
    /// are bound.
    pub exports: Option<Seq<Seq<char>>>,
}

/// A call that changes the framework.
pub enum FrameworkCall {
    /// A lifecycle call with its outcome; for the binding of exports,
    /// with the names that the component exports.
    Lifecycle { phase: LifecyclePhase, outcome: HostOutcome, exports: Seq<Seq<char>> },
    /// The shutdown signal was observed.
    Shutdown,
    CreateServer { address: Seq<char>, allowed: Option<Seq<Seq<char>>> },
    RegisterRoute { id: u64, method: Seq<char>, pattern: Seq<char>, handler: Seq<char> },
    StartServer { id: u64, listener: HostOutcome },
    StopServer { id: u64 },
    DestroyServer { id: u64 },
}

impl FrameworkCall {
    /// Whether the call is one of the host functions that the component
    /// calls, rather than a lifecycle call or the shutdown signal.
    pub open spec fn is_host_function(self) -> bool {
        !(self is Lifecycle || self is Shutdown)
    }
}

impl ServerView {
    /// Whether every route is bound as the binding table says.
    pub open spec fn bound_by(self, exports: Option<Seq<Seq<char>>>) -> bool {
        forall|k: int|
            0 <= k < self.routes.len() ==> (#[trigger] self.routes[k]).binding == resolve(
                exports,
                self.routes[k].handler,
            )
    }
}

impl FrameworkView {
    /// The framework as it is built: nothing registered, no server.
    pub open spec fn new() -> FrameworkView {
        FrameworkView {
            state: HandlerState::Constructed,
            servers: Seq::empty(),
            next_id: 1,
            exports: None,
        }
    }

    /// What holds of one server of a valid framework.
    pub open spec fn server_ok(self, server: ServerView) -> bool {
        &&& 1 <= server.id < self.next_id
        &&& !(server.state is Destroyed)
        &&& server.state is Running ==> self.state is Started
        &&& server.bound_by(self.exports)
    }

    /// What holds of every framework that the calls below can reach.
    pub open spec fn wf(self) -> bool {
        &&& self.next_id >= 1
        &&& forall|i: int|
            0 <= i < self.servers.len() ==> self.server_ok(#[trigger] self.servers[i])
        &&& forall|i: int, j: int|
            0 <= i < j < self.servers.len() ==> (#[trigger] self.servers[i]).id < (
            #[trigger] self.servers[j]).id
        &&& self.state is Constructed ==> self.servers.len() == 0
        &&& self.state is Constructed || self.state is Linked ==> self.exports is None
        &&& self.state is Bound || self.state is Started ==> self.exports is Some
    }

    /// The position of the server with the given identifier.
    pub open spec fn index_of(self, id: u64) -> Option<int> {
        first(|i: int| self.servers[i].id == id, self.servers.len() as int)
    }

    /// The server with the given identifier.
    pub open spec fn server(self, id: u64) -> Option<ServerView> {
        match self.index_of(id) {
            Some(i) => Some(self.servers[i]),
            None => None,
        }
    }

    /// The state of the server with the given identifier: that of the
    /// server if it exists, `Destroyed` if it once did, nothing if the
    /// identifier was never given out.
    pub open spec fn state_of(self, id: u64) -> Option<ServerState> {
        match self.index_of(id) {
            Some(i) => Some(self.servers[i].state),
            None => if 1 <= id < self.next_id {
                Some(ServerState::Destroyed)
            } else {
                None
            },
        }
    }

    /// Whether the server with the given identifier has stopped or was
    /// destroyed.
    pub open spec fn is_closed(self, id: u64) -> bool {
        self.state_of(id) matches Some(state) && state.is_closed()
    }

    /// Whether an address may be bound under a list of allowed addresses.
    /// No list allows every address.
    pub open spec fn permits(allowed: Option<Seq<Seq<char>>>, address: Seq<char>) -> bool {
        match allowed {
            None => true,
            Some(list) => list.contains(address),
        }
    }

    /// The framework with one server replaced.
    pub open spec fn with_server(self, i: int, server: ServerView) -> FrameworkView {
        FrameworkView { servers: self.servers.update(i, server), ..self }
    }

    /// The outcome of creating a server.
    pub open spec fn create_server_result(
        self,
        address: Seq<char>,
        allowed: Option<Seq<Seq<char>>>,
    ) -> Result<u64, HostError> {
        if !self.state.reachable() {
            Err(HostError::ResourceUnavailable)
        } else if !Self::permits(allowed, address) {
            Err(HostError::PermissionDenied { capability: CapabilityKind::HttpFramework })
        } else if self.next_id == u64::MAX {
            Err(HostError::ResourceUnavailable)
        } else {
            Ok(self.next_id)
        }
    }

    /// The framework after an attempt to create a server.
    pub open spec fn create_server(
        self,
        address: Seq<char>,
        allowed: Option<Seq<Seq<char>>>,
    ) -> FrameworkView {
        if self.create_server_result(address, allowed) is Ok {
            FrameworkView {
                servers: self.servers.push(ServerView::created(self.next_id, address)),
                next_id: (self.next_id + 1) as u64,
                ..self
            }
        } else {
            self
        }
    }

    /// The outcome of registering a route.
    pub open spec fn register_route_result(self, id: u64) -> Result<(), HostError> {
        if !self.state.reachable() {
            Err(HostError::ResourceUnavailable)
        } else {
            match self.index_of(id) {
                Some(i) if self.servers[i].can_register() => Ok(()),
                _ => Err(HostError::ResourceUnavailable),
            }
        }
    }

    /// The framework after an attempt to register a route. The route is
    /// bound at once where the binding table has its handler.
    pub open spec fn register_route(
        self,
        id: u64,
        method: Seq<char>,
        pattern: Seq<char>,
        handler: Seq<char>,
    ) -> FrameworkView {
        if self.register_route_result(id) is Ok {
            let i = self.index_of(id)->0;
            let route = RouteView {
                method,
                pattern,
                handler,
                binding: resolve(self.exports, handler),
            };
            self.with_server(i, self.servers[i].register_route(route))
        } else {
            self
        }
    }

    /// The outcome of starting a server.
    pub open spec fn start_server_result(self, id: u64, listener: HostOutcome) -> Result<
        (),
        HostError,
    > {
        if !(self.state is Started) {
            Err(HostError::ResourceUnavailable)
        } else {
            match self.index_of(id) {
                Some(i) if self.servers[i].can_start(listener) => Ok(()),
                _ => Err(HostError::ResourceUnavailable),
            }
        }
    }

    /// The address to bind before a server is started: that of the
    /// server, where the server could start if its listener were bound.
    pub open spec fn address_to_bind(self, id: u64) -> Result<Seq<char>, HostError> {
        if self.start_server_result(id, HostOutcome::Completed) is Ok {
            Ok(self.servers[self.index_of(id)->0].address)
        } else {
            Err(HostError::ResourceUnavailable)
        }
    }

    /// The framework after an attempt to start a server.
    pub open spec fn start_server(self, id: u64, listener: HostOutcome) -> FrameworkView {
        if self.start_server_result(id, listener) is Ok {
            let i = self.index_of(id)->0;
            self.with_server(i, self.servers[i].start(listener))
        } else {
            self
        }
    }

    /// The outcome of stopping a server.
    pub open spec fn stop_server_result(self, id: u64) -> Result<(), HostError> {
        match self.index_of(id) {
            Some(i) if self.servers[i].can_stop() => Ok(()),
            _ => Err(HostError::ResourceUnavailable),
        }
    }

    /// The framework after an attempt to stop a server.
    pub open spec fn stop_server(self, id: u64) -> FrameworkView {
        if self.stop_server_result(id) is Ok {
            let i = self.index_of(id)->0;
            self.with_server(i, self.servers[i].stop())
        } else {
            self
        }
    }

    /// The outcome of destroying a server.
    pub open spec fn destroy_server_result(self, id: u64) -> Result<(), HostError> {
        match self.index_of(id) {
            Some(_) => Ok(()),
            None => Err(HostError::ResourceUnavailable),
        }
    }

    /// The framework after an attempt to destroy a server.
    pub open spec fn destroy_server(self, id: u64) -> FrameworkView {
        match self.index_of(id) {
            Some(i) => FrameworkView { servers: self.servers.remove(i), ..self },
            None => self,
        }
    }

    /// The framework after a lifecycle call. Binding the exports, where
    /// it completes in turn, sets the binding table and binds every
    /// route that is registered.
    pub open spec fn lifecycle(
        self,
        phase: LifecyclePhase,
        outcome: HostOutcome,
        exports: Seq<Seq<char>>,
    ) -> FrameworkView {
        let state = self.state.after(phase, outcome);
        if phase is BindExports && self.state.admits(phase) && outcome is Completed {
            FrameworkView {
                state,
                servers: self.servers.map_values(|s: ServerView| s.rebind(Some(exports))),
                exports: Some(exports),
                ..self
            }
        } else {
            FrameworkView { state, ..self }
        }
    }

    /// The framework after the shutdown signal: stopped for good, every
    /// running server stopped with it.
    pub open spec fn shutdown(self) -> FrameworkView {
        FrameworkView {
            state: HandlerState::Stopped,
            servers: self.servers.map_values(|s: ServerView| s.stop()),
            ..self
        }
    }

    /// Whether a call succeeds.
    pub open spec fn accepts(self, call: FrameworkCall) -> bool {
        match call {
            FrameworkCall::Lifecycle { phase, outcome, exports } => self.state.admits(phase)
                && outcome is Completed,
            FrameworkCall::Shutdown => true,
            FrameworkCall::CreateServer { address, allowed } => self.create_server_result(
                address,
                allowed,
            ) is Ok,
            FrameworkCall::RegisterRoute { id, method, pattern, handler } =>
                self.register_route_result(id) is Ok,
            FrameworkCall::StartServer { id, listener } => self.start_server_result(id, listener)
                is Ok,
            FrameworkCall::StopServer { id } => self.stop_server_result(id) is Ok,
            FrameworkCall::DestroyServer { id } => self.destroy_server_result(id) is Ok,
        }
    }

    /// The framework after a call.
    pub open spec fn apply(self, call: FrameworkCall) -> FrameworkView {
        match call {
            FrameworkCall::Lifecycle { phase, outcome, exports } => self.lifecycle(
                phase,
                outcome,
                exports,
            ),
            FrameworkCall::Shutdown => self.shutdown(),
            FrameworkCall::CreateServer { address, allowed } => self.create_server(
                address,
                allowed,
            ),
            FrameworkCall::RegisterRoute { id, method, pattern, handler } => self.register_route(
                id,
                method,
                pattern,
                handler,
            ),
            FrameworkCall::StartServer { id, listener } => self.start_server(id, listener),
            FrameworkCall::StopServer { id } => self.stop_server(id),
            FrameworkCall::DestroyServer { id } => self.destroy_server(id),
        }
    }

    /// What is done with a request that arrives at a server. A server
    /// that is not running routes nothing. A request that no route takes
    /// is answered with a 404, one whose route was never bound with a
    /// 500, in both cases without a call into the component. Any other
    /// request goes to the export of the first route that takes it.
    pub open spec fn dispatch(self, id: u64, event: EventView) -> Result<DispatchView, HostError> {
        match self.index_of(id) {
            None => Err(HostError::ResourceUnavailable),
            Some(i) => match self.servers[i].route_for(event.method, event.path) {
                Err(HostError::RouteNotFound) => Ok(
                    DispatchView::Respond(
                        event.with_response(ResponseView::bare(STATUS_NOT_FOUND)),
                    ),
                ),
                Err(_) => Err(HostError::ResourceUnavailable),
                Ok(k) => match self.servers[i].routes[k].binding {
                    Binding::Bound(export) => Ok(DispatchView::Invoke { export, event }),
                    Binding::Unbound => Ok(
                        DispatchView::Respond(
                            event.with_response(ResponseView::bare(STATUS_INTERNAL_SERVER_ERROR)),
                        ),
                    ),
                },
            },
        }
    }
}

/// In a valid framework the identifiers tell the servers apart: a server
/// is found at its own position.
pub proof fn lemma_index_of_own(s: FrameworkView, i: int)
    requires
        s.wf(),
        0 <= i < s.servers.len(),
    ensures
        s.index_of(s.servers[i].id) == Some(i),
{
    let id = s.servers[i].id;
    let holds = |k: int| s.servers[k].id == id;
    assert(holds(i));
    assert forall|j: int| 0 <= j < i implies !#[trigger] holds(j) by {
        assert(s.servers[j].id < s.servers[i].id);
    }
    lemma_first_is(holds, s.servers.len() as int, i);
}

/// What `index_of` returns: the position of the server with the
/// identifier, or nothing where no server has it.
pub proof fn lemma_index_of_cases(s: FrameworkView, id: u64)
    ensures
        match s.index_of(id) {
            Some(i) => 0 <= i < s.servers.len() && s.servers[i].id == id,
            None => forall|j: int| 0 <= j < s.servers.len() ==> (#[trigger] s.servers[j]).id != id,
        },
{
    let holds = |k: int| s.servers[k].id == id;
    lemma_first_cases(holds, s.servers.len() as int);
    if s.index_of(id) is None {
        assert forall|j: int| 0 <= j < s.servers.len() implies (#[trigger] s.servers[j]).id
            != id by {
            assert(!holds(j));
        }
    }
}

/// Where two frameworks have servers with the same identifiers in the
/// same order, a server is found at the same position in both.
pub proof fn lemma_index_of_same_ids(a: FrameworkView, b: FrameworkView, id: u64)
    requires
        a.servers.len() == b.servers.len(),
        forall|i: int| 0 <= i < a.servers.len() ==> (#[trigger] a.servers[i]).id == b.servers[i].id,
    ensures
        a.index_of(id) == b.index_of(id),
{
    let in_a = |k: int| a.servers[k].id == id;
    let in_b = |k: int| b.servers[k].id == id;
    let len = a.servers.len() as int;
    lemma_first_cases(in_a, len);
    match a.index_of(id) {
        Some(i) => {
            assert(in_b(i));
            assert forall|j: int| 0 <= j < i implies !#[trigger] in_b(j) by {
                assert(!in_a(j));
                assert(a.servers[j].id == b.servers[j].id);
            }
            lemma_first_is(in_b, len, i);
        },
        None => {
            lemma_first_cases(in_b, len);
            match b.index_of(id) {
                Some(i) => {
                    assert(!in_a(i));
                    assert(a.servers[i].id == b.servers[i].id);
                },
                None => {},
            }
        },
    }
}

/// Every call leaves a valid framework valid.
pub proof fn lemma_apply_preserves_wf(s: FrameworkView, call: FrameworkCall)
    requires
        s.wf(),
    ensures
        s.apply(call).wf(),
{
    let t = s.apply(call);
    match call {
        FrameworkCall::Lifecycle { phase, outcome, exports } => {
            assert forall|i: int| 0 <= i < t.servers.len() implies t.server_ok(
                #[trigger] t.servers[i],
            ) by {
                assert(s.server_ok(s.servers[i]));
            }
            assert forall|i: int, j: int| 0 <= i < j < t.servers.len() implies (
            #[trigger] t.servers[i]).id < (#[trigger] t.servers[j]).id by {
                assert(s.servers[i].id < s.servers[j].id);
            }
        },
        FrameworkCall::Shutdown => {
            assert forall|i: int| 0 <= i < t.servers.len() implies t.server_ok(
                #[trigger] t.servers[i],
            ) by {
                assert(s.server_ok(s.servers[i]));
            }
            assert forall|i: int, j: int| 0 <= i < j < t.servers.len() implies (
            #[trigger] t.servers[i]).id < (#[trigger] t.servers[j]).id by {
                assert(s.servers[i].id < s.servers[j].id);
            }
        },
        FrameworkCall::CreateServer { address, allowed } => {
            if s.create_server_result(address, allowed) is Ok {
                assert forall|i: int| 0 <= i < t.servers.len() implies t.server_ok(
                    #[trigger] t.servers[i],
                ) by {
                    if i < s.servers.len() {
                        assert(s.server_ok(s.servers[i]));
                    }
                }
                assert forall|i: int, j: int| 0 <= i < j < t.servers.len() implies (
                #[trigger] t.servers[i]).id < (#[trigger] t.servers[j]).id by {
                    assert(s.server_ok(s.servers[i]));
                    if j < s.servers.len() {
                        assert(s.servers[i].id < s.servers[j].id);
                    }
                }
            }
        },
        FrameworkCall::RegisterRoute { id, method, pattern, handler } => {
            if s.register_route_result(id) is Ok {
                lemma_index_of_cases(s, id);
                let route = RouteView {
                    method,
                    pattern,
                    handler,
                    binding: resolve(s.exports, handler),
                };
                let at = s.index_of(id)->0;
                lemma_update_preserves_wf(s, at, s.servers[at].register_route(route));
            }
        },
        FrameworkCall::StartServer { id, listener } => {
            if s.start_server_result(id, listener) is Ok {
                lemma_index_of_cases(s, id);
                let at = s.index_of(id)->0;
                lemma_update_preserves_wf(s, at, s.servers[at].start(listener));
            }
        },
        FrameworkCall::StopServer { id } => {
            if s.stop_server_result(id) is Ok {
                lemma_index_of_cases(s, id);
                let at = s.index_of(id)->0;
                lemma_update_preserves_wf(s, at, s.servers[at].stop());
            }
        },
        FrameworkCall::DestroyServer { id } => {
            lemma_index_of_cases(s, id);
            match s.index_of(id) {
                Some(k) => {
                    assert forall|i: int| 0 <= i < t.servers.len() implies t.server_ok(
                        #[trigger] t.servers[i],
                    ) by {
                        if i < k {
                            assert(s.server_ok(s.servers[i]));
                        } else {
                            assert(s.server_ok(s.servers[i + 1]));
                        }
                    }
                    assert forall|i: int, j: int| 0 <= i < j < t.servers.len() implies (
                    #[trigger] t.servers[i]).id < (#[trigger] t.servers[j]).id by {
                        let si = if i < k {
                            i
                        } else {
                            i + 1
                        };
                        let sj = if j < k {
                            j
                        } else {
                            j + 1
                        };
                        assert(s.servers[si].id < s.servers[sj].id);
                    }
                },
                None => {},
            }
        },
    }
}

/// Replacing a server by one with the same identifier that is itself in
/// order leaves a valid framework valid.
pub proof fn lemma_update_preserves_wf(s: FrameworkView, k: int, server: ServerView)
    requires
        s.wf(),
        0 <= k < s.servers.len(),
        server.id == s.servers[k].id,
        s.server_ok(server),
    ensures
        s.with_server(k, server).wf(),
{
    let t = s.with_server(k, server);
    assert forall|i: int| 0 <= i < t.servers.len() implies t.server_ok(#[trigger] t.servers[i]) by {
        if i != k {
            assert(s.server_ok(s.servers[i]));
        }
    }
    assert forall|i: int, j: int| 0 <= i < j < t.servers.len() implies (#[trigger] t.servers[i]).id
        < (#[trigger] t.servers[j]).id by {
        assert(s.servers[i].id < s.servers[j].id);
    }
}

/// A server that has stopped or was destroyed stays so, whatever is
/// called afterwards: no call brings it back.
pub proof fn lemma_closed_server_stays_closed(s: FrameworkView, call: FrameworkCall, id: u64)
    requires
        s.wf(),
        s.is_closed(id),
    ensures
        s.apply(call).is_closed(id),
{
    let t = s.apply(call);
    lemma_apply_preserves_wf(s, call);
    lemma_index_of_cases(s, id);
    lemma_index_of_cases(t, id);
    match call {
        FrameworkCall::CreateServer { address, allowed } => {
            match s.index_of(id) {
                Some(i) => {
                    assert(t.servers[i] == s.servers[i]);
                    lemma_index_of_own(t, i);
                },
                None => {
                    if let Some(j) = t.index_of(id) {
                        if j < s.servers.len() {
                            assert(s.servers[j].id == id);
                        }
                    }
                },
            }
        },
        FrameworkCall::DestroyServer { id: gone } => {
            lemma_index_of_cases(s, gone);
            match s.index_of(gone) {
                Some(k) => {
                    lemma_index_of_own(s, k);
                    if let Some(j) = t.index_of(id) {
                        let sj = if j < k {
                            j
                        } else {
                            j + 1
                        };
                        assert(t.servers[j] == s.servers[sj]);
                        lemma_index_of_own(s, sj);
                    }
                    match s.index_of(id) {
                        Some(i) => {
                            assert(s.server_ok(s.servers[i]));
                            if i != k {
                                let ti = if i < k {
                                    i
                                } else {
                                    i - 1
                                };
                                assert(t.servers[ti] == s.servers[i]);
                                lemma_index_of_own(t, ti);
                            }
                        },
                        None => {},
                    }
                },
                None => {},
            }
        },
        _ => {
            assert(t.servers.len() == s.servers.len());
            assert forall|i: int| 0 <= i < s.servers.len() implies (#[trigger] s.servers[i]).id
                == t.servers[i].id by {}
            lemma_index_of_same_ids(s, t, id);
        },
    }
}

/// A request is routed only at a running server: at one that has
/// stopped or was destroyed, or that never existed, a request is refused
/// and nothing is called.
pub proof fn lemma_only_running_servers_route(s: FrameworkView, id: u64, event: EventView)
    ensures
        s.dispatch(id, event) is Ok ==> s.state_of(id) == Some(ServerState::Running),
        s.is_closed(id) ==> s.dispatch(id, event) == Err::<DispatchView, HostError>(
            HostError::ResourceUnavailable,
        ),
{
}

/// An identifier is given out once: the identifier of a new server
/// belonged to no server before, not even to a destroyed one.
pub proof fn lemma_identifier_is_fresh(
    s: FrameworkView,
    address: Seq<char>,
    allowed: Option<Seq<Seq<char>>>,
)
    requires
        s.wf(),
    ensures
        s.create_server_result(address, allowed) matches Ok(id) ==> {
            &&& s.state_of(id) is None
            &&& s.create_server(address, allowed).state_of(id) == Some(ServerState::Created)
        },
{
    if let Ok(id) = s.create_server_result(address, allowed) {
        let t = s.create_server(address, allowed);
        lemma_index_of_cases(s, id);
        if let Some(i) = s.index_of(id) {
            assert(s.server_ok(s.servers[i]));
        }
        lemma_apply_preserves_wf(s, FrameworkCall::CreateServer { address, allowed });
        lemma_index_of_own(t, s.servers.len() as int);
    }
}

/// Without setup the framework's host functions are out of reach: each
/// of them fails and changes nothing, and no request is routed. A host
/// function that creates a server or registers a route succeeds only
/// where the host functions are reachable; one that starts a server,
/// only where the framework itself has started.
pub proof fn lemma_host_functions_need_setup(
    s: FrameworkView,
    call: FrameworkCall,
    id: u64,
    event: EventView,
)
    requires
        s.wf(),
        call.is_host_function(),
    ensures
        s.state is Constructed ==> !s.accepts(call) && s.apply(call) == s && s.dispatch(id, event)
            is Err,
        !s.accepts(call) ==> s.apply(call) == s,
        s.accepts(call) && (call is CreateServer || call is RegisterRoute)
            ==> s.state.reachable_spec(),
        s.accepts(call) && call is StartServer ==> s.state is Started,
{
    if s.state is Constructed {
        lemma_first_none(|i: int| s.servers[i].id == id, 0);
        match call {
            FrameworkCall::StopServer { id } => {
                lemma_first_none(|i: int| s.servers[i].id == id, 0);
            },
            FrameworkCall::DestroyServer { id } => {
                lemma_first_none(|i: int| s.servers[i].id == id, 0);
            },
            _ => {},
        }
    }
}

/// A request goes through dispatch as it arrived. Where the component
/// is to be called, the event is the one that came in, and the export is
/// that of the first route, in the order of registration, that accepts
/// the request. Where the framework answers itself, the request part of
/// the event is unchanged and the response is a bare 404 or 500.
pub proof fn lemma_dispatch_keeps_request(s: FrameworkView, id: u64, event: EventView)
    ensures
        match s.dispatch(id, event) {
            Ok(DispatchView::Invoke { export, event: handed }) => {
                &&& handed == event
                &&& s.server(id) matches Some(server)
                &&& first_match(server.routes, event.method, event.path) matches Some(k)
                &&& server.routes[k].binding == Binding::Bound(export)
            },
            Ok(DispatchView::Respond(answered)) => {
                &&& answered.method == event.method
                &&& answered.path == event.path
                &&& answered.headers == event.headers
                &&& answered.body == event.body
                &&& answered.response == Some(ResponseView::bare(STATUS_NOT_FOUND))
                    || answered.response == Some(ResponseView::bare(STATUS_INTERNAL_SERVER_ERROR))
            },
            Err(e) => e == HostError::ResourceUnavailable,
        },
{
}

} // verus!
