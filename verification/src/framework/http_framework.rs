//! The HTTP framework capability: the servers of one component.

use vstd::prelude::*;
use vstd::string::StringExecFns;

use crate::capability::CapabilityKind;
use crate::capability::HandlerState;
use crate::capability::HostOutcome;
use crate::capability::LifecyclePhase;
use crate::error::HostError;
use crate::framework::event::HttpEventData;
use crate::framework::model::lemma_apply_preserves_wf;
use crate::framework::model::DispatchView;
use crate::framework::model::FrameworkCall;
use crate::framework::model::FrameworkView;
use crate::framework::route::names_view;
use crate::framework::route::resolve_export;
use crate::framework::route::table_view;
use crate::framework::route::Route;
use crate::framework::server::ServerInstance;
use crate::framework::server::ServerState;
use crate::framework::server::ServerView;
use crate::permissions::HttpFrameworkPermissions;
use crate::search::lemma_first_is;
use crate::search::lemma_first_none;

verus! {

/// What is to be done with a request.
#[derive(Debug)]
pub enum Dispatch {
    /// Call the export at this position of the binding table with the
    /// event, and complete the event with what it returns.
    Invoke { export: usize, event: HttpEventData },
    /// Send the event as it is: its response is filled in.
    Respond(HttpEventData),
}

impl View for Dispatch {
    type V = DispatchView;

    open spec fn view(&self) -> DispatchView {
        match self {
            Dispatch::Invoke { export, event } => DispatchView::Invoke {
                export: *export,
                event: event@,
            },
            Dispatch::Respond(event) => DispatchView::Respond(event@),
        }
    }
}

/// The addresses that a configuration allows, as mathematical values. No
/// configuration allows every address.
pub open spec fn allowed_addresses(permissions: Option<HttpFrameworkPermissions>) -> Option<
    Seq<Seq<char>>,
> {
    match permissions {
        Some(p) => Some(names_view(p.allowed_addresses@)),
        None => None,
    }
}

/// Servers held in a vector, as mathematical values.
pub open spec fn server_views(servers: Seq<ServerInstance>) -> Seq<ServerView> {
    servers.map_values(|s: ServerInstance| s@)
}

/// Whether a name is in a list.
fn contains_name(names: &Vec<String>, name: &String) -> (r: bool)
    ensures
        r == names_view(names@).contains(name@),
{
    let mut i: usize = 0;
    while i < names.len()
        invariant
            i <= names.len(),
            forall|j: int| 0 <= j < i ==> names_view(names@)[j] != name@,
        decreases names.len() - i,
    {
        if names[i] == *name {
            assert(names_view(names@)[i as int] == name@);
            return true;
        }
        i = i + 1;
    }
    false
}

/// A copy of a list of names.
fn copy_names(names: &Vec<String>) -> (copy: Vec<String>)
    ensures
        names_view(copy@) == names_view(names@),
{
    let mut copy: Vec<String> = Vec::new();
    let mut i: usize = 0;
    while i < names.len()
        invariant
            i <= names.len(),
            copy.len() == i,
            forall|j: int| 0 <= j < i ==> copy@[j]@ == names@[j]@,
        decreases names.len() - i,
    {
        copy.push(names[i].clone());
        i = i + 1;
    }
    assert(names_view(copy@) =~= names_view(names@));
    copy
}

/// The HTTP framework of one component: its servers, by identifier, and
/// the table that binds handler names to the component's exports.
#[derive(Debug)]
pub struct HttpFramework {
    state: HandlerState,
    servers: Vec<ServerInstance>,
    next_id: u64,
    exports: Option<Vec<String>>,
}

impl View for HttpFramework {
    type V = FrameworkView;

    closed spec fn view(&self) -> FrameworkView {
        FrameworkView {
            state: self.state,
            servers: server_views(self.servers@),
            next_id: self.next_id,
            exports: table_view(self.exports),
        }
    }
}

impl HttpFramework {
    /// What holds of every framework: see [`FrameworkView::wf`].
    pub open spec fn wf(&self) -> bool {
        self@.wf()
    }

    /// A framework with no server, its host functions not yet registered.
    pub fn new() -> (framework: HttpFramework)
        ensures
            framework@ == FrameworkView::new(),
            framework.wf(),
    {
        let framework = HttpFramework {
            state: HandlerState::Constructed,
            servers: Vec::new(),
            next_id: 1,
            exports: None,
        };
        assert(framework@.servers =~= Seq::<ServerView>::empty());
        framework
    }

    /// Where the capability stands in its lifecycle.
    pub fn state(&self) -> (r: HandlerState)
        ensures
            r == self@.state,
    {
        self.state
    }

    /// The position of the server with the given identifier.
    fn find(&self, id: u64) -> (r: Option<usize>)
        ensures
            match r {
                Some(i) => self@.index_of(id) == Some(i as int) && i < self.servers.len(),
                None => self@.index_of(id) is None,
            },
    {
        let ghost holds = |i: int| self@.servers[i].id == id;
        let mut i: usize = 0;
        while i < self.servers.len()
            invariant
                i <= self.servers.len(),
                holds == (|i: int| self@.servers[i].id == id),
                forall|j: int| 0 <= j < i ==> !#[trigger] holds(j),
            decreases self.servers.len() - i,
        {
            if self.servers[i].id() == id {
                proof {
                    assert(holds(i as int));
                    lemma_first_is(holds, self@.servers.len() as int, i as int);
                }
                return Some(i);
            }
            assert(!holds(i as int));
            i = i + 1;
        }
        proof {
            lemma_first_none(holds, self@.servers.len() as int);
        }
        None
    }

    /// The server with the given identifier, if it exists.
    pub fn server(&self, id: u64) -> (r: Option<&ServerInstance>)
        ensures
            match r {
                Some(server) => self@.server(id) == Some(server@),
                None => self@.server(id) is None,
            },
    {
        match self.find(id) {
            Some(i) => Some(&self.servers[i]),
            None => None,
        }
    }

    /// The state of the server with the given identifier: `Destroyed`
    /// for a server that once existed, nothing for an identifier that
    /// was never given out.
    pub fn server_state(&self, id: u64) -> (r: Option<ServerState>)
        ensures
            r == self@.state_of(id),
    {
        match self.find(id) {
            Some(i) => Some(self.servers[i].state()),
            None => if 1 <= id && id < self.next_id {
                Some(ServerState::Destroyed)
            } else {
                None
            },
        }
    }

    /// The identifiers of the servers that exist, in the order of their
    /// creation.
    pub fn server_ids(&self) -> (ids: Vec<u64>)
        ensures
            ids@ == self@.servers.map_values(|s: ServerView| s.id),
    {
        let mut ids: Vec<u64> = Vec::new();
        let mut i: usize = 0;
        while i < self.servers.len()
            invariant
                i <= self.servers.len(),
                ids.len() == i,
                forall|j: int| 0 <= j < i ==> ids@[j] == self@.servers[j].id,
            decreases self.servers.len() - i,
        {
            ids.push(self.servers[i].id());
            i = i + 1;
        }
        assert(ids@ =~= self@.servers.map_values(|s: ServerView| s.id));
        ids
    }

    /// The name of the export at a position of the binding table.
    pub fn export_name(&self, export: usize) -> (r: Option<&String>)
        ensures
            match r {
                Some(name) => self@.exports matches Some(table) && export < table.len()
                    && table[export as int] == name@,
                None => !(self@.exports matches Some(table) && export < table.len()),
            },
    {
        match &self.exports {
            Some(names) => if export < names.len() {
                Some(&names[export])
            } else {
                None
            },
            None => None,
        }
    }

    /// Records how the registration of the framework's host functions
    /// went. Returns whether the call was in turn and completed.
    pub fn setup_host_functions(&mut self, outcome: HostOutcome) -> (done: bool)
        requires
            old(self).wf(),
        ensures
            final(self).wf(),
            final(self)@ == old(self)@.lifecycle(LifecyclePhase::Setup, outcome, Seq::empty()),
            done == (old(self)@.state.admits(LifecyclePhase::Setup) && outcome is Completed),
    {
        proof {
            lemma_apply_preserves_wf(
                self@,
                FrameworkCall::Lifecycle {
                    phase: LifecyclePhase::Setup,
                    outcome,
                    exports: Seq::empty(),
                },
            );
        }
        let (done, state) = self.state.advance(LifecyclePhase::Setup, outcome);
        self.state = state;
        done
    }

    /// Records how the binding of the component's exports went, given
    /// the names that the component exports. Where the call is in turn
    /// and completed, the names become the binding table and every route
    /// is resolved against it. Returns whether that is so.
    pub fn add_export_functions(&mut self, exports: &Vec<String>, outcome: HostOutcome) -> (done:
        bool)
        requires
            old(self).wf(),
        ensures
            final(self).wf(),
            final(self)@ == old(self)@.lifecycle(
                LifecyclePhase::BindExports,
                outcome,
                names_view(exports@),
            ),
            done == (old(self)@.state.admits(LifecyclePhase::BindExports) && outcome is Completed),
    {
        proof {
            lemma_apply_preserves_wf(
                self@,
                FrameworkCall::Lifecycle {
                    phase: LifecyclePhase::BindExports,
                    outcome,
                    exports: names_view(exports@),
                },
            );
        }
        let (done, state) = self.state.advance(LifecyclePhase::BindExports, outcome);
        self.state = state;
        if done {
            self.exports = Some(copy_names(exports));
            let mut i: usize = 0;
            while i < self.servers.len()
                invariant
                    i <= self.servers.len(),
                    self.servers.len() == old(self).servers.len(),
                    table_view(self.exports) == Some(names_view(exports@)),
                    self.state == state,
                    self.next_id == old(self).next_id,
                    forall|j: int|
                        0 <= j < i ==> (#[trigger] self.servers[j])@ == old(
                            self,
                        ).servers[j]@.rebind(Some(names_view(exports@))),
                    forall|j: int|
                        i <= j < self.servers.len() ==> #[trigger] self.servers[j] == old(
                            self,
                        ).servers[j],
                decreases self.servers.len() - i,
            {
                self.servers[i].rebind(&self.exports);
                i = i + 1;
            }
            assert(self@.servers =~= old(self)@.servers.map_values(
                |s: ServerView| s.rebind(Some(names_view(exports@))),
            ));
        }
        done
    }

    /// Records how the start of the framework's background work went.
    /// Returns whether the call was in turn and completed.
    pub fn start(&mut self, outcome: HostOutcome) -> (done: bool)
        requires
            old(self).wf(),
        ensures
            final(self).wf(),
            final(self)@ == old(self)@.lifecycle(LifecyclePhase::Start, outcome, Seq::empty()),
            done == (old(self)@.state.admits(LifecyclePhase::Start) && outcome is Completed),
    {
        proof {
            lemma_apply_preserves_wf(
                self@,
                FrameworkCall::Lifecycle {
                    phase: LifecyclePhase::Start,
                    outcome,
                    exports: Seq::empty(),
                },
            );
        }
        let (done, state) = self.state.advance(LifecyclePhase::Start, outcome);
        self.state = state;
        done
    }

    /// Records that the shutdown signal was observed: the framework is
    /// stopped for good and every running server is stopped with it.
    /// Doing so twice changes nothing more.
    pub fn shutdown(&mut self)
        requires
            old(self).wf(),
        ensures
            final(self).wf(),
            final(self)@ == old(self)@.shutdown(),
    {
        proof {
            lemma_apply_preserves_wf(self@, FrameworkCall::Shutdown);
        }
        self.state = HandlerState::Stopped;
        let mut i: usize = 0;
        while i < self.servers.len()
            invariant
                i <= self.servers.len(),
                self.servers.len() == old(self).servers.len(),
                self.state == HandlerState::Stopped,
                self.next_id == old(self).next_id,
                self.exports == old(self).exports,
                forall|j: int|
                    0 <= j < i ==> (#[trigger] self.servers[j])@ == old(self).servers[j]@.stop(),
                forall|j: int|
                    i <= j < self.servers.len() ==> #[trigger] self.servers[j] == old(
                        self,
                    ).servers[j],
            decreases self.servers.len() - i,
        {
            let _ = self.servers[i].stop();
            i = i + 1;
        }
        assert(self@.servers =~= old(self)@.servers.map_values(|s: ServerView| s.stop()));
    }

    /// Creates a server for an address and returns its identifier.
    /// Identifiers start at 1 and are never used twice. Refused while
    /// the host functions are not reachable, for an address that the
    /// configuration does not allow, and when the identifiers have run
    /// out.
    pub fn create_server(
        &mut self,
        address: &str,
        permissions: &Option<HttpFrameworkPermissions>,
    ) -> (r: Result<u64, HostError>)
        requires
            old(self).wf(),
        ensures
            final(self).wf(),
            r == old(self)@.create_server_result(address@, allowed_addresses(*permissions)),
            final(self)@ == old(self)@.create_server(address@, allowed_addresses(*permissions)),
    {
        proof {
            lemma_apply_preserves_wf(
                self@,
                FrameworkCall::CreateServer {
                    address: address@,
                    allowed: allowed_addresses(*permissions),
                },
            );
        }
        if !self.state.reachable() {
            return Err(HostError::ResourceUnavailable);
        }
        let address = String::from_str(address);
        let permitted = match permissions {
            Some(p) => contains_name(&p.allowed_addresses, &address),
            None => true,
        };
        if !permitted {
            return Err(HostError::PermissionDenied { capability: CapabilityKind::HttpFramework });
        }
        if self.next_id == u64::MAX {
            return Err(HostError::ResourceUnavailable);
        }
        let id = self.next_id;
        self.servers.push(ServerInstance::new(id, address));
        self.next_id = id + 1;
        assert(self@.servers =~= old(self)@.servers.push(ServerView::created(id, address@)));
        Ok(id)
    }

    /// Registers a route with a server: requests with the method whose
    /// path the pattern accepts go to the named handler of the
    /// component. Refused while the host functions are not reachable,
    /// for an unknown server, and for one that has stopped.
    pub fn register_route(&mut self, id: u64, method: &str, pattern: &str, handler: &str) -> (r:
        Result<(), HostError>)
        requires
            old(self).wf(),
        ensures
            final(self).wf(),
            r == old(self)@.register_route_result(id),
            final(self)@ == old(self)@.register_route(id, method@, pattern@, handler@),
    {
        proof {
            lemma_apply_preserves_wf(
                self@,
                FrameworkCall::RegisterRoute {
                    id,
                    method: method@,
                    pattern: pattern@,
                    handler: handler@,
                },
            );
        }
        if !self.state.reachable() {
            return Err(HostError::ResourceUnavailable);
        }
        match self.find(id) {
            None => Err(HostError::ResourceUnavailable),
            Some(i) => {
                let handler = String::from_str(handler);
                let binding = resolve_export(&self.exports, &handler);
                let route = Route::new(
                    String::from_str(method),
                    String::from_str(pattern),
                    handler,
                    binding,
                );
                let r = self.servers[i].register_route(route);
                assert(self@.servers =~= old(self)@.servers.update(
                    i as int,
                    old(self)@.servers[i as int].register_route(route@),
                ));
                proof {
                    if old(self)@.register_route_result(id) is Err {
                        assert(self@.servers =~= old(self)@.servers);
                    }
                }
                r
            },
        }
    }

    /// The address that the caller is to bind before it starts a server.
    /// Refused where the server could not start even with its listener
    /// bound: see [`HttpFramework::start_server`].
    pub fn address_to_bind(&self, id: u64) -> (r: Result<&String, HostError>)
        ensures
            match r {
                Ok(address) => self@.address_to_bind(id) == Ok::<Seq<char>, HostError>(address@),
                Err(e) => self@.address_to_bind(id) == Err::<Seq<char>, HostError>(e),
            },
    {
        match self.state {
            HandlerState::Started => {},
            _ => {
                return Err(HostError::ResourceUnavailable);
            },
        }
        match self.find(id) {
            None => Err(HostError::ResourceUnavailable),
            Some(i) => match self.servers[i].state() {
                ServerState::Created => Ok(self.servers[i].address()),
                _ => Err(HostError::ResourceUnavailable),
            },
        }
    }

    /// Starts a server, given what became of its listener. Refused
    /// unless the framework itself has started, for an unknown server,
    /// for one that was started before, and where the address could not
    /// be bound.
    pub fn start_server(&mut self, id: u64, listener: HostOutcome) -> (r: Result<(), HostError>)
        requires
            old(self).wf(),
        ensures
            final(self).wf(),
            r == old(self)@.start_server_result(id, listener),
            final(self)@ == old(self)@.start_server(id, listener),
    {
        proof {
            lemma_apply_preserves_wf(self@, FrameworkCall::StartServer { id, listener });
        }
        match self.state {
            HandlerState::Started => {},
            _ => {
                return Err(HostError::ResourceUnavailable);
            },
        }
        match self.find(id) {
            None => Err(HostError::ResourceUnavailable),
            Some(i) => {
                let r = self.servers[i].start(listener);
                assert(self@.servers =~= old(self)@.servers.update(
                    i as int,
                    old(self)@.servers[i as int].start(listener),
                ));
                proof {
                    if old(self)@.start_server_result(id, listener) is Err {
                        assert(self@.servers =~= old(self)@.servers);
                    }
                }
                r
            },
        }
    }

    /// Stops a server. Stopping a stopped server succeeds and changes
    /// nothing. Refused for an unknown server and for one that never
    /// ran.
    pub fn stop_server(&mut self, id: u64) -> (r: Result<(), HostError>)
        requires
            old(self).wf(),
        ensures
            final(self).wf(),
            r == old(self)@.stop_server_result(id),
            final(self)@ == old(self)@.stop_server(id),
    {
        proof {
            lemma_apply_preserves_wf(self@, FrameworkCall::StopServer { id });
        }
        match self.find(id) {
            None => Err(HostError::ResourceUnavailable),
            Some(i) => {
                let r = self.servers[i].stop();
                assert(self@.servers =~= old(self)@.servers.update(
                    i as int,
                    old(self)@.servers[i as int].stop(),
                ));
                proof {
                    if old(self)@.stop_server_result(id) is Err {
                        assert(self@.servers =~= old(self)@.servers);
                    }
                }
                r
            },
        }
    }

    /// Destroys a server, whatever its state. Its identifier is not
    /// given out again. Refused for an unknown server.
    pub fn destroy_server(&mut self, id: u64) -> (r: Result<(), HostError>)
        requires
            old(self).wf(),
        ensures
            final(self).wf(),
            r == old(self)@.destroy_server_result(id),
            final(self)@ == old(self)@.destroy_server(id),
    {
        proof {
            lemma_apply_preserves_wf(self@, FrameworkCall::DestroyServer { id });
        }
        match self.find(id) {
            None => Err(HostError::ResourceUnavailable),
            Some(i) => {
                let _ = self.servers.remove(i);
                assert(self@.servers =~= old(self)@.servers.remove(i as int));
                Ok(())
            },
        }
    }

    /// Decides what is done with a request that arrived at a server.
    /// The decision is made on the routes as they are at this moment.
    pub fn dispatch(&self, id: u64, event: HttpEventData) -> (r: Result<Dispatch, HostError>)
        ensures
            match r {
                Ok(d) => self@.dispatch(id, event@) == Ok::<DispatchView, HostError>(d@),
                Err(e) => self@.dispatch(id, event@) == Err::<DispatchView, HostError>(e),
            },
    {
        match self.find(id) {
            None => Err(HostError::ResourceUnavailable),
            Some(i) => {
                let server = &self.servers[i];
                assert(server@ == self@.servers[i as int]);
                match server.route_for(event.method(), event.path().as_str()) {
                    Err(HostError::RouteNotFound) => Ok(Dispatch::Respond(event.not_found())),
                    Err(_) => Err(HostError::ResourceUnavailable),
                    Ok(k) => match server.routes().get(k) {
                        Some(route) => match route.call_target() {
                            Ok(export) => Ok(Dispatch::Invoke { export, event }),
                            Err(_) => Ok(Dispatch::Respond(event.handler_failed())),
                        },
                        None => Err(HostError::ResourceUnavailable),
                    },
                }
            },
        }
    }
}

} // verus!
