//! One HTTP server of a component: its address, its state and its routes.

use vstd::prelude::*;

use crate::capability::HostOutcome;
use crate::error::HostError;
use crate::framework::route::first_match;
use crate::framework::route::rebound_all;
use crate::framework::route::table_view;
use crate::framework::route::Route;
use crate::framework::route::RouteTable;
use crate::framework::route::RouteView;

verus! {

/// The states of a server. A server only ever moves forward through them.
#[derive(Clone, Copy, Debug, PartialEq, Eq, Hash, Structural)]
pub enum ServerState {
    /// Routes can be registered; no connection is accepted.
    Created,
    /// Connections are accepted and requests routed.
    Running,
    /// The listener is closed; the routes are kept for inspection.
    Stopped,
    /// The server is gone and its identifier is never used again.
    Destroyed,
}

impl ServerState {
    /// Whether requests are no longer routed, now or ever again.
    pub open spec fn is_closed(self) -> bool {
        self is Stopped || self is Destroyed
    }

    /// Whether routes can be registered.
    pub open spec fn takes_routes(self) -> bool {
        self is Created || self is Running
    }
}

/// The mathematical value of a [`ServerInstance`].
pub struct ServerView {
    pub id: u64,
    pub address: Seq<char>,
    pub state: ServerState,
    pub routes: Seq<RouteView>,
}

impl ServerView {
    /// A server as it is created.
    pub open spec fn created(id: u64, address: Seq<char>) -> ServerView {
        ServerView { id, address, state: ServerState::Created, routes: Seq::empty() }
    }

    /// Whether a route can be registered.
    pub open spec fn can_register(self) -> bool {
        self.state.takes_routes()
    }

    /// The server after a route was registered, where that is possible.
    pub open spec fn register_route(self, route: RouteView) -> ServerView {
        if self.can_register() {
            ServerView { routes: self.routes.push(route), ..self }
        } else {
            self
        }
    }

    /// Whether the server starts, given what became of its listener.
    pub open spec fn can_start(self, listener: HostOutcome) -> bool {
        self.state is Created && listener is Completed
    }

    /// The server after an attempt to start it.
    pub open spec fn start(self, listener: HostOutcome) -> ServerView {
        if self.can_start(listener) {
            ServerView { state: ServerState::Running, ..self }
        } else {
            self
        }
    }

    /// Whether the server can be asked to stop: it runs, or has stopped
    /// already.
    pub open spec fn can_stop(self) -> bool {
        self.state is Running || self.state is Stopped
    }

    /// The server after its listener was closed, if it had one.
    pub open spec fn stop(self) -> ServerView {
        if self.state is Running {
            ServerView { state: ServerState::Stopped, ..self }
        } else {
            self
        }
    }

    /// The server with every route resolved against a binding table.
    pub open spec fn rebind(self, exports: Option<Seq<Seq<char>>>) -> ServerView {
        ServerView { routes: rebound_all(self.routes, exports), ..self }
    }

    /// What the server does with a request: nothing unless it is running;
    /// else the route that takes the request, if there is one.
    pub open spec fn route_for(self, method: Seq<char>, path: Seq<char>) -> Result<
        int,
        HostError,
    > {
        if !(self.state is Running) {
            Err(HostError::ResourceUnavailable)
        } else {
            match first_match(self.routes, method, path) {
                Some(i) => Ok(i),
                None => Err(HostError::RouteNotFound),
            }
        }
    }
}

/// One HTTP server of a component. Only the framework that owns it
/// changes it; the component refers to it by its identifier.
#[derive(Debug)]
pub struct ServerInstance {
    id: u64,
    address: String,
    state: ServerState,
    routes: RouteTable,
}

impl View for ServerInstance {
    type V = ServerView;

    closed spec fn view(&self) -> ServerView {
        ServerView {
            id: self.id,
            address: self.address@,
            state: self.state,
            routes: self.routes@,
        }
    }
}

impl ServerInstance {
    pub(crate) fn new(id: u64, address: String) -> (server: ServerInstance)
        ensures
            server@ == ServerView::created(id, address@),
    {
        ServerInstance { id, address, state: ServerState::Created, routes: RouteTable::new() }
    }

    pub fn id(&self) -> (r: u64)
        ensures
            r == self@.id,
    {
        self.id
    }

    /// The network address that the server binds.
    pub fn address(&self) -> (r: &String)
        ensures
            r@ == self@.address,
    {
        &self.address
    }

    pub fn state(&self) -> (r: ServerState)
        ensures
            r == self@.state,
    {
        self.state
    }

    pub fn routes(&self) -> (r: &RouteTable)
        ensures
            r@ == self@.routes,
    {
        &self.routes
    }

    /// Registers a route behind those that the server has. Refused once
    /// the server has stopped.
    pub(crate) fn register_route(&mut self, route: Route) -> (r: Result<(), HostError>)
        ensures
            final(self)@ == old(self)@.register_route(route@),
            r == if old(self)@.can_register() {
                Ok::<(), HostError>(())
            } else {
                Err(HostError::ResourceUnavailable)
            },
    {
        match self.state {
            ServerState::Created | ServerState::Running => {
                self.routes.push(route);
                Ok(())
            },
            _ => Err(HostError::ResourceUnavailable),
        }
    }

    /// Starts the server, given what became of its listener. Only a
    /// server that was never started can start, and only if its address
    /// could be bound.
    pub(crate) fn start(&mut self, listener: HostOutcome) -> (r: Result<(), HostError>)
        ensures
            final(self)@ == old(self)@.start(listener),
            r == if old(self)@.can_start(listener) {
                Ok::<(), HostError>(())
            } else {
                Err(HostError::ResourceUnavailable)
            },
    {
        match (self.state, listener) {
            (ServerState::Created, HostOutcome::Completed) => {
                self.state = ServerState::Running;
                Ok(())
            },
            _ => Err(HostError::ResourceUnavailable),
        }
    }

    /// Stops the server. Stopping a stopped server changes nothing and
    /// succeeds; a server that never ran cannot be stopped.
    pub(crate) fn stop(&mut self) -> (r: Result<(), HostError>)
        ensures
            final(self)@ == old(self)@.stop(),
            r == if old(self)@.can_stop() {
                Ok::<(), HostError>(())
            } else {
                Err(HostError::ResourceUnavailable)
            },
    {
        match self.state {
            ServerState::Running => {
                self.state = ServerState::Stopped;
                Ok(())
            },
            ServerState::Stopped => Ok(()),
            _ => Err(HostError::ResourceUnavailable),
        }
    }

    /// Resolves every route's handler against a binding table.
    pub(crate) fn rebind(&mut self, exports: &Option<Vec<String>>)
        ensures
            final(self)@ == old(self)@.rebind(table_view(*exports)),
    {
        self.routes.rebind(exports);
    }

    /// Finds the route for a request. A server that is not running routes
    /// nothing.
    pub fn route_for(&self, method: &String, path: &str) -> (r: Result<usize, HostError>)
        ensures
            match r {
                Ok(i) => i < self@.routes.len() && self@.route_for(method@, path@) == Ok::<
                    int,
                    HostError,
                >(i as int),
                Err(e) => self@.route_for(method@, path@) == Err::<int, HostError>(e),
            },
    {
        match self.state {
            ServerState::Running => self.routes.find(method, path),
            _ => Err(HostError::ResourceUnavailable),
        }
    }
}

} // verus!
