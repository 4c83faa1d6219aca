//! The registry of one component's handlers. It drives their lifecycle
//! in the order in which they were requested, one phase after another,
//! and stands between the component and its capabilities.

pub mod model;

use vstd::prelude::*;

use crate::capability::CapabilityKind;
use crate::capability::HostOutcome;
use crate::capability::LifecyclePhase;
use crate::error::HostError;
use crate::framework::event::HttpEventData;
use crate::framework::http_framework::Dispatch;
use crate::framework::model::DispatchView;
use crate::framework::model::FrameworkCall;
use crate::framework::model::FrameworkView;
use crate::framework::route::names_view;
use crate::handler::Configuration;
use crate::handler::Handler;
use crate::handler::HandlerView;
use crate::permissions::PermissionGrants;
use crate::registry::model::distinct;
use crate::registry::model::first_denied;
use crate::registry::model::lemma_apply_preserves_wf;
use crate::registry::model::lemma_requested_is_wf;
use crate::registry::model::RegistryCall;
use crate::registry::model::RegistryView;
use crate::search::first;
use crate::search::lemma_first_is;
use crate::search::lemma_first_none;

pub use crate::registry::model::RegistryStatus;

verus! {

/// The export names that a lifecycle call of a phase takes: those given,
/// for the binding of exports; none, for the other phases.
pub open spec fn phase_exports(phase: LifecyclePhase, exports: Seq<String>) -> Seq<Seq<char>> {
    if phase is BindExports {
        names_view(exports)
    } else {
        Seq::empty()
    }
}

/// Handlers held in a vector, as mathematical values.
pub open spec fn handler_views(handlers: Seq<Handler>) -> Seq<HandlerView> {
    handlers.map_values(|h: Handler| h@)
}

/// The position of the handler of a kind among some handlers.
fn find_kind(handlers: &Vec<Handler>, kind: CapabilityKind) -> (r: Option<usize>)
    ensures
        match r {
            Some(i) => i < handlers.len() && handlers@[i as int]@.kind() == kind && first(
                |i: int| handler_views(handlers@)[i].kind() == kind,
                handlers.len() as int,
            ) == Some(i as int),
            None => first(
                |i: int| handler_views(handlers@)[i].kind() == kind,
                handlers.len() as int,
            ) is None && forall|j: int|
                0 <= j < handlers.len() ==> (#[trigger] handlers@[j])@.kind() != kind,
        },
{
    let ghost holds = |i: int| handler_views(handlers@)[i].kind() == kind;
    let mut i: usize = 0;
    while i < handlers.len()
        invariant
            i <= handlers.len(),
            holds == (|i: int| handler_views(handlers@)[i].kind() == kind),
            forall|j: int| 0 <= j < i ==> !#[trigger] holds(j),
        decreases handlers.len() - i,
    {
        if handlers[i].kind() == kind {
            proof {
                assert(holds(i as int));
                lemma_first_is(holds, handlers.len() as int, i as int);
            }
            return Some(i);
        }
        assert(!holds(i as int));
        i = i + 1;
    }
    proof {
        lemma_first_none(holds, handlers.len() as int);
        assert forall|j: int| 0 <= j < handlers.len() implies (#[trigger] handlers@[j])@.kind()
            != kind by {
            assert(!holds(j));
        }
    }
    None
}

/// The handlers granted to one component, in the order in which they
/// were requested, together with how far their lifecycle has come.
#[derive(Debug)]
pub struct HandlerRegistry {
    handlers: Vec<Handler>,
    phase: LifecyclePhase,
    cursor: usize,
    status: RegistryStatus,
}

impl View for HandlerRegistry {
    type V = RegistryView;

    closed spec fn view(&self) -> RegistryView {
        RegistryView {
            handlers: handler_views(self.handlers@),
            phase: self.phase,
            cursor: self.cursor as int,
            status: self.status,
        }
    }
}

impl HandlerRegistry {
    /// What holds of every registry: see [`RegistryView::wf`].
    pub open spec fn wf(&self) -> bool {
        self@.wf()
    }

    /// Builds the registry of a component from the kinds it requests
    /// and the grants it holds. The handlers stand in the order of the
    /// request, each kind once; each carries the configuration of its
    /// grant. A kind that needs a grant and has none is denied, and with
    /// it the whole registry; the denial names the first such kind.
    pub fn build(requested: &Vec<CapabilityKind>, grants: PermissionGrants) -> (r: Result<
        HandlerRegistry,
        HostError,
    >)
        ensures
            match r {
                Ok(registry) => {
                    &&& first_denied(requested@, grants) is None
                    &&& registry.wf()
                    &&& registry@ == RegistryView::requested(requested@, grants)
                },
                Err(e) => first_denied(requested@, grants) matches Some(i) && e
                    == (HostError::PermissionDenied { capability: requested@[i] }),
            },
    {
        let ghost denied = |i: int| !grants.admits_spec(requested@[i]);
        let ghost fresh = |k: CapabilityKind| HandlerView::fresh(k, grants);
        let mut remaining = grants;
        let mut handlers: Vec<Handler> = Vec::new();
        let mut i: usize = 0;
        assert(requested@.take(0) =~= Seq::<CapabilityKind>::empty());
        assert(handler_views(handlers@) =~= distinct(requested@.take(0)).map_values(fresh));
        while i < requested.len()
            invariant
                i <= requested.len(),
                denied == (|i: int| !grants.admits_spec(requested@[i])),
                fresh == (|k: CapabilityKind| HandlerView::fresh(k, grants)),
                forall|k: int| 0 <= k < i ==> !#[trigger] denied(k),
                handler_views(handlers@) == distinct(requested@.take(i as int)).map_values(fresh),
                forall|j: int| 0 <= j < handlers.len() ==> (#[trigger] handlers@[j]).wf(),
                forall|k: CapabilityKind| remaining.granted_spec(k) == grants.granted_spec(k),
                forall|k: CapabilityKind|
                    !distinct(requested@.take(i as int)).contains(k) ==> Configuration::granted(
                        k,
                        remaining,
                    ) == Configuration::granted(k, grants),
            decreases requested.len() - i,
        {
            let kind = requested[i];
            let ghost kinds = distinct(requested@.take(i as int));
            proof {
                assert(handler_views(handlers@).len() == kinds.map_values(fresh).len());
                assert(handlers.len() == kinds.len());
                assert forall|j: int| 0 <= j < kinds.len() implies (#[trigger] handlers@[j])@
                    == fresh(kinds[j]) by {
                    assert(handler_views(handlers@)[j] == kinds.map_values(fresh)[j]);
                }
                assert(requested@.take(i + 1).drop_last() =~= requested@.take(i as int));
                assert(requested@.take(i + 1).last() == kind);
            }
            if !remaining.admits(kind) {
                proof {
                    assert(denied(i as int));
                    lemma_first_is(denied, requested.len() as int, i as int);
                }
                return Err(HostError::PermissionDenied { capability: kind });
            }
            assert(!denied(i as int));
            match find_kind(&handlers, kind) {
                Some(at) => {
                    proof {
                        assert(handlers@[at as int]@ == fresh(kinds[at as int]));
                        assert(kinds[at as int] == kind);
                    }
                },
                None => {
                    proof {
                        if kinds.contains(kind) {
                            let j = choose|j: int| 0 <= j < kinds.len() && kinds[j] == kind;
                            assert(handlers@[j]@ == fresh(kinds[j]));
                            assert(handlers@[j]@.kind() == kind);
                        }
                    }
                    let ghost before = remaining;
                    let handler = Handler::build(kind, &mut remaining);
                    handlers.push(handler);
                    proof {
                        assert forall|k: CapabilityKind|
                            remaining.granted_spec(k) == before.granted_spec(k) by {}
                        assert forall|k: CapabilityKind| k != kind implies Configuration::granted(
                            k,
                            remaining,
                        ) == Configuration::granted(k, before) by {}
                        let now = kinds.push(kind);
                        assert(handler_views(handlers@) =~= now.map_values(fresh));
                        assert forall|k: CapabilityKind| !now.contains(k) implies
                            Configuration::granted(k, remaining) == Configuration::granted(
                            k,
                            grants,
                        ) by {
                            if kinds.contains(k) {
                                let j = choose|j: int| 0 <= j < kinds.len() && kinds[j] == k;
                                assert(now[j] == k);
                            }
                            assert(now[kinds.len() as int] == kind);
                        }
                    }
                },
            }
            i = i + 1;
        }
        proof {
            assert(requested@.take(requested.len() as int) =~= requested@);
            lemma_first_none(denied, requested.len() as int);
            lemma_requested_is_wf(requested@, grants);
        }
        let phase = if handlers.len() == 0 {
            LifecyclePhase::Start
        } else {
            LifecyclePhase::Setup
        };
        Ok(HandlerRegistry { handlers, phase, cursor: 0, status: RegistryStatus::Active })
    }

    /// The position of the handler of a kind.
    fn find(&self, kind: CapabilityKind) -> (r: Option<usize>)
        ensures
            match r {
                Some(i) => i < self@.handlers.len() && self@.position(kind) == Some(i as int)
                    && self@.handlers[i as int].kind() == kind,
                None => self@.position(kind) is None,
            },
    {
        find_kind(&self.handlers, kind)
    }

    /// The handler of a kind, if the component has it.
    pub fn get(&self, kind: CapabilityKind) -> (r: Option<&Handler>)
        ensures
            match r {
                Some(handler) => self@.get(kind) == Some(handler@),
                None => self@.get(kind) is None,
            },
    {
        match self.find(kind) {
            Some(i) => Some(&self.handlers[i]),
            None => None,
        }
    }

    /// The number of handlers.
    pub fn len(&self) -> (n: usize)
        ensures
            n == self@.handlers.len(),
    {
        self.handlers.len()
    }

    /// The kinds of the handlers, in the order in which they receive
    /// their lifecycle calls.
    pub fn kinds(&self) -> (kinds: Vec<CapabilityKind>)
        ensures
            kinds@ == self@.kinds(),
    {
        let mut kinds: Vec<CapabilityKind> = Vec::new();
        let mut i: usize = 0;
        while i < self.handlers.len()
            invariant
                i <= self.handlers.len(),
                kinds.len() == i,
                forall|j: int| 0 <= j < i ==> kinds@[j] == self@.handlers[j].kind(),
            decreases self.handlers.len() - i,
        {
            kinds.push(self.handlers[i].kind());
            i = i + 1;
        }
        assert(kinds@ =~= self@.kinds());
        kinds
    }

    pub fn status(&self) -> (r: RegistryStatus)
        ensures
            r == self@.status,
    {
        self.status
    }

    /// Which handler is due to receive the call of a phase: see
    /// [`RegistryView::due`].
    pub fn due(&self, phase: LifecyclePhase) -> (r: Result<Option<CapabilityKind>, HostError>)
        requires
            self.wf(),
        ensures
            r == self@.due(phase),
    {
        match self.status {
            RegistryStatus::ShutDown => Err(HostError::ResourceUnavailable),
            RegistryStatus::Failed => Err(
                HostError::LifecyclePhaseFailure {
                    capability: self.handlers[self.cursor].kind(),
                    phase: self.phase,
                },
            ),
            RegistryStatus::Active => {
                if self.phase.follows(phase) || (phase == self.phase && self.cursor
                    == self.handlers.len()) {
                    Ok(None)
                } else if phase == self.phase {
                    Ok(Some(self.handlers[self.cursor].kind()))
                } else {
                    Err(
                        HostError::LifecyclePhaseFailure {
                            capability: self.handlers[self.cursor].kind(),
                            phase,
                        },
                    )
                }
            },
        }
    }

    /// Whether the component may call the host functions of a kind: see
    /// [`RegistryView::authorize`].
    pub fn authorize(&self, kind: CapabilityKind) -> (r: Result<(), HostError>)
        ensures
            r == self@.authorize(kind),
    {
        match self.find(kind) {
            None => Err(HostError::PermissionDenied { capability: kind }),
            Some(i) => if self.handlers[i].state().reachable() {
                Ok(())
            } else {
                Err(HostError::ResourceUnavailable)
            },
        }
    }

    /// Applies the report of a lifecycle call to the handler that is due.
    fn advance(&mut self, phase: LifecyclePhase, exports: &Vec<String>, outcome: HostOutcome) -> (r:
        Result<(), HostError>)
        requires
            old(self).wf(),
        ensures
            final(self).wf(),
            final(self)@ == old(self)@.advance(phase, outcome, phase_exports(phase, exports@)),
            r == old(self)@.phase_result(phase, outcome),
    {
        proof {
            lemma_apply_preserves_wf(
                self@,
                RegistryCall::Lifecycle {
                    phase,
                    outcome,
                    exports: phase_exports(phase, exports@),
                },
            );
        }
        match self.due(phase) {
            Err(e) => Err(e),
            Ok(None) => Ok(()),
            Ok(Some(_)) => {
                let i = self.cursor;
                assert(i < self.handlers.len());
                let r = match phase {
                    LifecyclePhase::Setup => self.handlers[i].setup_host_functions(outcome),
                    LifecyclePhase::BindExports => self.handlers[i].add_export_functions(
                        exports,
                        outcome,
                    ),
                    LifecyclePhase::Start => self.handlers[i].start(outcome),
                };
                assert(self.handlers.len() == old(self).handlers.len());
                assert(handler_views(self.handlers@) =~= old(self)@.handlers.update(
                    i as int,
                    old(self)@.handlers[i as int].after(
                        phase,
                        outcome,
                        phase_exports(phase, exports@),
                    ),
                ));
                match r {
                    Ok(_) => {
                        if i + 1 < self.handlers.len() {
                            self.cursor = i + 1;
                        } else {
                            match phase {
                                LifecyclePhase::Start => {
                                    self.cursor = i + 1;
                                },
                                _ => {
                                    self.phase = phase.next();
                                    self.cursor = 0;
                                },
                            }
                        }
                    },
                    Err(_) => {
                        self.status = RegistryStatus::Failed;
                    },
                }
                r
            },
        }
    }

    /// Reports how the registration of host functions went for the
    /// handler that is due for it. The handlers take the call one after
    /// another, in the order of the registry; the first failure ends the
    /// lifecycle. Where nothing is due the report changes nothing.
    pub fn setup_host_functions(&mut self, outcome: HostOutcome) -> (r: Result<(), HostError>)
        requires
            old(self).wf(),
        ensures
            final(self).wf(),
            final(self)@ == old(self)@.advance(LifecyclePhase::Setup, outcome, Seq::empty()),
            r == old(self)@.phase_result(LifecyclePhase::Setup, outcome),
    {
        let none: Vec<String> = Vec::new();
        self.advance(LifecyclePhase::Setup, &none, outcome)
    }

    /// Reports how the binding of the component's exports went for the
    /// handler that is due for it, given the names that the component
    /// exports. Refused while a handler has yet to register its host
    /// functions.
    pub fn add_export_functions(&mut self, exports: &Vec<String>, outcome: HostOutcome) -> (r:
        Result<(), HostError>)
        requires
            old(self).wf(),
        ensures
            final(self).wf(),
            final(self)@ == old(self)@.advance(
                LifecyclePhase::BindExports,
                outcome,
                names_view(exports@),
            ),
            r == old(self)@.phase_result(LifecyclePhase::BindExports, outcome),
    {
        self.advance(LifecyclePhase::BindExports, exports, outcome)
    }

    /// Reports how the start went for the handler that is due for it.
    /// Refused while a handler has yet to bind the component's exports.
    pub fn start(&mut self, outcome: HostOutcome) -> (r: Result<(), HostError>)
        requires
            old(self).wf(),
        ensures
            final(self).wf(),
            final(self)@ == old(self)@.advance(LifecyclePhase::Start, outcome, Seq::empty()),
            r == old(self)@.phase_result(LifecyclePhase::Start, outcome),
    {
        let none: Vec<String> = Vec::new();
        self.advance(LifecyclePhase::Start, &none, outcome)
    }

    /// Runs a phase over the outcomes that the hosts reported.
    fn run(
        &mut self,
        phase: LifecyclePhase,
        exports: &Vec<String>,
        outcomes: &Vec<HostOutcome>,
    ) -> (r: Result<(), HostError>)
        requires
            old(self).wf(),
        ensures
            final(self).wf(),
            final(self)@ == old(self)@.run(phase, outcomes@, phase_exports(phase, exports@)),
            r == final(self)@.phase_standing(phase),
    {
        let ghost names = phase_exports(phase, exports@);
        let mut i: usize = 0;
        assert(outcomes@.skip(0) =~= outcomes@);
        while i < outcomes.len()
            invariant
                i <= outcomes.len(),
                self.wf(),
                names == phase_exports(phase, exports@),
                old(self)@.run(phase, outcomes@, names) == self@.run(
                    phase,
                    outcomes@.skip(i as int),
                    names,
                ),
            decreases outcomes.len() - i,
        {
            assert(outcomes@.skip(i as int).drop_first() =~= outcomes@.skip(i + 1));
            match self.due(phase) {
                Ok(Some(_)) => {
                    let _ = self.advance(phase, exports, outcomes[i]);
                },
                Ok(None) => {
                    return Ok(());
                },
                Err(e) => {
                    return Err(e);
                },
            }
            i = i + 1;
        }
        assert(outcomes@.skip(i as int) =~= Seq::<HostOutcome>::empty());
        match self.due(phase) {
            Ok(Some(capability)) => Err(HostError::LifecyclePhaseFailure { capability, phase }),
            Ok(None) => Ok(()),
            Err(e) => Err(e),
        }
    }

    /// Runs the setup phase over the outcomes that the hosts reported,
    /// the first outcome for the first handler: each handler registers
    /// its host functions, in the order of the registry, until all have
    /// done so or one fails. Succeeds where every handler has completed
    /// its setup. A handler for which no outcome is left stays due, and
    /// the phase is reported as not complete for it.
    pub fn setup_all(&mut self, outcomes: &Vec<HostOutcome>) -> (r: Result<(), HostError>)
        requires
            old(self).wf(),
        ensures
            final(self).wf(),
            final(self)@ == old(self)@.run(LifecyclePhase::Setup, outcomes@, Seq::empty()),
            r == final(self)@.phase_standing(LifecyclePhase::Setup),
    {
        let none: Vec<String> = Vec::new();
        self.run(LifecyclePhase::Setup, &none, outcomes)
    }

    /// Runs the binding of the component's exports over the outcomes
    /// that the hosts reported, given the names that the component
    /// exports. Refused, with nothing changed, while a handler has yet to
    /// complete its setup.
    pub fn bind_exports(&mut self, exports: &Vec<String>, outcomes: &Vec<HostOutcome>) -> (r:
        Result<(), HostError>)
        requires
            old(self).wf(),
        ensures
            final(self).wf(),
            final(self)@ == old(self)@.run(
                LifecyclePhase::BindExports,
                outcomes@,
                names_view(exports@),
            ),
            r == final(self)@.phase_standing(LifecyclePhase::BindExports),
    {
        self.run(LifecyclePhase::BindExports, exports, outcomes)
    }

    /// Runs the start phase over the outcomes that the hosts reported.
    /// Refused, with nothing changed, while a handler has yet to bind the
    /// component's exports.
    pub fn start_all(&mut self, outcomes: &Vec<HostOutcome>) -> (r: Result<(), HostError>)
        requires
            old(self).wf(),
        ensures
            final(self).wf(),
            final(self)@ == old(self)@.run(LifecyclePhase::Start, outcomes@, Seq::empty()),
            r == final(self)@.phase_standing(LifecyclePhase::Start),
    {
        let none: Vec<String> = Vec::new();
        self.run(LifecyclePhase::Start, &none, outcomes)
    }

    /// Records that the shutdown signal was observed: every handler is
    /// stopped, for good, and no lifecycle call is taken any more.
    pub fn shutdown(&mut self)
        requires
            old(self).wf(),
        ensures
            final(self).wf(),
            final(self)@ == old(self)@.shutdown(),
    {
        proof {
            lemma_apply_preserves_wf(self@, RegistryCall::Shutdown);
        }
        assert forall|j: int| 0 <= j < self.handlers.len() implies old(self).handlers@[j].wf() by {
            assert(old(self)@.handlers[j].wf());
        }
        self.status = RegistryStatus::ShutDown;
        let mut i: usize = 0;
        while i < self.handlers.len()
            invariant
                i <= self.handlers.len(),
                self.handlers.len() == old(self).handlers.len(),
                self.phase == old(self).phase,
                self.cursor == old(self).cursor,
                self.status is ShutDown,
                forall|j: int|
                    0 <= j < i ==> (#[trigger] self.handlers@[j])@ == old(
                        self,
                    ).handlers@[j]@.shutdown(),
                forall|j: int|
                    i <= j < self.handlers.len() ==> #[trigger] self.handlers@[j] == old(
                        self,
                    ).handlers@[j],
                forall|j: int| 0 <= j < self.handlers.len() ==> old(self).handlers@[j].wf(),
            decreases self.handlers.len() - i,
        {
            self.handlers[i].shutdown();
            i = i + 1;
        }
        assert(self@.handlers =~= old(self)@.handlers.map_values(|h: HandlerView| h.shutdown()));
    }

    /// Creates an HTTP server for the component: see
    /// [`crate::framework::HttpFramework::create_server`]. The address
    /// must be one that the configuration of the framework allows.
    /// Denied where the component does not have the HTTP framework.
    pub fn create_server(&mut self, address: &str) -> (r: Result<u64, HostError>)
        requires
            old(self).wf(),
        ensures
            final(self).wf(),
            final(self)@ == old(self)@.http(
                FrameworkCall::CreateServer {
                    address: address@,
                    allowed: old(self)@.allowed_addresses(),
                },
            ),
            r == old(self)@.http_result(
                |f: FrameworkView|
                    f.create_server_result(address@, old(self)@.allowed_addresses()),
            ),
    {
        proof {
            lemma_apply_preserves_wf(
                self@,
                RegistryCall::Http {
                    call: FrameworkCall::CreateServer {
                        address: address@,
                        allowed: self@.allowed_addresses(),
                    },
                },
            );
        }
        match self.find(CapabilityKind::HttpFramework) {
            None => Err(HostError::PermissionDenied { capability: CapabilityKind::HttpFramework }),
            Some(i) => {
                assert(old(self)@.handlers[i as int].wf());
                let r = match &mut self.handlers[i] {
                    Handler::HttpFramework(framework, permissions) => framework.create_server(
                        address,
                        permissions,
                    ),
                    _ => Err(HostError::ResourceUnavailable),
                };
                assert(self@.handlers =~= old(self)@.http(
                        FrameworkCall::CreateServer {
                            address: address@,
                            allowed: old(self)@.allowed_addresses(),
                        },
                ).handlers);
                r
            },
        }
    }

    /// Registers a route with a server of the component: see
    /// [`crate::framework::HttpFramework::register_route`]. Denied where
    /// the component does not have the HTTP framework.
    pub fn register_route(
        &mut self,
        id: u64,
        method: &str,
        pattern: &str,
        handler: &str,
    ) -> (r: Result<(), HostError>)
        requires
            old(self).wf(),
        ensures
            final(self).wf(),
            final(self)@ == old(self)@.http(
                FrameworkCall::RegisterRoute {
                    id,
                    method: method@,
                    pattern: pattern@,
                    handler: handler@,
                },
            ),
            r == old(self)@.http_result(
                |f: FrameworkView| f.register_route_result(id),
            ),
    {
        proof {
            lemma_apply_preserves_wf(
                self@,
                RegistryCall::Http {
                    call: FrameworkCall::RegisterRoute {
                        id,
                        method: method@,
                        pattern: pattern@,
                        handler: handler@,
                    },
                },
            );
        }
        match self.find(CapabilityKind::HttpFramework) {
            None => Err(HostError::PermissionDenied { capability: CapabilityKind::HttpFramework }),
            Some(i) => {
                assert(old(self)@.handlers[i as int].wf());
                let r = match &mut self.handlers[i] {
                    Handler::HttpFramework(framework, _) => framework.register_route(
                        id,
                        method,
                        pattern,
                        handler,
                    ),
                    _ => Err(HostError::ResourceUnavailable),
                };
                assert(self@.handlers =~= old(self)@.http(
                        FrameworkCall::RegisterRoute {
                            id,
                            method: method@,
                            pattern: pattern@,
                            handler: handler@,
                        },
                ).handlers);
                r
            },
        }
    }

    /// Starts a server of the component, given what became of its
    /// listener: see [`crate::framework::HttpFramework::start_server`].
    /// Denied where the component does not have the HTTP framework.
    pub fn start_server(&mut self, id: u64, listener: HostOutcome) -> (r: Result<(), HostError>)
        requires
            old(self).wf(),
        ensures
            final(self).wf(),
            final(self)@ == old(self)@.http(
                FrameworkCall::StartServer { id, listener },
            ),
            r == old(self)@.http_result(
                |f: FrameworkView| f.start_server_result(id, listener),
            ),
    {
        proof {
            lemma_apply_preserves_wf(
                self@,
                RegistryCall::Http {
                    call: FrameworkCall::StartServer { id, listener },
                },
            );
        }
        match self.find(CapabilityKind::HttpFramework) {
            None => Err(HostError::PermissionDenied { capability: CapabilityKind::HttpFramework }),
            Some(i) => {
                assert(old(self)@.handlers[i as int].wf());
                let r = match &mut self.handlers[i] {
                    Handler::HttpFramework(framework, _) => framework.start_server(id, listener),
                    _ => Err(HostError::ResourceUnavailable),
                };
                assert(self@.handlers =~= old(self)@.http(
                        FrameworkCall::StartServer { id, listener },
                ).handlers);
                r
            },
        }
    }

    /// Stops a server of the component: see
    /// [`crate::framework::HttpFramework::stop_server`]. Denied where
    /// the component does not have the HTTP framework.
    pub fn stop_server(&mut self, id: u64) -> (r: Result<(), HostError>)
        requires
            old(self).wf(),
        ensures
            final(self).wf(),
            final(self)@ == old(self)@.http(
                FrameworkCall::StopServer { id },
            ),
            r == old(self)@.http_result(
                |f: FrameworkView| f.stop_server_result(id),
            ),
    {
        proof {
            lemma_apply_preserves_wf(
                self@,
                RegistryCall::Http {
                    call: FrameworkCall::StopServer { id },
                },
            );
        }
        match self.find(CapabilityKind::HttpFramework) {
            None => Err(HostError::PermissionDenied { capability: CapabilityKind::HttpFramework }),
            Some(i) => {
                assert(old(self)@.handlers[i as int].wf());
                let r = match &mut self.handlers[i] {
                    Handler::HttpFramework(framework, _) => framework.stop_server(id),
                    _ => Err(HostError::ResourceUnavailable),
                };
                assert(self@.handlers =~= old(self)@.http(
                        FrameworkCall::StopServer { id },
                ).handlers);
                r
            },
        }
    }

    /// Destroys a server of the component: see
    /// [`crate::framework::HttpFramework::destroy_server`]. Denied where
    /// the component does not have the HTTP framework.
    pub fn destroy_server(&mut self, id: u64) -> (r: Result<(), HostError>)
        requires
            old(self).wf(),
        ensures
            final(self).wf(),
            final(self)@ == old(self)@.http(
                FrameworkCall::DestroyServer { id },
            ),
            r == old(self)@.http_result(
                |f: FrameworkView| f.destroy_server_result(id),
            ),
    {
        proof {
            lemma_apply_preserves_wf(
                self@,
                RegistryCall::Http {
                    call: FrameworkCall::DestroyServer { id },
                },
            );
        }
        match self.find(CapabilityKind::HttpFramework) {
            None => Err(HostError::PermissionDenied { capability: CapabilityKind::HttpFramework }),
            Some(i) => {
                assert(old(self)@.handlers[i as int].wf());
                let r = match &mut self.handlers[i] {
                    Handler::HttpFramework(framework, _) => framework.destroy_server(id),
                    _ => Err(HostError::ResourceUnavailable),
                };
                assert(self@.handlers =~= old(self)@.http(
                        FrameworkCall::DestroyServer { id },
                ).handlers);
                r
            },
        }
    }

    /// The address that the caller is to bind before it starts a server
    /// of the component: see
    /// [`crate::framework::HttpFramework::address_to_bind`]. Denied where
    /// the component does not have the HTTP framework.
    pub fn address_to_bind(&self, id: u64) -> (r: Result<&String, HostError>)
        ensures
            match r {
                Ok(address) => self@.http_result(|f: FrameworkView| f.address_to_bind(id)) == Ok::<
                    Seq<char>,
                    HostError,
                >(address@),
                Err(e) => self@.http_result(|f: FrameworkView| f.address_to_bind(id)) == Err::<
                    Seq<char>,
                    HostError,
                >(e),
            },
    {
        match self.find(CapabilityKind::HttpFramework) {
            None => Err(HostError::PermissionDenied { capability: CapabilityKind::HttpFramework }),
            Some(i) => match &self.handlers[i] {
                Handler::HttpFramework(framework, _) => framework.address_to_bind(id),
                _ => Err(HostError::ResourceUnavailable),
            },
        }
    }

    /// Decides what is done with a request that arrived at a server of
    /// the component: see [`crate::framework::HttpFramework::dispatch`].
    /// Denied where the component does not have the HTTP framework.
    pub fn dispatch(&self, id: u64, event: HttpEventData) -> (r: Result<Dispatch, HostError>)
        ensures
            match r {
                Ok(d) => self@.http_result(|f: FrameworkView| f.dispatch(id, event@)) == Ok::<
                    DispatchView,
                    HostError,
                >(d@),
                Err(e) => self@.http_result(|f: FrameworkView| f.dispatch(id, event@)) == Err::<
                    DispatchView,
                    HostError,
                >(e),
            },
    {
        match self.find(CapabilityKind::HttpFramework) {
            None => Err(HostError::PermissionDenied { capability: CapabilityKind::HttpFramework }),
            Some(i) => match &self.handlers[i] {
                Handler::HttpFramework(framework, _) => framework.dispatch(id, event),
                _ => Err(HostError::ResourceUnavailable),
            },
        }
    }
}

} // verus!
