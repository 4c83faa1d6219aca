//! The registry as a mathematical state machine: what a registry is,
//! what each call does to it, and what therefore holds of every run.

use vstd::prelude::*;

use crate::capability::CapabilityKind;
use crate::capability::HandlerState;
use crate::capability::HostOutcome;
use crate::capability::LifecyclePhase;
use crate::error::HostError;
use crate::framework::http_framework::allowed_addresses;
use crate::framework::model::FrameworkCall;
use crate::framework::model::FrameworkView;
use crate::handler::Configuration;
use crate::handler::HandlerView;
use crate::permissions::PermissionGrants;
use crate::search::first;
use crate::search::lemma_first_cases;
use crate::search::lemma_first_is;

verus! {


/// Whether a registry still takes lifecycle calls.
#[derive(Clone, Copy, Debug, PartialEq, Eq, Hash, Structural)]
pub enum RegistryStatus {
    /// The lifecycle goes on.
    Active,
    /// A lifecycle call failed: bringing the component up is over.
    Failed,
    /// The shutdown signal was observed.
    ShutDown,
}

/// The kinds of a request, each once, in the order of their first
/// occurrence.
pub open spec fn distinct(kinds: Seq<CapabilityKind>) -> Seq<CapabilityKind>
    decreases kinds.len(),
{
    if kinds.len() == 0 {
        Seq::empty()
    } else {
        let init = distinct(kinds.drop_last());
        if init.contains(kinds.last()) {
            init
        } else {
            init.push(kinds.last())
        }
    }
}

/// The first kind of a request that a component with the given grants
/// may not have.
pub open spec fn first_denied(requested: Seq<CapabilityKind>, grants: PermissionGrants) -> Option<
    int,
> {
    first(|i: int| !grants.admits_spec(requested[i]), requested.len() as int)
}

/// The mathematical value of a [`HandlerRegistry`].
pub struct RegistryView {
    /// The handlers, in the order in which they were requested.
    pub handlers: Seq<HandlerView>,
    /// The lifecycle phase that is under way.
    pub phase: LifecyclePhase,
    /// How many handlers, from the first on, have completed that phase.
    pub cursor: int,
    pub status: RegistryStatus,
}

/// A call that changes a registry.
pub enum RegistryCall {
    /// The report of a lifecycle call; for the binding of exports, with
    /// the names that the component exports.
    Lifecycle { phase: LifecyclePhase, outcome: HostOutcome, exports: Seq<Seq<char>> },
    /// The shutdown signal was observed.
    Shutdown,
    /// A host function of the HTTP framework.
    Http { call: FrameworkCall },
}

impl RegistryView {
    /// The kinds of the handlers, in order.
    pub open spec fn kinds(self) -> Seq<CapabilityKind> {
        self.handlers.map_values(|h: HandlerView| h.kind())
    }

    /// The position of the handler of a kind.
    pub open spec fn position(self, kind: CapabilityKind) -> Option<int> {
        first(|i: int| self.handlers[i].kind() == kind, self.handlers.len() as int)
    }

    /// The handler of a kind.
    pub open spec fn get(self, kind: CapabilityKind) -> Option<HandlerView> {
        match self.position(kind) {
            Some(i) => Some(self.handlers[i]),
            None => None,
        }
    }

    /// The state that the handler at a position is in, by what the
    /// registry has recorded of the lifecycle.
    pub open spec fn expected_state(self, i: int) -> HandlerState {
        match self.status {
            RegistryStatus::ShutDown => HandlerState::Stopped,
            RegistryStatus::Active => if i < self.cursor {
                self.phase.target()
            } else {
                self.phase.source()
            },
            RegistryStatus::Failed => if i < self.cursor {
                self.phase.target()
            } else if i == self.cursor {
                HandlerState::Failed { during: self.phase }
            } else {
                self.phase.source()
            },
        }
    }

    /// What holds of every registry: the handlers are valid and of
    /// different kinds; a phase is under way that some handler has yet
    /// to complete, unless it is the last one; within that phase the
    /// handlers before the cursor have completed it and those behind
    /// have not received it; after a failure the handler at the cursor
    /// is the one that failed; after shutdown every handler is stopped.
    pub open spec fn wf(self) -> bool {
        &&& forall|i: int| 0 <= i < self.handlers.len() ==> (#[trigger] self.handlers[i]).wf()
        &&& forall|i: int, j: int|
            0 <= i < j < self.handlers.len() ==> (#[trigger] self.handlers[i]).kind() != (
            #[trigger] self.handlers[j]).kind()
        &&& 0 <= self.cursor <= self.handlers.len()
        &&& self.cursor < self.handlers.len() || self.phase is Start
        &&& self.status is Failed ==> self.cursor < self.handlers.len()
        &&& forall|i: int|
            0 <= i < self.handlers.len() ==> (#[trigger] self.handlers[i]).state
                == self.expected_state(i)
    }

    /// A registry as it is built from its handlers: the first phase
    /// under way, nothing done.
    pub open spec fn built(handlers: Seq<HandlerView>) -> RegistryView {
        RegistryView {
            handlers,
            phase: if handlers.len() == 0 {
                LifecyclePhase::Start
            } else {
                LifecyclePhase::Setup
            },
            cursor: 0,
            status: RegistryStatus::Active,
        }
    }

    /// The registry of a component that requests the given kinds under
    /// the given grants: one handler for each kind, in the order of the
    /// request, each as it is built.
    pub open spec fn requested(
        kinds: Seq<CapabilityKind>,
        grants: PermissionGrants,
    ) -> RegistryView {
        Self::built(distinct(kinds).map_values(|k: CapabilityKind| HandlerView::fresh(k, grants)))
    }

    /// Whether every handler has completed a phase.
    pub open spec fn has_completed(self, phase: LifecyclePhase) -> bool {
        self.phase.follows_spec(phase) || (self.phase == phase && self.cursor
            == self.handlers.len())
    }

    /// Which handler is due to receive the call of a phase. Nothing is
    /// due where every handler has completed the phase. A phase is
    /// refused while an earlier one is not complete, with the failure of
    /// the capability that the earlier phase waits for; after a
    /// failure, with that failure; after shutdown altogether.
    pub open spec fn due(self, phase: LifecyclePhase) -> Result<Option<CapabilityKind>, HostError> {
        match self.status {
            RegistryStatus::ShutDown => Err(HostError::ResourceUnavailable),
            RegistryStatus::Failed => Err(
                HostError::LifecyclePhaseFailure {
                    capability: self.handlers[self.cursor].kind(),
                    phase: self.phase,
                },
            ),
            RegistryStatus::Active => if self.has_completed(phase) {
                Ok(None)
            } else if phase == self.phase {
                Ok(Some(self.handlers[self.cursor].kind()))
            } else {
                Err(
                    HostError::LifecyclePhaseFailure {
                        capability: self.handlers[self.cursor].kind(),
                        phase,
                    },
                )
            },
        }
    }

    /// What the report of a lifecycle call returns: the refusal of the
    /// phase, if it is refused; success, if nothing was due or the host
    /// completed the call; else the failure of the capability that was
    /// due.
    pub open spec fn phase_result(self, phase: LifecyclePhase, outcome: HostOutcome) -> Result<
        (),
        HostError,
    > {
        match self.due(phase) {
            Err(e) => Err(e),
            Ok(None) => Ok(()),
            Ok(Some(capability)) => if outcome is Completed {
                Ok(())
            } else {
                Err(HostError::LifecyclePhaseFailure { capability, phase })
            },
        }
    }

    /// The registry after the report of a lifecycle call. Where a
    /// handler was due, that handler has taken the call and no other has
    /// changed; the registry has moved on to the next handler, or to the
    /// next phase after the last handler, or has failed with the
    /// handler. Where none was due, nothing has changed.
    pub open spec fn advance(
        self,
        phase: LifecyclePhase,
        outcome: HostOutcome,
        exports: Seq<Seq<char>>,
    ) -> RegistryView {
        match self.due(phase) {
            Ok(Some(_)) => {
                let handlers = self.handlers.update(
                    self.cursor,
                    self.handlers[self.cursor].after(phase, outcome, exports),
                );
                if outcome is Failed {
                    RegistryView { handlers, status: RegistryStatus::Failed, ..self }
                } else if self.cursor + 1 < self.handlers.len() || phase is Start {
                    RegistryView { handlers, cursor: self.cursor + 1, ..self }
                } else {
                    RegistryView { handlers, phase: phase.next_spec(), cursor: 0, ..self }
                }
            },
            _ => self,
        }
    }

    /// The registry after a whole phase was run over the outcomes that
    /// the hosts reported, the first outcome for the handler that is due
    /// first: the reports are applied one after another for as long as a
    /// handler is due. The run ends with the phase, with the first
    /// failure, or with the outcomes.
    pub open spec fn run(
        self,
        phase: LifecyclePhase,
        outcomes: Seq<HostOutcome>,
        exports: Seq<Seq<char>>,
    ) -> RegistryView
        decreases outcomes.len(),
    {
        if outcomes.len() > 0 && self.due(phase) matches Ok(Some(_)) {
            self.advance(phase, outcomes[0], exports).run(phase, outcomes.drop_first(), exports)
        } else {
            self
        }
    }

    /// Whether a phase stands complete: success where every handler has
    /// completed it; the refusal or the failure, where there is one; and
    /// where a handler is still due, the failure of that capability in
    /// the phase.
    pub open spec fn phase_standing(self, phase: LifecyclePhase) -> Result<(), HostError> {
        match self.due(phase) {
            Err(e) => Err(e),
            Ok(None) => Ok(()),
            Ok(Some(capability)) => Err(HostError::LifecyclePhaseFailure { capability, phase }),
        }
    }

    /// The registry after the shutdown signal: every handler stopped,
    /// the servers of the HTTP framework stopped with it.
    pub open spec fn shutdown(self) -> RegistryView {
        RegistryView {
            handlers: self.handlers.map_values(|h: HandlerView| h.shutdown()),
            status: RegistryStatus::ShutDown,
            ..self
        }
    }

    /// The servers and routes of the component, where it has the HTTP
    /// framework.
    pub open spec fn framework(self) -> Option<FrameworkView> {
        match self.position(CapabilityKind::HttpFramework) {
            Some(i) => self.handlers[i].framework,
            None => None,
        }
    }

    /// The addresses that the configuration of the HTTP framework
    /// allows. Nothing where every address is allowed.
    pub open spec fn allowed_addresses(self) -> Option<Seq<Seq<char>>> {
        match self.position(CapabilityKind::HttpFramework) {
            Some(i) => match self.handlers[i].configuration {
                Configuration::HttpFramework(p) => allowed_addresses(p),
                _ => None,
            },
            None => None,
        }
    }

    /// The registry after a host function of the HTTP framework was
    /// called: the framework has taken the call, and nothing else has
    /// changed. Without the framework nothing changes at all.
    pub open spec fn http(self, call: FrameworkCall) -> RegistryView {
        match self.position(CapabilityKind::HttpFramework) {
            Some(i) if call.is_host_function() && self.handlers[i].framework is Some => {
                let handler = HandlerView {
                    framework: Some(self.handlers[i].framework->0.apply(call)),
                    ..self.handlers[i]
                };
                RegistryView { handlers: self.handlers.update(i, handler), ..self }
            },
            _ => self,
        }
    }

    /// What a host function of the HTTP framework returns: what the
    /// framework says, or a denial where the component does not have the
    /// framework.
    pub open spec fn http_result<T>(
        self,
        of_framework: spec_fn(FrameworkView) -> Result<T, HostError>,
    ) -> Result<T, HostError> {
        match self.framework() {
            Some(f) => of_framework(f),
            None => Err(HostError::PermissionDenied { capability: CapabilityKind::HttpFramework }),
        }
    }

    /// The registry after a call.
    pub open spec fn apply(self, call: RegistryCall) -> RegistryView {
        match call {
            RegistryCall::Lifecycle { phase, outcome, exports } => self.advance(
                phase,
                outcome,
                exports,
            ),
            RegistryCall::Shutdown => self.shutdown(),
            RegistryCall::Http { call } => self.http(call),
        }
    }

    /// Whether the component may call the host functions of a kind. A
    /// capability that the component does not have is denied; one whose
    /// host functions are not registered, or that has failed or
    /// stopped, is unavailable.
    pub open spec fn authorize(self, kind: CapabilityKind) -> Result<(), HostError> {
        match self.position(kind) {
            None => Err(HostError::PermissionDenied { capability: kind }),
            Some(i) => if self.handlers[i].state.reachable_spec() {
                Ok(())
            } else {
                Err(HostError::ResourceUnavailable)
            },
        }
    }
}

/// The kinds of a request, each once: no kind stands twice among them,
/// and they are the kinds that the request names.
pub proof fn lemma_distinct(kinds: Seq<CapabilityKind>)
    ensures
        distinct(kinds).no_duplicates(),
        forall|k: CapabilityKind| distinct(kinds).contains(k) <==> kinds.contains(k),
    decreases kinds.len(),
{
    if kinds.len() > 0 {
        let init = kinds.drop_last();
        let last = kinds.last();
        let before = distinct(init);
        let d = distinct(kinds);
        lemma_distinct(init);
        assert forall|k: CapabilityKind| d.contains(k) <==> kinds.contains(k) by {
            if d.contains(k) {
                let m = choose|m: int| 0 <= m < d.len() && d[m] == k;
                if m < before.len() {
                    assert(before[m] == k);
                    assert(before.contains(k));
                    assert(init.contains(k));
                    let j = choose|j: int| 0 <= j < init.len() && init[j] == k;
                    assert(kinds[j] == k);
                } else {
                    assert(k == last);
                    assert(kinds[kinds.len() - 1] == k);
                }
                assert(kinds.contains(k));
            }
            if kinds.contains(k) {
                let j = choose|j: int| 0 <= j < kinds.len() && kinds[j] == k;
                if j < init.len() {
                    assert(init[j] == k);
                    assert(init.contains(k));
                    assert(before.contains(k));
                    let m = choose|m: int| 0 <= m < before.len() && before[m] == k;
                    assert(d[m] == k);
                } else {
                    assert(k == last);
                    if before.contains(k) {
                        let m = choose|m: int| 0 <= m < before.len() && before[m] == k;
                        assert(d[m] == k);
                    } else {
                        assert(d[d.len() - 1] == k);
                    }
                }
                assert(d.contains(k));
            }
        }
        assert forall|a: int, b: int| 0 <= a < d.len() && 0 <= b < d.len() && a != b implies d[a]
            != d[b] by {
            if a < before.len() && b < before.len() {
                assert(before[a] != before[b]);
            } else if a < before.len() {
                assert(before[a] == d[a]);
                assert(before.contains(d[a]));
            } else if b < before.len() {
                assert(before[b] == d[b]);
                assert(before.contains(d[b]));
            }
        }
    }
}

/// A registry is valid as it is built.
pub proof fn lemma_requested_is_wf(kinds: Seq<CapabilityKind>, grants: PermissionGrants)
    ensures
        RegistryView::requested(kinds, grants).wf(),
        RegistryView::requested(kinds, grants).kinds() == distinct(kinds),
{
    lemma_distinct(kinds);
    let r = RegistryView::requested(kinds, grants);
    assert(r.kinds() =~= distinct(kinds));
}

/// Every call leaves a valid registry valid.
pub proof fn lemma_apply_preserves_wf(r: RegistryView, call: RegistryCall)
    requires
        r.wf(),
    ensures
        r.apply(call).wf(),
{
    let t = r.apply(call);
    match call {
        RegistryCall::Lifecycle { phase, outcome, exports } => {
            if r.due(phase) matches Ok(Some(_)) {
                let h = r.handlers[r.cursor];
                assert(h.wf());
                if let Some(f) = h.framework {
                    crate::framework::model::lemma_apply_preserves_wf(
                        f,
                        FrameworkCall::Lifecycle { phase, outcome, exports },
                    );
                }
                assert forall|i: int| 0 <= i < t.handlers.len() implies (
                #[trigger] t.handlers[i]).wf() by {
                    if i != r.cursor {
                        assert(r.handlers[i].wf());
                    }
                }
                assert forall|i: int, j: int| 0 <= i < j < t.handlers.len() implies (
                #[trigger] t.handlers[i]).kind() != (#[trigger] t.handlers[j]).kind() by {
                    assert(r.handlers[i].kind() != r.handlers[j].kind());
                }
                assert forall|i: int| 0 <= i < t.handlers.len() implies (
                #[trigger] t.handlers[i]).state == t.expected_state(i) by {
                    assert(r.handlers[i].state == r.expected_state(i));
                }
            }
        },
        RegistryCall::Shutdown => {
            assert forall|i: int| 0 <= i < t.handlers.len() implies (
            #[trigger] t.handlers[i]).wf() by {
                assert(r.handlers[i].wf());
                if let Some(f) = r.handlers[i].framework {
                    crate::framework::model::lemma_apply_preserves_wf(f, FrameworkCall::Shutdown);
                }
            }
            assert forall|i: int, j: int| 0 <= i < j < t.handlers.len() implies (
            #[trigger] t.handlers[i]).kind() != (#[trigger] t.handlers[j]).kind() by {
                assert(r.handlers[i].kind() != r.handlers[j].kind());
            }
        },
        RegistryCall::Http { call } => {
            lemma_first_cases(
                |i: int| r.handlers[i].kind() == CapabilityKind::HttpFramework,
                r.handlers.len() as int,
            );
            if let Some(k) = r.position(CapabilityKind::HttpFramework) {
                if call.is_host_function() && r.handlers[k].framework is Some {
                    assert(r.handlers[k].wf());
                    crate::framework::model::lemma_apply_preserves_wf(
                        r.handlers[k].framework->0,
                        call,
                    );
                    assert forall|i: int| 0 <= i < t.handlers.len() implies (
                    #[trigger] t.handlers[i]).wf() by {
                        if i != k {
                            assert(r.handlers[i].wf());
                        }
                    }
                    assert forall|i: int, j: int| 0 <= i < j < t.handlers.len() implies (
                    #[trigger] t.handlers[i]).kind() != (#[trigger] t.handlers[j]).kind() by {
                        assert(r.handlers[i].kind() != r.handlers[j].kind());
                    }
                    assert forall|i: int| 0 <= i < t.handlers.len() implies (
                    #[trigger] t.handlers[i]).state == t.expected_state(i) by {
                        assert(r.handlers[i].state == r.expected_state(i));
                    }
                }
            }
        },
    }
}

/// The phases keep their order across the whole registry: no handler
/// has received the call of a phase unless every handler has completed
/// every earlier phase. In particular no handler is started before all
/// have bound the component's exports, and none binds them before all
/// have registered their host functions.
pub proof fn lemma_phases_in_order(
    r: RegistryView,
    i: int,
    j: int,
    phase: LifecyclePhase,
    earlier: LifecyclePhase,
)
    requires
        r.wf(),
        0 <= i < r.handlers.len(),
        0 <= j < r.handlers.len(),
        phase.follows_spec(earlier),
        r.handlers[i].state.has_received(phase),
    ensures
        r.handlers[j].state.has_completed(earlier),
{
    assert(r.handlers[i].state == r.expected_state(i));
    assert(r.handlers[j].state == r.expected_state(j));
}

/// The handlers take the call of a phase in the order of the registry,
/// and only once the earlier phases are complete: the handler that is
/// due is the first that has not completed the phase; it and those
/// behind it have not received the call; and every handler has
/// completed every earlier phase.
pub proof fn lemma_due_is_next_in_order(r: RegistryView, phase: LifecyclePhase)
    requires
        r.wf(),
        r.due(phase) matches Ok(Some(_)),
    ensures
        0 <= r.cursor < r.handlers.len(),
        r.due(phase) == Ok::<Option<CapabilityKind>, HostError>(
            Some(r.handlers[r.cursor].kind()),
        ),
        forall|i: int| 0 <= i < r.cursor ==> (#[trigger] r.handlers[i]).state.has_completed(phase),
        forall|i: int|
            r.cursor <= i < r.handlers.len() ==> !(#[trigger] r.handlers[i]).state.has_received(
                phase,
            ),
        forall|i: int, earlier: LifecyclePhase|
            0 <= i < r.handlers.len() && phase.follows_spec(earlier)
                ==> #[trigger] r.handlers[i].state.has_completed(earlier),
{
    assert forall|i: int| 0 <= i < r.handlers.len() implies (#[trigger] r.handlers[i]).state
        == r.expected_state(i) by {}
}

/// A lifecycle report takes effect only in order: where it changes the
/// registry at all, it is for the phase under way, it changes the one
/// handler that was due, and every other handler is as it was.
pub proof fn lemma_advance_changes_the_handler_due(
    r: RegistryView,
    phase: LifecyclePhase,
    outcome: HostOutcome,
    exports: Seq<Seq<char>>,
)
    requires
        r.wf(),
    ensures
        r.advance(phase, outcome, exports) != r ==> {
            &&& r.due(phase) matches Ok(Some(_))
            &&& phase == r.phase
            &&& r.status is Active
        },
        r.advance(phase, outcome, exports).handlers.len() == r.handlers.len(),
        forall|i: int|
            0 <= i < r.handlers.len() && i != r.cursor ==> #[trigger] r.advance(
                phase,
                outcome,
                exports,
            ).handlers[i] == r.handlers[i],
        r.has_completed(phase) ==> r.advance(phase, outcome, exports) == r,
{
}

/// The component reaches the host functions of a capability only after
/// that capability's setup: wherever a call is authorized, the
/// component has the capability and its host functions were registered;
/// and a capability that was never set up, or that the component does
/// not have, authorizes nothing.
pub proof fn lemma_calls_need_setup(r: RegistryView, kind: CapabilityKind)
    requires
        r.wf(),
    ensures
        r.authorize(kind) is Ok ==> (r.get(kind) matches Some(h) && h.kind() == kind
            && h.state.has_completed(LifecyclePhase::Setup)),
        r.get(kind) is None ==> r.authorize(kind) == Err::<(), HostError>(
            HostError::PermissionDenied { capability: kind },
        ),
        (r.get(kind) matches Some(h) && !h.state.has_completed(LifecyclePhase::Setup))
            ==> r.authorize(kind) == Err::<(), HostError>(HostError::ResourceUnavailable),
{
    lemma_first_cases(|i: int| r.handlers[i].kind() == kind, r.handlers.len() as int);
}

/// A whole phase leaves a valid registry valid.
pub proof fn lemma_run_preserves_wf(
    r: RegistryView,
    phase: LifecyclePhase,
    outcomes: Seq<HostOutcome>,
    exports: Seq<Seq<char>>,
)
    requires
        r.wf(),
    ensures
        r.run(phase, outcomes, exports).wf(),
    decreases outcomes.len(),
{
    if outcomes.len() > 0 && r.due(phase) matches Ok(Some(_)) {
        lemma_apply_preserves_wf(
            r,
            RegistryCall::Lifecycle { phase, outcome: outcomes[0], exports },
        );
        lemma_run_preserves_wf(
            r.advance(phase, outcomes[0], exports),
            phase,
            outcomes.drop_first(),
            exports,
        );
    }
}

/// A phase does not begin before the earlier phases are complete for
/// every handler: run out of turn, it is refused and calls no handler,
/// whatever outcomes it is given. So no handler is started unless all
/// have completed their setup and bound the component's exports.
pub proof fn lemma_run_waits_for_earlier_phases(
    r: RegistryView,
    phase: LifecyclePhase,
    earlier: LifecyclePhase,
    outcomes: Seq<HostOutcome>,
    exports: Seq<Seq<char>>,
)
    requires
        r.wf(),
        phase.follows_spec(earlier),
        !r.has_completed(earlier),
    ensures
        r.run(phase, outcomes, exports) == r,
        r.phase_standing(phase) is Err,
{
}

/// A phase runs to its end where every host completes: from a registry
/// in which the phase is due, given as many completed outcomes as there
/// are handlers left, every handler has completed the phase afterwards.
pub proof fn lemma_run_completes(
    r: RegistryView,
    phase: LifecyclePhase,
    outcomes: Seq<HostOutcome>,
    exports: Seq<Seq<char>>,
)
    requires
        r.wf(),
        r.status is Active,
        r.phase == phase,
        outcomes.len() >= r.handlers.len() - r.cursor,
        forall|i: int| 0 <= i < outcomes.len() ==> outcomes[i] is Completed,
    ensures
        r.run(phase, outcomes, exports).has_completed(phase),
        r.run(phase, outcomes, exports).phase_standing(phase) is Ok,
        r.run(phase, outcomes, exports).status is Active,
        forall|i: int|
            0 <= i < r.handlers.len() ==> (#[trigger] r.run(
                phase,
                outcomes,
                exports,
            ).handlers[i]).state.has_completed(phase),
    decreases outcomes.len(),
{
    let end = r.run(phase, outcomes, exports);
    lemma_run_preserves_wf(r, phase, outcomes, exports);
    if outcomes.len() > 0 && r.due(phase) matches Ok(Some(_)) {
        let next = r.advance(phase, outcomes[0], exports);
        lemma_apply_preserves_wf(
            r,
            RegistryCall::Lifecycle { phase, outcome: outcomes[0], exports },
        );
        if next.phase == phase {
            lemma_run_completes(next, phase, outcomes.drop_first(), exports);
        } else {
            assert(next.has_completed(phase));
            assert(next.run(phase, outcomes.drop_first(), exports) == next);
        }
    }
    assert(end.has_completed(phase));
    lemma_run_preserves_length(r, phase, outcomes, exports);
    assert forall|i: int| 0 <= i < r.handlers.len() implies (#[trigger] end.handlers[i])
        .state.has_completed(phase) by {
        assert(end.handlers[i].state == end.expected_state(i));
    }
}

/// A whole phase neither adds nor removes a handler, and leaves every
/// handler its kind.
pub proof fn lemma_run_preserves_length(
    r: RegistryView,
    phase: LifecyclePhase,
    outcomes: Seq<HostOutcome>,
    exports: Seq<Seq<char>>,
)
    requires
        r.wf(),
    ensures
        r.run(phase, outcomes, exports).handlers.len() == r.handlers.len(),
        r.run(phase, outcomes, exports).kinds() == r.kinds(),
    decreases outcomes.len(),
{
    if outcomes.len() > 0 && r.due(phase) matches Ok(Some(_)) {
        let next = r.advance(phase, outcomes[0], exports);
        lemma_apply_preserves_wf(
            r,
            RegistryCall::Lifecycle { phase, outcome: outcomes[0], exports },
        );
        lemma_run_preserves_length(next, phase, outcomes.drop_first(), exports);
        assert(next.kinds() =~= r.kinds());
    }
}

/// Where two registries have handlers of the same kinds in the same
/// order, the handler of a kind stands at the same position in both.
pub proof fn lemma_position_by_kinds(a: RegistryView, b: RegistryView, kind: CapabilityKind)
    requires
        a.handlers.len() == b.handlers.len(),
        forall|i: int|
            0 <= i < a.handlers.len() ==> (#[trigger] a.handlers[i]).kind() == b.handlers[i].kind(),
    ensures
        a.position(kind) == b.position(kind),
{
    let in_a = |i: int| a.handlers[i].kind() == kind;
    let in_b = |i: int| b.handlers[i].kind() == kind;
    let len = a.handlers.len() as int;
    lemma_first_cases(in_a, len);
    lemma_first_cases(in_b, len);
    match a.position(kind) {
        Some(i) => {
            assert(in_b(i));
            assert forall|j: int| 0 <= j < i implies !#[trigger] in_b(j) by {
                assert(!in_a(j));
                assert(a.handlers[j].kind() == b.handlers[j].kind());
            }
            lemma_first_is(in_b, len, i);
        },
        None => {
            if let Some(i) = b.position(kind) {
                assert(!in_a(i));
                assert(a.handlers[i].kind() == b.handlers[i].kind());
            }
        },
    }
}

/// What a call does to the HTTP framework of a registry: nothing, or
/// what one call does to the framework itself. The framework is never
/// lost and never swapped for another.
pub proof fn lemma_framework_through_calls(r: RegistryView, call: RegistryCall) -> (through: Option<
    FrameworkCall,
>)
    requires
        r.wf(),
        r.framework() is Some,
    ensures
        r.apply(call).framework() == Some(
            match through {
                Some(c) => r.framework()->0.apply(c),
                None => r.framework()->0,
            },
        ),
{
    let t = r.apply(call);
    let kind = CapabilityKind::HttpFramework;
    lemma_first_cases(|i: int| r.handlers[i].kind() == kind, r.handlers.len() as int);
    let at = r.position(kind)->0;
    assert(r.handlers[at].wf());
    assert forall|i: int| 0 <= i < r.handlers.len() implies (#[trigger] r.handlers[i]).wf() by {}
    match call {
        RegistryCall::Lifecycle { phase, outcome, exports } => {
            if r.due(phase) matches Ok(Some(_)) {
                assert forall|i: int| 0 <= i < r.handlers.len() implies (
                #[trigger] r.handlers[i]).kind() == t.handlers[i].kind() by {}
                lemma_position_by_kinds(r, t, kind);
                if at == r.cursor {
                    Some(FrameworkCall::Lifecycle { phase, outcome, exports })
                } else {
                    None
                }
            } else {
                None
            }
        },
        RegistryCall::Shutdown => {
            assert forall|i: int| 0 <= i < r.handlers.len() implies (
            #[trigger] r.handlers[i]).kind() == t.handlers[i].kind() by {}
            lemma_position_by_kinds(r, t, kind);
            Some(FrameworkCall::Shutdown)
        },
        RegistryCall::Http { call } => {
            if call.is_host_function() {
                assert forall|i: int| 0 <= i < r.handlers.len() implies (
                #[trigger] r.handlers[i]).kind() == t.handlers[i].kind() by {}
                lemma_position_by_kinds(r, t, kind);
                Some(call)
            } else {
                None
            }
        },
    }
}

/// A server of the component that has stopped or was destroyed stays
/// so, whatever is called on the registry afterwards, and no request is
/// routed to it.
pub proof fn lemma_closed_server_stays_closed(r: RegistryView, call: RegistryCall, id: u64)
    requires
        r.wf(),
        r.framework() matches Some(f) && f.is_closed(id),
    ensures
        r.apply(call).framework() matches Some(f) && f.is_closed(id),
{
    let f = r.framework()->0;
    lemma_first_cases(
        |i: int| r.handlers[i].kind() == CapabilityKind::HttpFramework,
        r.handlers.len() as int,
    );
    assert(r.handlers[r.position(CapabilityKind::HttpFramework)->0].wf());
    match lemma_framework_through_calls(r, call) {
        Some(c) => {
            crate::framework::model::lemma_closed_server_stays_closed(f, c, id);
        },
        None => {},
    }
}

} // verus!
