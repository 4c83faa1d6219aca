//! Capability kinds and the lifecycle every capability goes through.

use vstd::prelude::*;

verus! {

/// One bounded category of host-mediated access that a component can be
/// granted.
#[derive(Clone, Copy, Debug, PartialEq, Eq, Hash, Structural)]
pub enum CapabilityKind {
    MessageServer,
    Environment,
    FileSystem,
    HttpClient,
    HttpFramework,
    Process,
    Runtime,
    Supervisor,
    Store,
    Timing,
    Random,
}

/// The three lifecycle calls a capability receives, in the order in which
/// it receives them.
#[derive(Clone, Copy, Debug, PartialEq, Eq, Hash, Structural)]
pub enum LifecyclePhase {
    /// Registering the capability's host functions with the component that
    /// is being constructed.
    Setup,
    /// Binding the functions that the instantiated component exports.
    BindExports,
    /// Starting the capability's background work.
    Start,
}

/// What the host side of a capability reported for a piece of work that
/// the library asked for.
#[derive(Clone, Copy, Debug, PartialEq, Eq, Hash, Structural)]
pub enum HostOutcome {
    Completed,
    Failed,
}

/// Where a capability stands in its lifecycle.
#[derive(Clone, Copy, Debug, PartialEq, Eq, Hash, Structural)]
pub enum HandlerState {
    /// Built, host functions not yet registered.
    Constructed,
    /// Host functions registered; the component can be instantiated.
    Linked,
    /// The component's exports are bound.
    Bound,
    /// Background work is running.
    Started,
    /// The lifecycle call of the given phase failed; the capability takes
    /// no further calls.
    Failed { during: LifecyclePhase },
    /// The shutdown signal was observed; the capability is never restarted.
    Stopped,
}

impl CapabilityKind {
    /// The stable, human-readable name of the kind.
    pub open spec fn name_spec(self) -> Seq<char> {
        match self {
            CapabilityKind::MessageServer => "message-server"@,
            CapabilityKind::Environment => "environment"@,
            CapabilityKind::FileSystem => "filesystem"@,
            CapabilityKind::HttpClient => "http-client"@,
            CapabilityKind::HttpFramework => "http-framework"@,
            CapabilityKind::Process => "process"@,
            CapabilityKind::Runtime => "runtime"@,
            CapabilityKind::Supervisor => "supervisor"@,
            CapabilityKind::Store => "store"@,
            CapabilityKind::Timing => "timing"@,
            CapabilityKind::Random => "random"@,
        }
    }

    /// The stable, human-readable name of the kind.
    pub fn name(self) -> (r: &'static str)
        ensures
            r@ == self.name_spec(),
    {
        match self {
            CapabilityKind::MessageServer => "message-server",
            CapabilityKind::Environment => "environment",
            CapabilityKind::FileSystem => "filesystem",
            CapabilityKind::HttpClient => "http-client",
            CapabilityKind::HttpFramework => "http-framework",
            CapabilityKind::Process => "process",
            CapabilityKind::Runtime => "runtime",
            CapabilityKind::Supervisor => "supervisor",
            CapabilityKind::Store => "store",
            CapabilityKind::Timing => "timing",
            CapabilityKind::Random => "random",
        }
    }

    /// Whether a component must hold an explicit grant to obtain the
    /// capability. The kinds that touch nothing outside the component's own
    /// sandbox (`Runtime`, `Timing`, `Random`) are ungated by default.
    pub open spec fn requires_grant_spec(self) -> bool {
        !(self is Runtime || self is Timing || self is Random)
    }

    #[verifier::when_used_as_spec(requires_grant_spec)]
    pub fn requires_grant(self) -> (r: bool)
        ensures
            r == self.requires_grant_spec(),
    {
        match self {
            CapabilityKind::Runtime | CapabilityKind::Timing | CapabilityKind::Random => false,
            _ => true,
        }
    }
}

impl LifecyclePhase {
    /// The state a capability must be in to receive the call.
    pub open spec fn source(self) -> HandlerState {
        match self {
            LifecyclePhase::Setup => HandlerState::Constructed,
            LifecyclePhase::BindExports => HandlerState::Linked,
            LifecyclePhase::Start => HandlerState::Bound,
        }
    }

    /// The state a capability is in once the call has completed.
    pub open spec fn target(self) -> HandlerState {
        match self {
            LifecyclePhase::Setup => HandlerState::Linked,
            LifecyclePhase::BindExports => HandlerState::Bound,
            LifecyclePhase::Start => HandlerState::Started,
        }
    }

    /// Whether this phase comes later than another.
    pub open spec fn follows_spec(self, earlier: LifecyclePhase) -> bool {
        match self {
            LifecyclePhase::Setup => false,
            LifecyclePhase::BindExports => earlier is Setup,
            LifecyclePhase::Start => earlier is Setup || earlier is BindExports,
        }
    }

    #[verifier::when_used_as_spec(follows_spec)]
    pub fn follows(self, earlier: LifecyclePhase) -> (r: bool)
        ensures
            r == self.follows_spec(earlier),
    {
        match self {
            LifecyclePhase::Setup => false,
            LifecyclePhase::BindExports => match earlier {
                LifecyclePhase::Setup => true,
                _ => false,
            },
            LifecyclePhase::Start => match earlier {
                LifecyclePhase::Start => false,
                _ => true,
            },
        }
    }

    /// The phase that comes next. `Start` is the last.
    pub open spec fn next_spec(self) -> LifecyclePhase {
        match self {
            LifecyclePhase::Setup => LifecyclePhase::BindExports,
            LifecyclePhase::BindExports => LifecyclePhase::Start,
            LifecyclePhase::Start => LifecyclePhase::Start,
        }
    }

    #[verifier::when_used_as_spec(next_spec)]
    pub fn next(self) -> (r: LifecyclePhase)
        ensures
            r == self.next_spec(),
    {
        match self {
            LifecyclePhase::Setup => LifecyclePhase::BindExports,
            LifecyclePhase::BindExports => LifecyclePhase::Start,
            LifecyclePhase::Start => LifecyclePhase::Start,
        }
    }

    /// The name of the phase in diagnostics.
    pub open spec fn name_spec(self) -> Seq<char> {
        match self {
            LifecyclePhase::Setup => "setup"@,
            LifecyclePhase::BindExports => "export binding"@,
            LifecyclePhase::Start => "start"@,
        }
    }

    /// The name of the phase in diagnostics.
    pub fn name(self) -> (r: &'static str)
        ensures
            r@ == self.name_spec(),
    {
        match self {
            LifecyclePhase::Setup => "setup",
            LifecyclePhase::BindExports => "export binding",
            LifecyclePhase::Start => "start",
        }
    }
}

impl HandlerState {
    /// Whether a capability in this state accepts the given lifecycle call.
    pub open spec fn admits(self, phase: LifecyclePhase) -> bool {
        self == phase.source()
    }

    /// Whether the given lifecycle call has completed for a capability in
    /// this state. A capability that failed has completed the calls
    /// before the one that failed. Of a stopped capability nothing is
    /// known any more: it counts as having completed none.
    pub open spec fn has_completed(self, phase: LifecyclePhase) -> bool {
        match self {
            HandlerState::Constructed => false,
            HandlerState::Linked => phase is Setup,
            HandlerState::Bound => phase is Setup || phase is BindExports,
            HandlerState::Started => true,
            HandlerState::Failed { during } => during.follows(phase),
            HandlerState::Stopped => false,
        }
    }

    /// Whether a capability in this state has received the given
    /// lifecycle call: the call has completed, or it is the one that
    /// failed.
    pub open spec fn has_received(self, phase: LifecyclePhase) -> bool {
        self.has_completed(phase) || self == (HandlerState::Failed { during: phase })
    }

    /// The state after a lifecycle call: a call out of turn changes
    /// nothing, a failed call is final, a completed call moves one step on.
    pub open spec fn after(self, phase: LifecyclePhase, outcome: HostOutcome) -> HandlerState {
        if !self.admits(phase) {
            self
        } else if outcome is Failed {
            HandlerState::Failed { during: phase }
        } else {
            phase.target()
        }
    }

    /// Whether the component can reach the capability's host functions:
    /// they exist once setup has completed and until the capability fails
    /// or stops.
    pub open spec fn reachable_spec(self) -> bool {
        self is Linked || self is Bound || self is Started
    }

    #[verifier::when_used_as_spec(reachable_spec)]
    pub fn reachable(self) -> (r: bool)
        ensures
            r == self.reachable_spec(),
    {
        match self {
            HandlerState::Linked | HandlerState::Bound | HandlerState::Started => true,
            _ => false,
        }
    }

    /// Applies a lifecycle call. Returns whether the call was in turn and
    /// completed, together with the state that follows.
    pub fn advance(self, phase: LifecyclePhase, outcome: HostOutcome) -> (r: (bool, HandlerState))
        ensures
            r.0 == (self.admits(phase) && outcome is Completed),
            r.1 == self.after(phase, outcome),
    {
        let in_turn = match phase {
            LifecyclePhase::Setup => self == HandlerState::Constructed,
            LifecyclePhase::BindExports => self == HandlerState::Linked,
            LifecyclePhase::Start => self == HandlerState::Bound,
        };
        if !in_turn {
            (false, self)
        } else {
            match outcome {
                HostOutcome::Failed => (false, HandlerState::Failed { during: phase }),
                HostOutcome::Completed => match phase {
                    LifecyclePhase::Setup => (true, HandlerState::Linked),
                    LifecyclePhase::BindExports => (true, HandlerState::Bound),
                    LifecyclePhase::Start => (true, HandlerState::Started),
                },
            }
        }
    }
}

/// Host functions follow setup. Before setup they are not reachable.
/// One completed setup makes them reachable, and a second call of setup,
/// whatever its outcome, changes nothing: none is required and none has
/// an effect. Wherever they are reachable, setup has completed.
pub proof fn lemma_host_functions_follow_setup(
    state: HandlerState,
    first: HostOutcome,
    second: HostOutcome,
)
    ensures
        !HandlerState::Constructed.reachable_spec(),
        HandlerState::Constructed.after(
            LifecyclePhase::Setup,
            HostOutcome::Completed,
        ).reachable_spec(),
        !HandlerState::Constructed.after(
            LifecyclePhase::Setup,
            HostOutcome::Failed,
        ).reachable_spec(),
        state.after(LifecyclePhase::Setup, first).after(LifecyclePhase::Setup, second)
            == state.after(LifecyclePhase::Setup, first),
        state.reachable_spec() ==> state.has_completed(LifecyclePhase::Setup),
{
}

/// A capability goes through its lifecycle in order: a lifecycle call
/// takes effect only where every earlier one has completed and the call
/// itself has not been made; and what has completed stays completed
/// through every further lifecycle call.
pub proof fn lemma_lifecycle_in_order(
    state: HandlerState,
    phase: LifecyclePhase,
    outcome: HostOutcome,
    earlier: LifecyclePhase,
)
    ensures
        state.after(phase, outcome) != state ==> !state.has_received(phase),
        state.after(phase, outcome) != state && phase.follows(earlier) ==> state.has_completed(
            earlier,
        ),
        state.has_completed(earlier) ==> state.after(phase, outcome).has_completed(earlier),
        state.after(phase, outcome).has_completed(phase) <==> state.has_completed(phase) || (
        state.admits(phase) && outcome is Completed),
{
}

} // verus!
