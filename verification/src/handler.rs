//! The uniform lifecycle wrapper around one capability and its
//! permission configuration.

use vstd::prelude::*;

use crate::capability::CapabilityKind;
use crate::capability::HandlerState;
use crate::capability::HostOutcome;
use crate::capability::LifecyclePhase;
use crate::error::HostError;
use crate::framework::http_framework::HttpFramework;
use crate::framework::model::FrameworkView;
use crate::framework::route::names_view;
use crate::permissions::EnvironmentPermissions;
use crate::permissions::FileSystemPermissions;
use crate::permissions::HttpClientPermissions;
use crate::permissions::HttpFrameworkPermissions;
use crate::permissions::MessageServerPermissions;
use crate::permissions::PermissionGrants;
use crate::permissions::ProcessPermissions;
use crate::permissions::RandomPermissions;
use crate::permissions::RuntimePermissions;
use crate::permissions::StorePermissions;
use crate::permissions::SupervisorPermissions;
use crate::permissions::TimingPermissions;

verus! {

/// What the library holds of a capability whose transport lives with
/// the caller: where it stands in its lifecycle.
#[derive(Debug)]
pub struct CapabilityHost {
    state: HandlerState,
}

impl View for CapabilityHost {
    type V = HandlerState;

    closed spec fn view(&self) -> HandlerState {
        self.state
    }
}

impl CapabilityHost {
    /// A capability as it is built.
    pub fn new() -> (host: CapabilityHost)
        ensures
            host@ == HandlerState::Constructed,
    {
        CapabilityHost { state: HandlerState::Constructed }
    }

    pub fn state(&self) -> (r: HandlerState)
        ensures
            r == self@,
    {
        self.state
    }

    /// Records how the registration of the host functions went. Returns
    /// whether the call was in turn and completed.
    pub fn setup_host_functions(&mut self, outcome: HostOutcome) -> (done: bool)
        ensures
            final(self)@ == old(self)@.after(LifecyclePhase::Setup, outcome),
            done == (old(self)@.admits(LifecyclePhase::Setup) && outcome is Completed),
    {
        let (done, state) = self.state.advance(LifecyclePhase::Setup, outcome);
        self.state = state;
        done
    }

    /// Records how the binding of the component's exports went. Returns
    /// whether the call was in turn and completed.
    pub fn add_export_functions(&mut self, outcome: HostOutcome) -> (done: bool)
        ensures
            final(self)@ == old(self)@.after(LifecyclePhase::BindExports, outcome),
            done == (old(self)@.admits(LifecyclePhase::BindExports) && outcome is Completed),
    {
        let (done, state) = self.state.advance(LifecyclePhase::BindExports, outcome);
        self.state = state;
        done
    }

    /// Records how the start of the background work went. Returns
    /// whether the call was in turn and completed.
    pub fn start(&mut self, outcome: HostOutcome) -> (done: bool)
        ensures
            final(self)@ == old(self)@.after(LifecyclePhase::Start, outcome),
            done == (old(self)@.admits(LifecyclePhase::Start) && outcome is Completed),
    {
        let (done, state) = self.state.advance(LifecyclePhase::Start, outcome);
        self.state = state;
        done
    }

    /// Records that the shutdown signal was observed.
    pub fn shutdown(&mut self)
        ensures
            final(self)@ == HandlerState::Stopped,
    {
        self.state = HandlerState::Stopped;
    }
}

/// One capability of a component, with the configuration it was granted
/// under, if any. The variant is the capability's kind and never
/// changes; without a configuration the capability runs under its own
/// defaults.
#[derive(Debug)]
pub enum Handler {
    MessageServer(CapabilityHost, Option<MessageServerPermissions>),
    Environment(CapabilityHost, Option<EnvironmentPermissions>),
    FileSystem(CapabilityHost, Option<FileSystemPermissions>),
    HttpClient(CapabilityHost, Option<HttpClientPermissions>),
    HttpFramework(HttpFramework, Option<HttpFrameworkPermissions>),
    Process(CapabilityHost, Option<ProcessPermissions>),
    Runtime(CapabilityHost, Option<RuntimePermissions>),
    Supervisor(CapabilityHost, Option<SupervisorPermissions>),
    Store(CapabilityHost, Option<StorePermissions>),
    Timing(CapabilityHost, Option<TimingPermissions>),
    Random(CapabilityHost, Option<RandomPermissions>),
}

/// The configuration that a handler carries, by the kind of its
/// capability. Without a configuration the capability runs under its own
/// defaults.
pub enum Configuration {
    MessageServer(Option<MessageServerPermissions>),
    Environment(Option<EnvironmentPermissions>),
    FileSystem(Option<FileSystemPermissions>),
    HttpClient(Option<HttpClientPermissions>),
    HttpFramework(Option<HttpFrameworkPermissions>),
    Process(Option<ProcessPermissions>),
    Runtime(Option<RuntimePermissions>),
    Supervisor(Option<SupervisorPermissions>),
    Store(Option<StorePermissions>),
    Timing(Option<TimingPermissions>),
    Random(Option<RandomPermissions>),
}

impl Configuration {
    /// The kind of capability that the configuration is for.
    pub open spec fn kind(self) -> CapabilityKind {
        match self {
            Configuration::MessageServer(_) => CapabilityKind::MessageServer,
            Configuration::Environment(_) => CapabilityKind::Environment,
            Configuration::FileSystem(_) => CapabilityKind::FileSystem,
            Configuration::HttpClient(_) => CapabilityKind::HttpClient,
            Configuration::HttpFramework(_) => CapabilityKind::HttpFramework,
            Configuration::Process(_) => CapabilityKind::Process,
            Configuration::Runtime(_) => CapabilityKind::Runtime,
            Configuration::Supervisor(_) => CapabilityKind::Supervisor,
            Configuration::Store(_) => CapabilityKind::Store,
            Configuration::Timing(_) => CapabilityKind::Timing,
            Configuration::Random(_) => CapabilityKind::Random,
        }
    }

    /// The configuration that a handler of a kind gets under a
    /// component's grants: that of the grant of its kind, if it has one.
    pub open spec fn granted(kind: CapabilityKind, grants: PermissionGrants) -> Configuration {
        match kind {
            CapabilityKind::MessageServer => Configuration::MessageServer(
                grants.message_server.config_spec(),
            ),
            CapabilityKind::Environment => Configuration::Environment(
                grants.environment.config_spec(),
            ),
            CapabilityKind::FileSystem => Configuration::FileSystem(
                grants.file_system.config_spec(),
            ),
            CapabilityKind::HttpClient => Configuration::HttpClient(
                grants.http_client.config_spec(),
            ),
            CapabilityKind::HttpFramework => Configuration::HttpFramework(
                grants.http_framework.config_spec(),
            ),
            CapabilityKind::Process => Configuration::Process(grants.process.config_spec()),
            CapabilityKind::Runtime => Configuration::Runtime(grants.runtime.config_spec()),
            CapabilityKind::Supervisor => Configuration::Supervisor(
                grants.supervisor.config_spec(),
            ),
            CapabilityKind::Store => Configuration::Store(grants.store.config_spec()),
            CapabilityKind::Timing => Configuration::Timing(grants.timing.config_spec()),
            CapabilityKind::Random => Configuration::Random(grants.random.config_spec()),
        }
    }
}

/// The mathematical value of a [`Handler`].
pub struct HandlerView {
    /// Where the capability stands in its lifecycle.
    pub state: HandlerState,
    /// The configuration, and with it the kind. Neither ever changes.
    pub configuration: Configuration,
    /// The servers and routes, where the capability is the HTTP
    /// framework.
    pub framework: Option<FrameworkView>,
}

impl HandlerView {
    /// The kind of the capability.
    pub open spec fn kind(self) -> CapabilityKind {
        self.configuration.kind()
    }

    /// What holds of every handler: the HTTP framework, and it alone,
    /// has servers and routes; they are valid, and go through the
    /// lifecycle with the handler.
    pub open spec fn wf(self) -> bool {
        &&& self.framework is Some <==> self.kind() is HttpFramework
        &&& self.framework matches Some(f) ==> f.wf() && f.state == self.state
    }

    /// A handler as it is built for a kind under a component's grants:
    /// nothing registered yet, with the configuration of its grant.
    pub open spec fn fresh(kind: CapabilityKind, grants: PermissionGrants) -> HandlerView {
        HandlerView {
            state: HandlerState::Constructed,
            configuration: Configuration::granted(kind, grants),
            framework: if kind is HttpFramework {
                Some(FrameworkView::new())
            } else {
                None
            },
        }
    }

    /// What a lifecycle call returns: success where the call is in turn
    /// and the host completed it, else the failure of this capability in
    /// this phase.
    pub open spec fn phase_result(self, phase: LifecyclePhase, outcome: HostOutcome) -> Result<
        (),
        HostError,
    > {
        if self.state.admits(phase) && outcome is Completed {
            Ok(())
        } else {
            Err(HostError::LifecyclePhaseFailure { capability: self.kind(), phase })
        }
    }

    /// The handler after a lifecycle call: the same capability under the
    /// same configuration, one step further in its lifecycle, failed,
    /// or, after a call out of turn, as it was. The export names are
    /// those that the component exports; only the binding of exports
    /// reads them.
    pub open spec fn after(
        self,
        phase: LifecyclePhase,
        outcome: HostOutcome,
        exports: Seq<Seq<char>>,
    ) -> HandlerView {
        HandlerView {
            state: self.state.after(phase, outcome),
            framework: match self.framework {
                Some(f) => Some(f.lifecycle(phase, outcome, exports)),
                None => None,
            },
            ..self
        }
    }

    /// The handler after the shutdown signal: stopped for good, the
    /// servers that ran stopped with it.
    pub open spec fn shutdown(self) -> HandlerView {
        HandlerView {
            state: HandlerState::Stopped,
            framework: match self.framework {
                Some(f) => Some(f.shutdown()),
                None => None,
            },
            ..self
        }
    }
}

impl View for Handler {
    type V = HandlerView;

    open spec fn view(&self) -> HandlerView {
        match self {
            Handler::MessageServer(h, p) => HandlerView {
                state: h@,
                configuration: Configuration::MessageServer(*p),
                framework: None,
            },
            Handler::Environment(h, p) => HandlerView {
                state: h@,
                configuration: Configuration::Environment(*p),
                framework: None,
            },
            Handler::FileSystem(h, p) => HandlerView {
                state: h@,
                configuration: Configuration::FileSystem(*p),
                framework: None,
            },
            Handler::HttpClient(h, p) => HandlerView {
                state: h@,
                configuration: Configuration::HttpClient(*p),
                framework: None,
            },
            Handler::HttpFramework(h, p) => HandlerView {
                state: h@.state,
                configuration: Configuration::HttpFramework(*p),
                framework: Some(h@),
            },
            Handler::Process(h, p) => HandlerView {
                state: h@,
                configuration: Configuration::Process(*p),
                framework: None,
            },
            Handler::Runtime(h, p) => HandlerView {
                state: h@,
                configuration: Configuration::Runtime(*p),
                framework: None,
            },
            Handler::Supervisor(h, p) => HandlerView {
                state: h@,
                configuration: Configuration::Supervisor(*p),
                framework: None,
            },
            Handler::Store(h, p) => HandlerView {
                state: h@,
                configuration: Configuration::Store(*p),
                framework: None,
            },
            Handler::Timing(h, p) => HandlerView {
                state: h@,
                configuration: Configuration::Timing(*p),
                framework: None,
            },
            Handler::Random(h, p) => HandlerView {
                state: h@,
                configuration: Configuration::Random(*p),
                framework: None,
            },
        }
    }
}

impl Handler {
    /// What holds of every handler: see [`HandlerView::wf`].
    pub open spec fn wf(&self) -> bool {
        self@.wf()
    }

    /// Builds the handler of a kind for a component with the given
    /// grants, and takes the configuration out of the grant of that
    /// kind. Whether the kind is granted at all is for the caller to
    /// check.
    pub fn build(kind: CapabilityKind, grants: &mut PermissionGrants) -> (handler: Handler)
        ensures
            handler.wf(),
            handler@ == HandlerView::fresh(kind, *old(grants)),
            *final(grants) == old(grants).without_config(kind),
    {
        match kind {
            CapabilityKind::MessageServer => Handler::MessageServer(
                CapabilityHost::new(),
                grants.message_server.take_config(),
            ),
            CapabilityKind::Environment => Handler::Environment(
                CapabilityHost::new(),
                grants.environment.take_config(),
            ),
            CapabilityKind::FileSystem => Handler::FileSystem(
                CapabilityHost::new(),
                grants.file_system.take_config(),
            ),
            CapabilityKind::HttpClient => Handler::HttpClient(
                CapabilityHost::new(),
                grants.http_client.take_config(),
            ),
            CapabilityKind::HttpFramework => Handler::HttpFramework(
                HttpFramework::new(),
                grants.http_framework.take_config(),
            ),
            CapabilityKind::Process => Handler::Process(
                CapabilityHost::new(),
                grants.process.take_config(),
            ),
            CapabilityKind::Runtime => Handler::Runtime(
                CapabilityHost::new(),
                grants.runtime.take_config(),
            ),
            CapabilityKind::Supervisor => Handler::Supervisor(
                CapabilityHost::new(),
                grants.supervisor.take_config(),
            ),
            CapabilityKind::Store => Handler::Store(
                CapabilityHost::new(),
                grants.store.take_config(),
            ),
            CapabilityKind::Timing => Handler::Timing(
                CapabilityHost::new(),
                grants.timing.take_config(),
            ),
            CapabilityKind::Random => Handler::Random(
                CapabilityHost::new(),
                grants.random.take_config(),
            ),
        }
    }

    /// The kind of the capability.
    pub fn kind(&self) -> (r: CapabilityKind)
        ensures
            r == self@.kind(),
    {
        match self {
            Handler::MessageServer(_, _) => CapabilityKind::MessageServer,
            Handler::Environment(_, _) => CapabilityKind::Environment,
            Handler::FileSystem(_, _) => CapabilityKind::FileSystem,
            Handler::HttpClient(_, _) => CapabilityKind::HttpClient,
            Handler::HttpFramework(_, _) => CapabilityKind::HttpFramework,
            Handler::Process(_, _) => CapabilityKind::Process,
            Handler::Runtime(_, _) => CapabilityKind::Runtime,
            Handler::Supervisor(_, _) => CapabilityKind::Supervisor,
            Handler::Store(_, _) => CapabilityKind::Store,
            Handler::Timing(_, _) => CapabilityKind::Timing,
            Handler::Random(_, _) => CapabilityKind::Random,
        }
    }

    /// Where the capability stands in its lifecycle.
    pub fn state(&self) -> (r: HandlerState)
        ensures
            r == self@.state,
    {
        match self {
            Handler::MessageServer(h, _) => h.state(),
            Handler::Environment(h, _) => h.state(),
            Handler::FileSystem(h, _) => h.state(),
            Handler::HttpClient(h, _) => h.state(),
            Handler::HttpFramework(h, _) => h.state(),
            Handler::Process(h, _) => h.state(),
            Handler::Runtime(h, _) => h.state(),
            Handler::Supervisor(h, _) => h.state(),
            Handler::Store(h, _) => h.state(),
            Handler::Timing(h, _) => h.state(),
            Handler::Random(h, _) => h.state(),
        }
    }

    /// Begins the capability's background work: records how the host
    /// fared with it. Succeeds where the exports were bound before and
    /// the host reports that the capability is ready; then the
    /// capability is `Started`. A host failure leaves it `Failed`; a
    /// call out of turn leaves it as it was. Both are reported as the
    /// failure of this capability in the start phase.
    pub fn start(&mut self, outcome: HostOutcome) -> (r: Result<(), HostError>)
        requires
            old(self).wf(),
        ensures
            final(self).wf(),
            final(self)@ == old(self)@.after(LifecyclePhase::Start, outcome, Seq::empty()),
            r == old(self)@.phase_result(LifecyclePhase::Start, outcome),
    {
        let kind = self.kind();
        let done = match self {
            Handler::MessageServer(h, _) => h.start(outcome),
            Handler::Environment(h, _) => h.start(outcome),
            Handler::FileSystem(h, _) => h.start(outcome),
            Handler::HttpClient(h, _) => h.start(outcome),
            Handler::HttpFramework(h, _) => h.start(outcome),
            Handler::Process(h, _) => h.start(outcome),
            Handler::Runtime(h, _) => h.start(outcome),
            Handler::Supervisor(h, _) => h.start(outcome),
            Handler::Store(h, _) => h.start(outcome),
            Handler::Timing(h, _) => h.start(outcome),
            Handler::Random(h, _) => h.start(outcome),
        };
        if done {
            Ok(())
        } else {
            Err(HostError::LifecyclePhaseFailure { capability: kind, phase: LifecyclePhase::Start })
        }
    }

    /// Registers the capability's host functions with the component
    /// under construction: records how the host fared with it. Succeeds
    /// where nothing was registered before and the host reports
    /// success; then the capability is `Linked` and its host functions
    /// are reachable. A host failure leaves it `Failed`; a call out of
    /// turn, such as a second one, leaves it as it was. Both are
    /// reported as the failure of this capability in the setup phase.
    pub fn setup_host_functions(&mut self, outcome: HostOutcome) -> (r: Result<(), HostError>)
        requires
            old(self).wf(),
        ensures
            final(self).wf(),
            final(self)@ == old(self)@.after(LifecyclePhase::Setup, outcome, Seq::empty()),
            r == old(self)@.phase_result(LifecyclePhase::Setup, outcome),
    {
        let kind = self.kind();
        let done = match self {
            Handler::MessageServer(h, _) => h.setup_host_functions(outcome),
            Handler::Environment(h, _) => h.setup_host_functions(outcome),
            Handler::FileSystem(h, _) => h.setup_host_functions(outcome),
            Handler::HttpClient(h, _) => h.setup_host_functions(outcome),
            Handler::HttpFramework(h, _) => h.setup_host_functions(outcome),
            Handler::Process(h, _) => h.setup_host_functions(outcome),
            Handler::Runtime(h, _) => h.setup_host_functions(outcome),
            Handler::Supervisor(h, _) => h.setup_host_functions(outcome),
            Handler::Store(h, _) => h.setup_host_functions(outcome),
            Handler::Timing(h, _) => h.setup_host_functions(outcome),
            Handler::Random(h, _) => h.setup_host_functions(outcome),
        };
        if done {
            Ok(())
        } else {
            Err(HostError::LifecyclePhaseFailure { capability: kind, phase: LifecyclePhase::Setup })
        }
    }

    /// Binds the functions that the instantiated component exports:
    /// records how the host fared with it, given the names of the
    /// exports. Succeeds where the host functions were registered
    /// before and the host reports success; then the capability is
    /// `Bound`, and the HTTP framework has resolved its routes against
    /// the names. A host failure leaves the capability `Failed`; a call
    /// out of turn leaves it as it was. Both are reported as the failure
    /// of this capability in the export-binding phase.
    pub fn add_export_functions(&mut self, exports: &Vec<String>, outcome: HostOutcome) -> (r:
        Result<(), HostError>)
        requires
            old(self).wf(),
        ensures
            final(self).wf(),
            final(self)@ == old(self)@.after(
                LifecyclePhase::BindExports,
                outcome,
                names_view(exports@),
            ),
            r == old(self)@.phase_result(LifecyclePhase::BindExports, outcome),
    {
        let kind = self.kind();
        let done = match self {
            Handler::MessageServer(h, _) => h.add_export_functions(outcome),
            Handler::Environment(h, _) => h.add_export_functions(outcome),
            Handler::FileSystem(h, _) => h.add_export_functions(outcome),
            Handler::HttpClient(h, _) => h.add_export_functions(outcome),
            Handler::HttpFramework(h, _) => h.add_export_functions(exports, outcome),
            Handler::Process(h, _) => h.add_export_functions(outcome),
            Handler::Runtime(h, _) => h.add_export_functions(outcome),
            Handler::Supervisor(h, _) => h.add_export_functions(outcome),
            Handler::Store(h, _) => h.add_export_functions(outcome),
            Handler::Timing(h, _) => h.add_export_functions(outcome),
            Handler::Random(h, _) => h.add_export_functions(outcome),
        };
        if done {
            Ok(())
        } else {
            Err(
                HostError::LifecyclePhaseFailure {
                    capability: kind,
                    phase: LifecyclePhase::BindExports,
                },
            )
        }
    }

    /// The stable, human-readable name of the capability's kind.
    pub fn name(&self) -> (r: &str)
        ensures
            r@ == self@.kind().name_spec(),
    {
        match self {
            Handler::MessageServer(_, _) => "message-server",
            Handler::Environment(_, _) => "environment",
            Handler::FileSystem(_, _) => "filesystem",
            Handler::HttpClient(_, _) => "http-client",
            Handler::HttpFramework(_, _) => "http-framework",
            Handler::Process(_, _) => "process",
            Handler::Runtime(_, _) => "runtime",
            Handler::Supervisor(_, _) => "supervisor",
            Handler::Store(_, _) => "store",
            Handler::Timing(_, _) => "timing",
            Handler::Random(_, _) => "random",
        }
    }

    /// Records that the shutdown signal was observed: the capability is
    /// `Stopped` for good, whatever state it was in, and the servers of
    /// the HTTP framework that ran are stopped. Doing so twice changes
    /// nothing more.
    pub fn shutdown(&mut self)
        requires
            old(self).wf(),
        ensures
            final(self).wf(),
            final(self)@ == old(self)@.shutdown(),
    {
        match self {
            Handler::MessageServer(h, _) => h.shutdown(),
            Handler::Environment(h, _) => h.shutdown(),
            Handler::FileSystem(h, _) => h.shutdown(),
            Handler::HttpClient(h, _) => h.shutdown(),
            Handler::HttpFramework(h, _) => h.shutdown(),
            Handler::Process(h, _) => h.shutdown(),
            Handler::Runtime(h, _) => h.shutdown(),
            Handler::Supervisor(h, _) => h.shutdown(),
            Handler::Store(h, _) => h.shutdown(),
            Handler::Timing(h, _) => h.shutdown(),
            Handler::Random(h, _) => h.shutdown(),
        }
    }
}

} // verus!
