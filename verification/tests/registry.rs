use theater::capability::CapabilityKind;
use theater::capability::HandlerState;
use theater::capability::HostOutcome;
use theater::capability::LifecyclePhase;
use theater::error::HostError;
use theater::framework::Dispatch;
use theater::framework::HttpEventData;
use theater::framework::HttpResponse;
use theater::framework::ServerState;
use theater::handler::Handler;
use theater::permissions::FileSystemPermissions;
use theater::permissions::Grant;
use theater::permissions::HttpFrameworkPermissions;
use theater::permissions::PermissionGrants;
use theater::registry::HandlerRegistry;
use theater::registry::RegistryStatus;

const PHASES: [LifecyclePhase; 3] =
    [LifecyclePhase::Setup, LifecyclePhase::BindExports, LifecyclePhase::Start];

fn everything_granted() -> PermissionGrants {
    let mut grants = PermissionGrants::none();
    grants.message_server = Grant::Unrestricted;
    grants.environment = Grant::Unrestricted;
    grants.file_system = Grant::Unrestricted;
    grants.http_client = Grant::Unrestricted;
    grants.http_framework = Grant::Unrestricted;
    grants.process = Grant::Unrestricted;
    grants.runtime = Grant::Unrestricted;
    grants.supervisor = Grant::Unrestricted;
    grants.store = Grant::Unrestricted;
    grants.timing = Grant::Unrestricted;
    grants.random = Grant::Unrestricted;
    grants
}

fn failure(capability: CapabilityKind, phase: LifecyclePhase) -> HostError {
    HostError::LifecyclePhaseFailure { capability, phase }
}

fn report(
    registry: &mut HandlerRegistry,
    phase: LifecyclePhase,
    exports: &Vec<String>,
    outcome: HostOutcome,
) -> Result<(), HostError> {
    match phase {
        LifecyclePhase::Setup => registry.setup_host_functions(outcome),
        LifecyclePhase::BindExports => registry.add_export_functions(exports, outcome),
        LifecyclePhase::Start => registry.start(outcome),
    }
}

/// Runs one phase as a driver does: asks which handler is due, does its
/// work (here: looks the outcome up) and reports it, until nothing is due.
/// Every call made on a host is written to the log.
fn run_phase(
    registry: &mut HandlerRegistry,
    phase: LifecyclePhase,
    exports: &Vec<String>,
    failing: Option<CapabilityKind>,
    log: &mut Vec<(LifecyclePhase, CapabilityKind)>,
) -> Result<(), HostError> {
    while let Some(kind) = registry.due(phase)? {
        log.push((phase, kind));
        let outcome =
            if failing == Some(kind) { HostOutcome::Failed } else { HostOutcome::Completed };
        report(registry, phase, exports, outcome)?;
    }
    Ok(())
}

fn bring_up(registry: &mut HandlerRegistry, exports: &[&str]) {
    let exports: Vec<String> = exports.iter().map(|s| s.to_string()).collect();
    let mut log = Vec::new();
    for phase in PHASES {
        assert_eq!(run_phase(registry, phase, &exports, None, &mut log), Ok(()));
    }
}

fn states(registry: &HandlerRegistry) -> Vec<HandlerState> {
    registry.kinds().iter().map(|k| registry.get(*k).unwrap().state()).collect()
}

fn request(method: &str, path: &str) -> HttpEventData {
    HttpEventData::from_request(method.to_string(), path.to_string(), Vec::new(), Vec::new())
}

#[test]
fn build_keeps_request_order_and_drops_repeats() {
    let requested = vec![
        CapabilityKind::Store,
        CapabilityKind::HttpFramework,
        CapabilityKind::Store,
        CapabilityKind::Random,
        CapabilityKind::HttpFramework,
        CapabilityKind::Environment,
    ];
    let registry = HandlerRegistry::build(&requested, everything_granted()).unwrap();
    assert_eq!(
        registry.kinds(),
        vec![
            CapabilityKind::Store,
            CapabilityKind::HttpFramework,
            CapabilityKind::Random,
            CapabilityKind::Environment
        ]
    );
    assert_eq!(registry.len(), 4);
    assert_eq!(registry.status(), RegistryStatus::Active);
    assert_eq!(states(&registry), vec![HandlerState::Constructed; 4]);
    assert_eq!(registry.get(CapabilityKind::Random).unwrap().kind(), CapabilityKind::Random);
    assert_eq!(registry.get(CapabilityKind::Random).unwrap().name(), "random");
    assert!(registry.get(CapabilityKind::FileSystem).is_none());
}

#[test]
fn build_denies_the_first_kind_without_a_grant() {
    let mut grants = PermissionGrants::none();
    grants.http_framework = Grant::Unrestricted;
    let requested = vec![
        CapabilityKind::Random,
        CapabilityKind::HttpFramework,
        CapabilityKind::Process,
        CapabilityKind::FileSystem,
    ];
    assert_eq!(
        HandlerRegistry::build(&requested, grants).err(),
        Some(HostError::PermissionDenied { capability: CapabilityKind::Process })
    );
}

#[test]
fn build_needs_no_grant_for_ungated_kinds() {
    let requested = vec![CapabilityKind::Timing, CapabilityKind::Runtime, CapabilityKind::Random];
    let registry = HandlerRegistry::build(&requested, PermissionGrants::none()).unwrap();
    assert_eq!(registry.kinds(), requested);
    for kind in [
        CapabilityKind::MessageServer,
        CapabilityKind::Environment,
        CapabilityKind::FileSystem,
        CapabilityKind::HttpClient,
        CapabilityKind::HttpFramework,
        CapabilityKind::Process,
        CapabilityKind::Supervisor,
        CapabilityKind::Store,
    ] {
        assert_eq!(
            HandlerRegistry::build(&vec![kind], PermissionGrants::none()).err(),
            Some(HostError::PermissionDenied { capability: kind })
        );
    }
}

#[test]
fn build_hands_each_handler_its_configuration() {
    let mut grants = PermissionGrants::none();
    grants.file_system = Grant::Configured(FileSystemPermissions {
        allowed_paths: vec!["/tmp".to_string()],
        write: false,
    });
    grants.http_framework = Grant::Unrestricted;
    let requested =
        vec![CapabilityKind::FileSystem, CapabilityKind::HttpFramework, CapabilityKind::FileSystem];
    let registry = HandlerRegistry::build(&requested, grants).unwrap();
    match registry.get(CapabilityKind::FileSystem) {
        Some(Handler::FileSystem(_, Some(p))) => {
            assert_eq!(p.allowed_paths, vec!["/tmp".to_string()]);
            assert!(!p.write);
        }
        _ => panic!("the filesystem handler lost its configuration"),
    }
    assert!(matches!(registry.get(CapabilityKind::HttpFramework), Some(Handler::HttpFramework(_, None))));
}

#[test]
fn ungranted_filesystem_is_denied_without_abort() {
    let mut grants = PermissionGrants::none();
    grants.http_framework = Grant::Unrestricted;
    let mut registry = HandlerRegistry::build(&vec![CapabilityKind::HttpFramework], grants).unwrap();
    bring_up(&mut registry, &[]);

    // The component asks for a filesystem open.
    assert_eq!(
        registry.authorize(CapabilityKind::FileSystem),
        Err(HostError::PermissionDenied { capability: CapabilityKind::FileSystem })
    );
    // The registry goes on serving what was granted.
    assert_eq!(registry.authorize(CapabilityKind::HttpFramework), Ok(()));
    assert_eq!(registry.create_server("127.0.0.1:8080"), Ok(1));
    assert_eq!(registry.status(), RegistryStatus::Active);
}

#[test]
fn lifecycle_runs_phase_by_phase_in_registry_order() {
    let requested =
        vec![CapabilityKind::Timing, CapabilityKind::HttpFramework, CapabilityKind::MessageServer];
    let mut registry = HandlerRegistry::build(&requested, everything_granted()).unwrap();
    let exports = vec!["handle".to_string()];
    let mut log = Vec::new();
    for phase in PHASES {
        assert_eq!(run_phase(&mut registry, phase, &exports, None, &mut log), Ok(()));
    }
    let mut expected = Vec::new();
    for phase in PHASES {
        for kind in &requested {
            expected.push((phase, *kind));
        }
    }
    assert_eq!(log, expected);
    assert_eq!(states(&registry), vec![HandlerState::Started; 3]);
    assert_eq!(registry.status(), RegistryStatus::Active);
    // Every setup precedes every export binding, which precedes every start.
    let last_setup = log.iter().rposition(|(p, _)| *p == LifecyclePhase::Setup).unwrap();
    let first_bind = log.iter().position(|(p, _)| *p == LifecyclePhase::BindExports).unwrap();
    let last_bind = log.iter().rposition(|(p, _)| *p == LifecyclePhase::BindExports).unwrap();
    let first_start = log.iter().position(|(p, _)| *p == LifecyclePhase::Start).unwrap();
    assert!(last_setup < first_bind && last_bind < first_start);
}

#[test]
fn start_is_refused_until_every_handler_is_set_up_and_bound() {
    let requested = vec![CapabilityKind::Timing, CapabilityKind::Random];
    let mut registry = HandlerRegistry::build(&requested, everything_granted()).unwrap();
    let exports: Vec<String> = Vec::new();

    assert_eq!(
        registry.due(LifecyclePhase::Start),
        Err(failure(CapabilityKind::Timing, LifecyclePhase::Start))
    );
    assert_eq!(
        registry.start(HostOutcome::Completed),
        Err(failure(CapabilityKind::Timing, LifecyclePhase::Start))
    );
    assert_eq!(
        registry.add_export_functions(&exports, HostOutcome::Completed),
        Err(failure(CapabilityKind::Timing, LifecyclePhase::BindExports))
    );
    assert_eq!(states(&registry), vec![HandlerState::Constructed; 2]);
    assert_eq!(registry.status(), RegistryStatus::Active);

    // One of two set up: the other is what the later phases wait for.
    assert_eq!(registry.setup_host_functions(HostOutcome::Completed), Ok(()));
    assert_eq!(states(&registry), vec![HandlerState::Linked, HandlerState::Constructed]);
    assert_eq!(registry.due(LifecyclePhase::Setup), Ok(Some(CapabilityKind::Random)));
    assert_eq!(
        registry.due(LifecyclePhase::BindExports),
        Err(failure(CapabilityKind::Random, LifecyclePhase::BindExports))
    );
    assert_eq!(
        registry.start(HostOutcome::Completed),
        Err(failure(CapabilityKind::Random, LifecyclePhase::Start))
    );
    assert_eq!(states(&registry), vec![HandlerState::Linked, HandlerState::Constructed]);

    assert_eq!(registry.setup_host_functions(HostOutcome::Completed), Ok(()));
    assert_eq!(registry.due(LifecyclePhase::Setup), Ok(None));
    assert_eq!(registry.due(LifecyclePhase::BindExports), Ok(Some(CapabilityKind::Timing)));
    assert_eq!(
        registry.start(HostOutcome::Completed),
        Err(failure(CapabilityKind::Timing, LifecyclePhase::Start))
    );

    assert_eq!(registry.add_export_functions(&exports, HostOutcome::Completed), Ok(()));
    assert_eq!(
        registry.start(HostOutcome::Completed),
        Err(failure(CapabilityKind::Random, LifecyclePhase::Start))
    );
    assert_eq!(states(&registry), vec![HandlerState::Bound, HandlerState::Linked]);
    assert_eq!(registry.add_export_functions(&exports, HostOutcome::Completed), Ok(()));

    assert_eq!(registry.due(LifecyclePhase::Start), Ok(Some(CapabilityKind::Timing)));
    assert_eq!(registry.start(HostOutcome::Completed), Ok(()));
    assert_eq!(states(&registry), vec![HandlerState::Started, HandlerState::Bound]);
    assert_eq!(registry.due(LifecyclePhase::Start), Ok(Some(CapabilityKind::Random)));
    assert_eq!(registry.start(HostOutcome::Completed), Ok(()));
    assert_eq!(states(&registry), vec![HandlerState::Started; 2]);
    assert_eq!(registry.due(LifecyclePhase::Start), Ok(None));
}

#[test]
fn completed_phase_needs_and_takes_no_second_call() {
    let requested = vec![CapabilityKind::Store, CapabilityKind::Random];
    let mut registry = HandlerRegistry::build(&requested, everything_granted()).unwrap();
    let exports: Vec<String> = Vec::new();
    let mut log = Vec::new();
    assert_eq!(run_phase(&mut registry, LifecyclePhase::Setup, &exports, None, &mut log), Ok(()));
    assert_eq!(log.len(), 2);

    // A second run of the phase calls no host, and a stray report changes nothing.
    assert_eq!(run_phase(&mut registry, LifecyclePhase::Setup, &exports, None, &mut log), Ok(()));
    assert_eq!(log.len(), 2);
    assert_eq!(registry.setup_host_functions(HostOutcome::Completed), Ok(()));
    assert_eq!(registry.setup_host_functions(HostOutcome::Failed), Ok(()));
    assert_eq!(states(&registry), vec![HandlerState::Linked; 2]);
    assert_eq!(registry.status(), RegistryStatus::Active);

    bring_up(&mut registry, &[]);
    for phase in PHASES {
        assert_eq!(registry.due(phase), Ok(None));
        assert_eq!(report(&mut registry, phase, &exports, HostOutcome::Failed), Ok(()));
    }
    assert_eq!(states(&registry), vec![HandlerState::Started; 2]);
}

#[test]
fn first_failure_ends_the_lifecycle() {
    let requested =
        vec![CapabilityKind::Timing, CapabilityKind::Store, CapabilityKind::Random];
    let exports: Vec<String> = Vec::new();
    for (p, phase) in PHASES.iter().enumerate() {
        let mut registry = HandlerRegistry::build(&requested, everything_granted()).unwrap();
        let mut log = Vec::new();
        for earlier in &PHASES[..p] {
            assert_eq!(run_phase(&mut registry, *earlier, &exports, None, &mut log), Ok(()));
        }
        let expected = Err(failure(CapabilityKind::Store, *phase));
        assert_eq!(
            run_phase(&mut registry, *phase, &exports, Some(CapabilityKind::Store), &mut log),
            expected
        );
        // The handler behind the failed one was never called in this phase.
        assert_eq!(
            log[p * 3..],
            [(*phase, CapabilityKind::Timing), (*phase, CapabilityKind::Store)]
        );
        let before = [HandlerState::Constructed, HandlerState::Linked, HandlerState::Bound][p];
        let after = [HandlerState::Linked, HandlerState::Bound, HandlerState::Started][p];
        assert_eq!(
            states(&registry),
            vec![after, HandlerState::Failed { during: *phase }, before]
        );
        assert_eq!(registry.status(), RegistryStatus::Failed);

        // Nothing more is taken; the failure is what every phase reports.
        for any in PHASES {
            assert_eq!(registry.due(any), expected.map(|_| None));
            assert_eq!(report(&mut registry, any, &exports, HostOutcome::Completed), expected);
        }
        assert_eq!(
            states(&registry),
            vec![after, HandlerState::Failed { during: *phase }, before]
        );

        // Teardown is tolerated in this half-started state.
        registry.shutdown();
        assert_eq!(states(&registry), vec![HandlerState::Stopped; 3]);
    }
}

#[test]
fn empty_registry_has_nothing_to_do() {
    let mut registry = HandlerRegistry::build(&Vec::new(), PermissionGrants::none()).unwrap();
    assert_eq!(registry.len(), 0);
    assert!(registry.kinds().is_empty());
    let exports: Vec<String> = Vec::new();
    for phase in [LifecyclePhase::Start, LifecyclePhase::Setup, LifecyclePhase::BindExports] {
        assert_eq!(registry.due(phase), Ok(None));
        assert_eq!(report(&mut registry, phase, &exports, HostOutcome::Failed), Ok(()));
    }
    assert_eq!(registry.status(), RegistryStatus::Active);
    assert_eq!(
        registry.authorize(CapabilityKind::Random),
        Err(HostError::PermissionDenied { capability: CapabilityKind::Random })
    );
    registry.shutdown();
    assert_eq!(registry.status(), RegistryStatus::ShutDown);
    assert_eq!(registry.due(LifecyclePhase::Setup), Err(HostError::ResourceUnavailable));
}

#[test]
fn calls_are_authorized_only_between_setup_and_stop() {
    let requested = vec![CapabilityKind::Store, CapabilityKind::Random];
    let mut registry = HandlerRegistry::build(&requested, everything_granted()).unwrap();
    assert_eq!(registry.authorize(CapabilityKind::Store), Err(HostError::ResourceUnavailable));
    assert_eq!(registry.authorize(CapabilityKind::Random), Err(HostError::ResourceUnavailable));
    assert_eq!(registry.setup_host_functions(HostOutcome::Completed), Ok(()));
    assert_eq!(registry.authorize(CapabilityKind::Store), Ok(()));
    assert_eq!(registry.authorize(CapabilityKind::Random), Err(HostError::ResourceUnavailable));
    assert_eq!(registry.setup_host_functions(HostOutcome::Completed), Ok(()));
    assert_eq!(registry.authorize(CapabilityKind::Random), Ok(()));
    bring_up(&mut registry, &[]);
    assert_eq!(registry.authorize(CapabilityKind::Store), Ok(()));
    assert_eq!(
        registry.authorize(CapabilityKind::Timing),
        Err(HostError::PermissionDenied { capability: CapabilityKind::Timing })
    );
    registry.shutdown();
    assert_eq!(registry.authorize(CapabilityKind::Store), Err(HostError::ResourceUnavailable));
    assert_eq!(registry.authorize(CapabilityKind::Random), Err(HostError::ResourceUnavailable));
}

#[test]
fn failed_capability_authorizes_nothing() {
    let requested = vec![CapabilityKind::Store, CapabilityKind::Random];
    let mut registry = HandlerRegistry::build(&requested, everything_granted()).unwrap();
    assert_eq!(registry.setup_host_functions(HostOutcome::Completed), Ok(()));
    assert!(registry.setup_host_functions(HostOutcome::Failed).is_err());
    assert_eq!(registry.authorize(CapabilityKind::Store), Ok(()));
    assert_eq!(registry.authorize(CapabilityKind::Random), Err(HostError::ResourceUnavailable));
}

#[test]
fn shutdown_is_final_and_idempotent() {
    let requested = vec![CapabilityKind::HttpFramework, CapabilityKind::Timing];
    let mut registry = HandlerRegistry::build(&requested, everything_granted()).unwrap();
    bring_up(&mut registry, &["ping"]);
    assert_eq!(registry.create_server("127.0.0.1:8080"), Ok(1));
    assert_eq!(registry.register_route(1, "GET", "/ping", "ping"), Ok(()));
    assert_eq!(registry.start_server(1, HostOutcome::Completed), Ok(()));
    let in_flight = match registry.dispatch(1, request("GET", "/ping")) {
        Ok(Dispatch::Invoke { export: 0, event }) => event,
        other => panic!("expected a call of export 0, got {:?}", other),
    };

    registry.shutdown();
    assert_eq!(registry.status(), RegistryStatus::ShutDown);
    assert_eq!(states(&registry), vec![HandlerState::Stopped; 2]);
    match registry.get(CapabilityKind::HttpFramework) {
        Some(Handler::HttpFramework(framework, _)) => {
            assert_eq!(framework.server_state(1), Some(ServerState::Stopped))
        }
        _ => panic!("the registry lost its framework"),
    }
    let done = in_flight.complete(Some(HttpResponse { status: 200, headers: Vec::new(), body: b"pong".to_vec() }));
    assert_eq!(done.response().unwrap().body, b"pong".to_vec());
    assert_eq!(registry.dispatch(1, request("GET", "/ping")).err(), Some(HostError::ResourceUnavailable));
    assert_eq!(registry.create_server("127.0.0.1:8081"), Err(HostError::ResourceUnavailable));

    let exports: Vec<String> = Vec::new();
    for phase in PHASES {
        assert_eq!(registry.due(phase), Err(HostError::ResourceUnavailable));
        assert_eq!(
            report(&mut registry, phase, &exports, HostOutcome::Completed),
            Err(HostError::ResourceUnavailable)
        );
    }
    registry.shutdown();
    assert_eq!(registry.status(), RegistryStatus::ShutDown);
    assert_eq!(states(&registry), vec![HandlerState::Stopped; 2]);
}

#[test]
fn http_calls_are_denied_without_the_framework() {
    let mut registry =
        HandlerRegistry::build(&vec![CapabilityKind::Random], PermissionGrants::none()).unwrap();
    bring_up(&mut registry, &[]);
    let denied = HostError::PermissionDenied { capability: CapabilityKind::HttpFramework };
    assert_eq!(registry.create_server("a"), Err(denied));
    assert_eq!(registry.register_route(1, "GET", "/", "h"), Err(denied));
    assert_eq!(registry.start_server(1, HostOutcome::Completed), Err(denied));
    assert_eq!(registry.stop_server(1), Err(denied));
    assert_eq!(registry.destroy_server(1), Err(denied));
    assert_eq!(registry.dispatch(1, request("GET", "/")).err(), Some(denied));
    assert_eq!(states(&registry), vec![HandlerState::Started]);
}

#[test]
fn registry_serves_http_through_its_framework() {
    let mut grants = PermissionGrants::none();
    grants.http_framework = Grant::Configured(HttpFrameworkPermissions {
        allowed_addresses: vec!["127.0.0.1:8080".to_string()],
    });
    let requested = vec![CapabilityKind::Random, CapabilityKind::HttpFramework];
    let mut registry = HandlerRegistry::build(&requested, grants).unwrap();

    // Before setup the host functions are out of reach.
    assert_eq!(registry.create_server("127.0.0.1:8080"), Err(HostError::ResourceUnavailable));
    bring_up(&mut registry, &["other", "ping"]);

    assert_eq!(
        registry.create_server("0.0.0.0:80"),
        Err(HostError::PermissionDenied { capability: CapabilityKind::HttpFramework })
    );
    assert_eq!(registry.create_server("127.0.0.1:8080"), Ok(1));
    assert_eq!(registry.register_route(1, "GET", "/ping", "ping"), Ok(()));
    assert_eq!(registry.register_route(2, "GET", "/ping", "ping"), Err(HostError::ResourceUnavailable));
    assert_eq!(registry.start_server(1, HostOutcome::Completed), Ok(()));
    assert!(matches!(
        registry.dispatch(1, request("GET", "/ping")),
        Ok(Dispatch::Invoke { export: 1, .. })
    ));
    match registry.dispatch(1, request("GET", "/missing")) {
        Ok(Dispatch::Respond(event)) => assert_eq!(event.response().unwrap().status, 404),
        other => panic!("expected a 404, got {:?}", other),
    }
    assert_eq!(registry.stop_server(1), Ok(()));
    assert_eq!(registry.stop_server(1), Ok(()));
    assert_eq!(registry.dispatch(1, request("GET", "/ping")).err(), Some(HostError::ResourceUnavailable));
    assert_eq!(registry.destroy_server(1), Ok(()));
    assert_eq!(registry.destroy_server(1), Err(HostError::ResourceUnavailable));
    assert_eq!(states(&registry), vec![HandlerState::Started; 2]);
}

#[test]
fn whole_phases_bring_a_component_up() {
    let requested =
        vec![CapabilityKind::HttpFramework, CapabilityKind::Store, CapabilityKind::Random];
    let mut registry = HandlerRegistry::build(&requested, everything_granted()).unwrap();
    let done = vec![HostOutcome::Completed; 3];
    assert_eq!(registry.setup_all(&done), Ok(()));
    assert_eq!(states(&registry), vec![HandlerState::Linked; 3]);
    assert_eq!(registry.bind_exports(&vec!["ping".to_string()], &done), Ok(()));
    assert_eq!(states(&registry), vec![HandlerState::Bound; 3]);
    assert_eq!(registry.start_all(&done), Ok(()));
    assert_eq!(states(&registry), vec![HandlerState::Started; 3]);
    assert_eq!(registry.status(), RegistryStatus::Active);

    // The export names reached the framework.
    assert_eq!(registry.create_server("a"), Ok(1));
    assert_eq!(registry.register_route(1, "GET", "/ping", "ping"), Ok(()));
    assert_eq!(registry.start_server(1, HostOutcome::Completed), Ok(()));
    assert!(matches!(
        registry.dispatch(1, request("GET", "/ping")),
        Ok(Dispatch::Invoke { export: 0, .. })
    ));

    // Run again, a completed phase takes nothing, not even failures.
    let failed = vec![HostOutcome::Failed; 3];
    assert_eq!(registry.setup_all(&failed), Ok(()));
    assert_eq!(registry.bind_exports(&Vec::new(), &failed), Ok(()));
    assert_eq!(registry.start_all(&failed), Ok(()));
    assert_eq!(states(&registry), vec![HandlerState::Started; 3]);
}

#[test]
fn start_all_is_refused_before_setup_all_has_completed() {
    let requested = vec![CapabilityKind::Store, CapabilityKind::Random];
    let done = vec![HostOutcome::Completed; 2];
    let exports: Vec<String> = Vec::new();

    let mut registry = HandlerRegistry::build(&requested, everything_granted()).unwrap();
    assert_eq!(registry.start_all(&done), Err(failure(CapabilityKind::Store, LifecyclePhase::Start)));
    assert_eq!(
        registry.bind_exports(&exports, &done),
        Err(failure(CapabilityKind::Store, LifecyclePhase::BindExports))
    );
    assert_eq!(states(&registry), vec![HandlerState::Constructed; 2]);

    // Setup for one handler only: still refused, and no handler is started.
    assert_eq!(
        registry.setup_all(&vec![HostOutcome::Completed]),
        Err(failure(CapabilityKind::Random, LifecyclePhase::Setup))
    );
    assert_eq!(registry.status(), RegistryStatus::Active);
    assert_eq!(registry.start_all(&done), Err(failure(CapabilityKind::Random, LifecyclePhase::Start)));
    assert_eq!(states(&registry), vec![HandlerState::Linked, HandlerState::Constructed]);

    // The rest of the setup, then the phases in order.
    assert_eq!(registry.setup_all(&vec![HostOutcome::Completed]), Ok(()));
    assert_eq!(registry.start_all(&done), Err(failure(CapabilityKind::Store, LifecyclePhase::Start)));
    assert_eq!(states(&registry), vec![HandlerState::Linked; 2]);
    assert_eq!(registry.bind_exports(&exports, &done), Ok(()));
    assert_eq!(registry.start_all(&done), Ok(()));
    assert_eq!(states(&registry), vec![HandlerState::Started; 2]);
}

#[test]
fn whole_phase_stops_at_the_first_failure() {
    let requested =
        vec![CapabilityKind::Timing, CapabilityKind::Store, CapabilityKind::Random];
    let mut registry = HandlerRegistry::build(&requested, everything_granted()).unwrap();
    let outcomes = vec![HostOutcome::Completed, HostOutcome::Failed, HostOutcome::Completed];
    let expected = Err(failure(CapabilityKind::Store, LifecyclePhase::Setup));
    assert_eq!(registry.setup_all(&outcomes), expected);
    assert_eq!(
        states(&registry),
        vec![
            HandlerState::Linked,
            HandlerState::Failed { during: LifecyclePhase::Setup },
            HandlerState::Constructed
        ]
    );
    assert_eq!(registry.status(), RegistryStatus::Failed);
    assert_eq!(registry.setup_all(&vec![HostOutcome::Completed; 3]), expected);
    assert_eq!(registry.bind_exports(&Vec::new(), &vec![HostOutcome::Completed; 3]), expected);
    assert_eq!(registry.start_all(&vec![HostOutcome::Completed; 3]), expected);
    assert_eq!(registry.status(), RegistryStatus::Failed);
}

#[test]
fn whole_phase_takes_no_more_outcomes_than_handlers() {
    let requested = vec![CapabilityKind::Timing, CapabilityKind::Random];
    let mut registry = HandlerRegistry::build(&requested, everything_granted()).unwrap();
    // The third outcome is for nobody: it is not carried over into the next phase.
    let outcomes = vec![HostOutcome::Completed, HostOutcome::Completed, HostOutcome::Failed];
    assert_eq!(registry.setup_all(&outcomes), Ok(()));
    assert_eq!(states(&registry), vec![HandlerState::Linked; 2]);
    assert_eq!(registry.due(LifecyclePhase::BindExports), Ok(Some(CapabilityKind::Timing)));
    assert_eq!(registry.setup_all(&Vec::new()), Ok(()));
    assert_eq!(
        registry.bind_exports(&Vec::new(), &Vec::new()),
        Err(failure(CapabilityKind::Timing, LifecyclePhase::BindExports))
    );
    assert_eq!(registry.status(), RegistryStatus::Active);
}

#[test]
fn registry_tells_the_address_to_bind() {
    let requested = vec![CapabilityKind::HttpFramework];
    let mut registry = HandlerRegistry::build(&requested, everything_granted()).unwrap();
    bring_up(&mut registry, &[]);
    assert_eq!(registry.create_server("[::1]:8080"), Ok(1));
    assert_eq!(registry.address_to_bind(1).map(|s| s.as_str()), Ok("[::1]:8080"));
    assert_eq!(registry.address_to_bind(2), Err(HostError::ResourceUnavailable));

    let other = HandlerRegistry::build(&vec![CapabilityKind::Random], PermissionGrants::none()).unwrap();
    assert_eq!(
        other.address_to_bind(1),
        Err(HostError::PermissionDenied { capability: CapabilityKind::HttpFramework })
    );
}
