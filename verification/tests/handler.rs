use theater::capability::CapabilityKind;
use theater::capability::HandlerState;
use theater::capability::HostOutcome;
use theater::capability::LifecyclePhase;
use theater::error::HostError;
use theater::handler::Handler;
use theater::permissions::Grant;
use theater::permissions::HttpClientPermissions;
use theater::permissions::PermissionGrants;

fn all_kinds() -> Vec<(CapabilityKind, &'static str)> {
    vec![
        (CapabilityKind::MessageServer, "message-server"),
        (CapabilityKind::Environment, "environment"),
        (CapabilityKind::FileSystem, "filesystem"),
        (CapabilityKind::HttpClient, "http-client"),
        (CapabilityKind::HttpFramework, "http-framework"),
        (CapabilityKind::Process, "process"),
        (CapabilityKind::Runtime, "runtime"),
        (CapabilityKind::Supervisor, "supervisor"),
        (CapabilityKind::Store, "store"),
        (CapabilityKind::Timing, "timing"),
        (CapabilityKind::Random, "random"),
    ]
}

fn fresh(kind: CapabilityKind) -> Handler {
    let mut grants = PermissionGrants::none();
    Handler::build(kind, &mut grants)
}

fn failure(capability: CapabilityKind, phase: LifecyclePhase) -> HostError {
    HostError::LifecyclePhaseFailure { capability, phase }
}

#[test]
fn handler_names_are_stable() {
    for (kind, name) in all_kinds() {
        let handler = fresh(kind);
        assert_eq!(handler.name(), name);
        assert_eq!(handler.kind(), kind);
        assert_eq!(kind.name(), name);
    }
}

#[test]
fn handler_names_are_all_different() {
    let kinds = all_kinds();
    for (i, (_, a)) in kinds.iter().enumerate() {
        for (j, (_, b)) in kinds.iter().enumerate() {
            if i != j {
                assert_ne!(a, b);
            }
        }
    }
}

#[test]
fn handler_goes_through_its_lifecycle_for_every_kind() {
    let exports: Vec<String> = vec!["handle".to_string()];
    for (kind, _) in all_kinds() {
        let mut handler = fresh(kind);
        assert_eq!(handler.state(), HandlerState::Constructed);
        assert_eq!(handler.setup_host_functions(HostOutcome::Completed), Ok(()));
        assert_eq!(handler.state(), HandlerState::Linked);
        assert_eq!(handler.add_export_functions(&exports, HostOutcome::Completed), Ok(()));
        assert_eq!(handler.state(), HandlerState::Bound);
        assert_eq!(handler.start(HostOutcome::Completed), Ok(()));
        assert_eq!(handler.state(), HandlerState::Started);
        assert_eq!(handler.kind(), kind);
    }
}

#[test]
fn handler_second_setup_is_refused_and_changes_nothing() {
    let mut handler = fresh(CapabilityKind::Store);
    assert_eq!(handler.setup_host_functions(HostOutcome::Completed), Ok(()));
    assert_eq!(
        handler.setup_host_functions(HostOutcome::Completed),
        Err(failure(CapabilityKind::Store, LifecyclePhase::Setup))
    );
    assert_eq!(handler.state(), HandlerState::Linked);
    assert_eq!(
        handler.setup_host_functions(HostOutcome::Failed),
        Err(failure(CapabilityKind::Store, LifecyclePhase::Setup))
    );
    assert_eq!(handler.state(), HandlerState::Linked);
}

#[test]
fn handler_calls_out_of_turn_are_refused() {
    let exports: Vec<String> = Vec::new();
    let mut handler = fresh(CapabilityKind::Timing);
    assert_eq!(
        handler.start(HostOutcome::Completed),
        Err(failure(CapabilityKind::Timing, LifecyclePhase::Start))
    );
    assert_eq!(
        handler.add_export_functions(&exports, HostOutcome::Completed),
        Err(failure(CapabilityKind::Timing, LifecyclePhase::BindExports))
    );
    assert_eq!(handler.state(), HandlerState::Constructed);
    assert_eq!(handler.setup_host_functions(HostOutcome::Completed), Ok(()));
    assert_eq!(
        handler.start(HostOutcome::Completed),
        Err(failure(CapabilityKind::Timing, LifecyclePhase::Start))
    );
    assert_eq!(handler.state(), HandlerState::Linked);
}

#[test]
fn handler_host_failure_is_reported_not_raised() {
    let exports: Vec<String> = Vec::new();

    let mut handler = fresh(CapabilityKind::Process);
    assert_eq!(
        handler.setup_host_functions(HostOutcome::Failed),
        Err(failure(CapabilityKind::Process, LifecyclePhase::Setup))
    );
    assert_eq!(handler.state(), HandlerState::Failed { during: LifecyclePhase::Setup });

    let mut handler = fresh(CapabilityKind::Supervisor);
    assert_eq!(handler.setup_host_functions(HostOutcome::Completed), Ok(()));
    assert_eq!(
        handler.add_export_functions(&exports, HostOutcome::Failed),
        Err(failure(CapabilityKind::Supervisor, LifecyclePhase::BindExports))
    );
    assert_eq!(handler.state(), HandlerState::Failed { during: LifecyclePhase::BindExports });

    let mut handler = fresh(CapabilityKind::MessageServer);
    assert_eq!(handler.setup_host_functions(HostOutcome::Completed), Ok(()));
    assert_eq!(handler.add_export_functions(&exports, HostOutcome::Completed), Ok(()));
    assert_eq!(
        handler.start(HostOutcome::Failed),
        Err(failure(CapabilityKind::MessageServer, LifecyclePhase::Start))
    );
    assert_eq!(handler.state(), HandlerState::Failed { during: LifecyclePhase::Start });
    assert_eq!(
        handler.start(HostOutcome::Completed),
        Err(failure(CapabilityKind::MessageServer, LifecyclePhase::Start))
    );
    assert_eq!(handler.state(), HandlerState::Failed { during: LifecyclePhase::Start });
}

#[test]
fn handler_shutdown_is_final_from_any_state() {
    let exports: Vec<String> = Vec::new();
    for steps in 0..4 {
        let mut handler = fresh(CapabilityKind::Environment);
        if steps > 0 {
            assert_eq!(handler.setup_host_functions(HostOutcome::Completed), Ok(()));
        }
        if steps > 1 {
            assert_eq!(handler.add_export_functions(&exports, HostOutcome::Completed), Ok(()));
        }
        if steps > 2 {
            assert_eq!(handler.start(HostOutcome::Completed), Ok(()));
        }
        handler.shutdown();
        assert_eq!(handler.state(), HandlerState::Stopped);
        handler.shutdown();
        assert_eq!(handler.state(), HandlerState::Stopped);
        assert!(handler.setup_host_functions(HostOutcome::Completed).is_err());
        assert!(handler.add_export_functions(&exports, HostOutcome::Completed).is_err());
        assert!(handler.start(HostOutcome::Completed).is_err());
        assert_eq!(handler.state(), HandlerState::Stopped);
    }
}

#[test]
fn host_functions_are_reachable_only_between_setup_and_stop() {
    assert!(!HandlerState::Constructed.reachable());
    assert!(HandlerState::Linked.reachable());
    assert!(HandlerState::Bound.reachable());
    assert!(HandlerState::Started.reachable());
    assert!(!HandlerState::Stopped.reachable());
    assert!(!HandlerState::Failed { during: LifecyclePhase::Setup }.reachable());
    assert!(!HandlerState::Failed { during: LifecyclePhase::Start }.reachable());
}

#[test]
fn handler_state_advance_table() {
    let phases = [LifecyclePhase::Setup, LifecyclePhase::BindExports, LifecyclePhase::Start];
    let path =
        [HandlerState::Constructed, HandlerState::Linked, HandlerState::Bound, HandlerState::Started];
    for (at, state) in path.iter().enumerate() {
        for (p, phase) in phases.iter().enumerate() {
            let (done, next) = state.advance(*phase, HostOutcome::Completed);
            let (failed_done, failed_next) = state.advance(*phase, HostOutcome::Failed);
            assert!(!failed_done);
            if p == at {
                assert!(done);
                assert_eq!(next, path[at + 1]);
                assert_eq!(failed_next, HandlerState::Failed { during: *phase });
            } else {
                assert!(!done);
                assert_eq!(next, *state);
                assert_eq!(failed_next, *state);
            }
        }
    }
}

#[test]
fn phases_follow_one_another() {
    assert_eq!(LifecyclePhase::Setup.next(), LifecyclePhase::BindExports);
    assert_eq!(LifecyclePhase::BindExports.next(), LifecyclePhase::Start);
    assert_eq!(LifecyclePhase::Start.next(), LifecyclePhase::Start);
    assert!(LifecyclePhase::Start.follows(LifecyclePhase::Setup));
    assert!(LifecyclePhase::Start.follows(LifecyclePhase::BindExports));
    assert!(LifecyclePhase::BindExports.follows(LifecyclePhase::Setup));
    assert!(!LifecyclePhase::Setup.follows(LifecyclePhase::Setup));
    assert!(!LifecyclePhase::Setup.follows(LifecyclePhase::Start));
    assert!(!LifecyclePhase::BindExports.follows(LifecyclePhase::Start));
    assert!(!LifecyclePhase::Start.follows(LifecyclePhase::Start));
}

#[test]
fn handler_carries_the_configuration_of_its_grant() {
    let mut grants = PermissionGrants::none();
    grants.http_client = Grant::Configured(HttpClientPermissions {
        allowed_hosts: vec!["example.org".to_string()],
    });
    grants.random = Grant::Unrestricted;

    let handler = Handler::build(CapabilityKind::HttpClient, &mut grants);
    match &handler {
        Handler::HttpClient(_, Some(p)) => {
            assert_eq!(p.allowed_hosts, vec!["example.org".to_string()])
        }
        _ => panic!("the handler lost its configuration"),
    }
    assert!(grants.granted(CapabilityKind::HttpClient));

    let handler = Handler::build(CapabilityKind::Random, &mut grants);
    assert!(matches!(handler, Handler::Random(_, None)));
    assert!(grants.granted(CapabilityKind::Random));
    assert!(!grants.granted(CapabilityKind::Store));
}

#[test]
fn error_messages_name_capability_and_phase() {
    assert_eq!(
        HostError::PermissionDenied { capability: CapabilityKind::FileSystem }.message(),
        "permission denied: filesystem"
    );
    assert_eq!(
        failure(CapabilityKind::HttpFramework, LifecyclePhase::Setup).message(),
        "lifecycle failure: http-framework during setup"
    );
    assert_eq!(
        failure(CapabilityKind::Store, LifecyclePhase::BindExports).message(),
        "lifecycle failure: store during export binding"
    );
    assert_eq!(
        failure(CapabilityKind::Random, LifecyclePhase::Start).message(),
        "lifecycle failure: random during start"
    );
    assert_eq!(HostError::RouteNotFound.message(), "route not found");
    assert_eq!(HostError::HandlerInvocationFailure.message(), "handler invocation failed");
    assert_eq!(HostError::ResourceUnavailable.message(), "resource unavailable");
}

#[test]
fn only_harmless_kinds_need_no_grant() {
    for (kind, _) in all_kinds() {
        let ungated = matches!(
            kind,
            CapabilityKind::Runtime | CapabilityKind::Timing | CapabilityKind::Random
        );
        assert_eq!(kind.requires_grant(), !ungated);
        assert_eq!(PermissionGrants::none().admits(kind), ungated);
    }
}
