use classifier_core::errors::ErrorKind;
use classifier_core::invoker::InvAction;
use classifier_core::invoker::InvEvent;
use classifier_core::invoker::Invocation;
use classifier_core::invoker::SpawnResult;
use classifier_core::supervisor::Startup;
use classifier_core::supervisor::StartupReport;
use classifier_core::supervisor::SupAction;
use classifier_core::supervisor::SupEvent;

const ROOT: &str = "/app/resources";
const IMAGE: &str = "/tmp/cat.png";
const SCRIPT: &str = "/app/resources/backend/classify_image.py";

fn fresh() -> Invocation {
    Invocation::new(ROOT.to_string(), IMAGE.to_string())
}

fn exited(exit_ok: bool, stdout: &str, stderr: &str) -> InvEvent {
    InvEvent::Spawned {
        result: SpawnResult::Exited {
            exit_ok,
            stdout: stdout.to_string(),
            stderr: stderr.to_string(),
        },
    }
}

fn spawn_failed(detail: &str) -> InvEvent {
    InvEvent::Spawned { result: SpawnResult::Failed { detail: detail.to_string() } }
}

#[test]
fn invocation_happy_path_returns_parsed_result() {
    let mut m = fresh();
    match m.next_action() {
        InvAction::ProbeImage { path } => assert_eq!(path, IMAGE),
        _ => panic!("expected the image probe first"),
    }
    assert!(m.step(InvEvent::FileStatus { exists: true }).is_none());
    match m.next_action() {
        InvAction::ProbeScript { path } => assert_eq!(path, SCRIPT),
        _ => panic!("expected the script probe second"),
    }
    assert!(m.step(InvEvent::FileStatus { exists: true }).is_none());
    match m.next_action() {
        InvAction::Run { launch } => {
            assert_eq!(launch.program, "python3");
            assert_eq!(launch.args, vec![SCRIPT.to_string(), IMAGE.to_string()]);
            assert!(launch.capture);
            assert!(launch.working_dir.is_none());
        },
        _ => panic!("expected the primary launch"),
    }
    let out = "{\"category\":\"cat\",\"confidence\":0.92,\"original_response\":\"cat\"}";
    let r = m.step(exited(true, out, "")).unwrap().unwrap();
    assert_eq!(r.category, "cat");
    assert_eq!(r.confidence.parse::<f64>().unwrap(), 0.92);
    assert_eq!(r.original_response, "cat");
}

#[test]
fn invocation_bare_text_output() {
    let mut m = fresh();
    m.step(InvEvent::FileStatus { exists: true });
    m.step(InvEvent::FileStatus { exists: true });
    let r = m.step(exited(true, "dog\n", "")).unwrap().unwrap();
    assert_eq!(r.category, "dog");
    assert_eq!(r.confidence.parse::<f64>().unwrap(), 0.0);
    assert_eq!(r.original_response, "dog");
}

#[test]
fn invocation_empty_output_is_parse_failure() {
    let mut m = fresh();
    m.step(InvEvent::FileStatus { exists: true });
    m.step(InvEvent::FileStatus { exists: true });
    let e = m.step(exited(true, "", "")).unwrap().unwrap_err();
    assert_eq!(e.kind, ErrorKind::ParseFailed);
}

#[test]
fn invocation_nonzero_exit_is_script_failure() {
    let mut m = fresh();
    m.step(InvEvent::FileStatus { exists: true });
    m.step(InvEvent::FileStatus { exists: true });
    let e = m.step(exited(false, "", "model load error")).unwrap().unwrap_err();
    assert_eq!(e.kind, ErrorKind::ScriptFailed);
    assert!(e.detail.contains("model load error"));
}

#[test]
fn invocation_missing_image_never_launches() {
    let mut m = fresh();
    match m.next_action() {
        InvAction::ProbeImage { .. } => {},
        _ => panic!("the first action must be the image probe, not a launch"),
    }
    let e = m.step(InvEvent::FileStatus { exists: false }).unwrap().unwrap_err();
    assert_eq!(e.kind, ErrorKind::InputNotFound);
    assert_eq!(e.detail, IMAGE);
}

#[test]
fn invocation_missing_script_reports_its_path() {
    let mut m = fresh();
    m.step(InvEvent::FileStatus { exists: true });
    let e = m.step(InvEvent::FileStatus { exists: false }).unwrap().unwrap_err();
    assert_eq!(e.kind, ErrorKind::ScriptNotFound);
    assert_eq!(e.detail, SCRIPT);
}

#[test]
fn invocation_fallback_is_invisible_on_success() {
    let out = "{\"category\":\"cat\",\"confidence\":0.92,\"original_response\":\"cat\"}";

    let mut direct = fresh();
    direct.step(InvEvent::FileStatus { exists: true });
    direct.step(InvEvent::FileStatus { exists: true });
    let direct_result = direct.step(exited(true, out, "")).unwrap().unwrap();

    let mut fallback = fresh();
    fallback.step(InvEvent::FileStatus { exists: true });
    fallback.step(InvEvent::FileStatus { exists: true });
    assert!(fallback.step(spawn_failed("python3: not found")).is_none());
    match fallback.next_action() {
        InvAction::Run { launch } => assert_eq!(launch.program, "python"),
        _ => panic!("expected the fallback launch"),
    }
    let fallback_result = fallback.step(exited(true, out, "")).unwrap().unwrap();

    assert_eq!(direct_result.category, fallback_result.category);
    assert_eq!(direct_result.confidence, fallback_result.confidence);
    assert_eq!(direct_result.original_response, fallback_result.original_response);
}

#[test]
fn invocation_both_spawns_failing_is_launch_failure() {
    let mut m = fresh();
    m.step(InvEvent::FileStatus { exists: true });
    m.step(InvEvent::FileStatus { exists: true });
    assert!(m.step(spawn_failed("python3: not found")).is_none());
    let e = m.step(spawn_failed("python: not found")).unwrap().unwrap_err();
    assert_eq!(e.kind, ErrorKind::LaunchFailed);
    assert_eq!(e.detail, "python: not found");
}

#[test]
fn startup_happy_path_reports_started() {
    let mut s = Startup::new(ROOT.to_string());
    match s.next_action() {
        SupAction::ProbeDir { path } => assert_eq!(path, "/app/resources/backend"),
        _ => panic!("expected the backend directory probe first"),
    }
    assert!(s.step(SupEvent::FileStatus { exists: true }).is_none());
    match s.next_action() {
        SupAction::ProbeScript { path } => {
            assert_eq!(path, "/app/resources/backend/start_backend.sh")
        },
        _ => panic!("expected the startup script probe second"),
    }
    assert!(s.step(SupEvent::FileStatus { exists: true }).is_none());
    match s.next_action() {
        SupAction::Run { launch } => {
            assert_eq!(launch.program, "bash");
            assert_eq!(launch.args, vec!["/app/resources/backend/start_backend.sh".to_string()]);
            assert_eq!(launch.working_dir.as_deref(), Some("/app/resources/backend"));
            assert!(!launch.capture);
        },
        _ => panic!("expected the detached launch"),
    }
    let report = s.step(SupEvent::SpawnStatus { accepted: true, detail: String::new() }).unwrap();
    assert!(matches!(report, StartupReport::Started));
}

#[test]
fn startup_missing_backend_is_only_a_report() {
    let mut s = Startup::new(ROOT.to_string());
    let report = s.step(SupEvent::FileStatus { exists: false }).unwrap();
    match report {
        StartupReport::BackendMissing { detail } => assert_eq!(detail, "/app/resources/backend"),
        _ => panic!("expected the backend-missing report"),
    }
}

#[test]
fn startup_missing_script_is_only_a_report() {
    let mut s = Startup::new(ROOT.to_string());
    s.step(SupEvent::FileStatus { exists: true });
    let report = s.step(SupEvent::FileStatus { exists: false }).unwrap();
    match report {
        StartupReport::StartScriptMissing { detail } => {
            assert_eq!(detail, "/app/resources/backend/start_backend.sh")
        },
        _ => panic!("expected the script-missing report"),
    }
}

#[test]
fn startup_rejected_spawn_is_only_a_report() {
    let mut s = Startup::new(ROOT.to_string());
    s.step(SupEvent::FileStatus { exists: true });
    s.step(SupEvent::FileStatus { exists: true });
    let report = s
        .step(SupEvent::SpawnStatus { accepted: false, detail: "bash: not found".to_string() })
        .unwrap();
    match report {
        StartupReport::SpawnRejected { detail } => assert_eq!(detail, "bash: not found"),
        _ => panic!("expected the spawn-rejected report"),
    }
}
