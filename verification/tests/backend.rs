//! Backend execution: cold outcome classification, the warm session
//! discipline, startup, health and the small helpers.

use gmail_daemon::cold::{classify_outcome, SpawnOutcome};
use gmail_daemon::error::ErrorKind;
use gmail_daemon::gmail::GmailService;
use gmail_daemon::numeric::u64_to_dec;
use gmail_daemon::paths::{cli_path_candidates, select_existing};
use gmail_daemon::value::Value;
use gmail_daemon::warm::{SessionOutcome, WarmExecutor};

#[test]
fn cold_zero_exit_with_json_output_succeeds_verbatim() {
    let outcome = SpawnOutcome::Completed {
        success: true,
        stdout: b"{\"ok\":true}".to_vec(),
        stderr: Vec::new(),
    };
    let out = classify_outcome(outcome).unwrap();
    assert_eq!(out, b"{\"ok\":true}".to_vec());
    let doc: serde_json::Value = serde_json::from_slice(&out).unwrap();
    assert_eq!(doc.get("ok"), Some(&serde_json::Value::Bool(true)));
}

#[test]
fn cold_nonzero_exit_with_error_payload_surfaces_its_message() {
    let outcome = SpawnOutcome::Completed {
        success: false,
        stdout: b"{\"error\":\"boom\"}".to_vec(),
        stderr: b"noise on stderr".to_vec(),
    };
    let err = classify_outcome(outcome).unwrap_err();
    assert_eq!(err.kind, ErrorKind::BackendNonzeroExit);
    assert_eq!(err.message, "boom");
}

#[test]
fn cold_nonzero_exit_without_payload_surfaces_stderr() {
    let outcome = SpawnOutcome::Completed {
        success: false,
        stdout: b"not json at all".to_vec(),
        stderr: b"script blew up".to_vec(),
    };
    let err = classify_outcome(outcome).unwrap_err();
    assert_eq!(err.kind, ErrorKind::BackendNonzeroExit);
    assert_eq!(err.message, "script blew up");
}

#[test]
fn cold_nonzero_exit_with_json_but_no_error_field_surfaces_stderr() {
    let outcome = SpawnOutcome::Completed {
        success: false,
        stdout: b"{\"status\":\"bad\"}".to_vec(),
        stderr: b"exit 1".to_vec(),
    };
    let err = classify_outcome(outcome).unwrap_err();
    assert_eq!(err.kind, ErrorKind::BackendNonzeroExit);
    assert_eq!(err.message, "exit 1");
}

#[test]
fn cold_zero_exit_with_unparseable_output_fails() {
    let outcome = SpawnOutcome::Completed {
        success: true,
        stdout: b"mailbox ready\n".to_vec(),
        stderr: Vec::new(),
    };
    let err = classify_outcome(outcome).unwrap_err();
    assert_eq!(err.kind, ErrorKind::BackendOutputUnparseable);
}

#[test]
fn cold_spawn_failure_carries_os_error_text() {
    let outcome = SpawnOutcome::FailedToStart("No such file or directory".to_string());
    let err = classify_outcome(outcome).unwrap_err();
    assert_eq!(err.kind, ErrorKind::BackendProcessFailed);
    assert_eq!(err.message, "No such file or directory");
}

#[test]
fn warm_failed_initialization_is_fatal_to_startup() {
    let err = WarmExecutor::new(false).unwrap_err();
    assert_eq!(err.kind, ErrorKind::BackendUnavailable);
}

#[test]
fn warm_invocations_run_one_at_a_time_to_completion() {
    let mut warm = WarmExecutor::new(true).unwrap();
    warm.begin_invocation();
    let out = warm
        .finish_invocation(SessionOutcome::Completed(b"{\"n\":1}".to_vec()))
        .unwrap();
    assert_eq!(out, b"{\"n\":1}".to_vec());
    warm.begin_invocation();
    let err = warm
        .finish_invocation(SessionOutcome::OperationError("bad label".to_string()))
        .unwrap_err();
    assert_eq!(err.kind, ErrorKind::BackendInternalError);
    assert_eq!(err.message, "bad label");
    warm.begin_invocation();
    let _ = warm.finish_invocation(SessionOutcome::Completed(b"null".to_vec()));
}

#[test]
fn warm_fatal_fault_surfaces_and_kills_the_session() {
    let mut warm = WarmExecutor::new(true).unwrap();
    warm.begin_invocation();
    let err = warm
        .finish_invocation(SessionOutcome::Fatal("runtime corrupted".to_string()))
        .unwrap_err();
    assert_eq!(err.kind, ErrorKind::BackendInternalError);
    assert_eq!(err.message, "runtime corrupted");
}

#[test]
fn service_startup_fails_without_the_backend_script() {
    let err = GmailService::new("/nowhere/gmail-cli.py".to_string(), false).unwrap_err();
    assert_eq!(err.kind, ErrorKind::BackendUnavailable);
    assert_eq!(err.message, "Gmail CLI not found at: /nowhere/gmail-cli.py");
}

#[test]
fn service_identity_is_constant() {
    let svc = GmailService::new("/tmp/gmail-cli.py".to_string(), true).unwrap();
    assert_eq!(svc.name(), "gmail");
    assert_eq!(svc.version(), "1.0.0");
    assert_eq!(svc.cli_path().as_str(), "/tmp/gmail-cli.py");
    assert_eq!(gmail_daemon::error::ErrorKind::UnknownMethod.tag(), "unknown_method");
    assert_eq!(gmail_daemon::error::ErrorKind::BackendNonzeroExit.tag(), "backend_nonzero_exit");
}

#[test]
fn on_start_requires_the_runtime() {
    let svc = GmailService::new("/tmp/gmail-cli.py".to_string(), true).unwrap();
    assert!(svc.on_start(true).is_ok());
    let err = svc.on_start(false).unwrap_err();
    assert_eq!(err.kind, ErrorKind::BackendUnavailable);
    assert_eq!(err.message, "Python3 not available");
}

#[test]
fn health_check_reports_the_script_subsystem() {
    let svc = GmailService::new("/tmp/gmail-cli.py".to_string(), true).unwrap();
    let healthy = svc.health_check(true);
    assert_eq!(healthy.len(), 1);
    assert_eq!(healthy[0].0, "gmail_cli");
    assert!(healthy[0].1.ok);
    assert!(healthy[0].1.latency_ms.is_none());
    assert_eq!(healthy[0].1.message.as_deref(), Some("CLI at /tmp/gmail-cli.py"));

    let unhealthy = svc.health_check(false);
    assert!(!unhealthy[0].1.ok);
    assert_eq!(unhealthy[0].1.message.as_deref(), Some("gmail-cli.py not found"));
}

#[test]
fn candidate_paths_are_probed_in_order() {
    let exe = "/opt/daemon".to_string();
    let home = "/home/u".to_string();
    let dev = "/src/proj".to_string();
    let all = cli_path_candidates(Some(&exe), Some(&home), &dev);
    assert_eq!(
        all,
        vec![
            "/opt/daemon/gmail-cli.py",
            "/opt/daemon/scripts/gmail-cli.py",
            "/home/u/.fgp/services/gmail/gmail-cli.py",
            "/src/proj/scripts/gmail-cli.py",
        ]
    );
    let short = cli_path_candidates(None, None, &dev);
    assert_eq!(short, vec!["/src/proj/scripts/gmail-cli.py"]);
}

#[test]
fn first_existing_candidate_wins_and_the_fallback_is_last() {
    assert_eq!(select_existing(&vec![false, true, true, false]), 1);
    assert_eq!(select_existing(&vec![true, false]), 0);
    assert_eq!(select_existing(&vec![false, false, false]), 2);
}

#[test]
fn decimal_rendering_is_exact() {
    assert_eq!(u64_to_dec(0), "0");
    assert_eq!(u64_to_dec(7), "7");
    assert_eq!(u64_to_dec(10), "10");
    assert_eq!(u64_to_dec(12345), "12345");
    assert_eq!(u64_to_dec(u64::MAX), "18446744073709551615");
}

#[test]
fn value_accessors_read_only_their_shape() {
    assert_eq!(Value::Int(5).as_u64(), Some(5));
    assert_eq!(Value::Int(-5).as_u64(), None);
    assert_eq!(Value::Str("5".to_string()).as_u64(), None);
    assert_eq!(Value::Str("hi".to_string()).as_str().map(|s| s.as_str()), Some("hi"));
    assert!(Value::Bool(true).as_str().is_none());
    assert!(Value::Null.as_str().is_none());
    assert!(Value::Composite("[1,2]".to_string()).as_str().is_none());
}
