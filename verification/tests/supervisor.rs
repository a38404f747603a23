use baker_link_env::supervisor::{
    DapServerStatus, ProbeRsDapServer, StartAction, StartError, is_duplicate_instance,
    probe_version_line,
};

#[test]
fn fresh_supervisor_is_stopped_on_the_default_port() {
    let sup = ProbeRsDapServer::default();
    assert_eq!(sup.port, "50001");
    assert_eq!(sup.status(), DapServerStatus::Stopped);
}

#[test]
fn start_validates_the_port_and_records_it() {
    let mut sup = ProbeRsDapServer::default();
    let r = sup.start(true);
    assert_eq!(r, Ok(StartAction::SpawnBackend(50001)));
    assert_eq!(sup.status(), DapServerStatus::Running(50001));
}

#[test]
fn start_while_running_is_a_no_op() {
    let mut sup = ProbeRsDapServer::default();
    let mut backends_spawned = 0;
    for _ in 0..2 {
        if let Ok(StartAction::SpawnBackend(_)) = sup.start(true) {
            backends_spawned += 1;
        }
    }
    assert_eq!(backends_spawned, 1);
    assert_eq!(sup.status(), DapServerStatus::Running(50001));
    assert_eq!(sup.port, "50001");
}

#[test]
fn editing_the_port_does_not_touch_a_running_instance() {
    let mut sup = ProbeRsDapServer::default();
    assert_eq!(sup.start(true), Ok(StartAction::SpawnBackend(50001)));
    sup.port = "60000".to_string();
    assert_eq!(sup.start(true), Ok(StartAction::AlreadyRunning));
    assert_eq!(sup.status(), DapServerStatus::Running(50001));
}

#[test]
fn stop_while_stopped_reports_false_and_changes_nothing() {
    let mut sup = ProbeRsDapServer::default();
    assert!(!sup.stop());
    assert_eq!(sup.status(), DapServerStatus::Stopped);
    assert_eq!(sup.port, "50001");
}

#[test]
fn stop_reports_stopped_immediately() {
    let mut sup = ProbeRsDapServer::default();
    assert_eq!(sup.start(true), Ok(StartAction::SpawnBackend(50001)));
    assert!(sup.stop());
    assert_eq!(sup.status(), DapServerStatus::Stopped);
}

#[test]
fn start_reports_a_missing_tool_without_changing_state() {
    let mut sup = ProbeRsDapServer::default();
    assert_eq!(sup.start(false), Err(StartError::ToolNotFound));
    assert_eq!(sup.status(), DapServerStatus::Stopped);
}

#[test]
fn start_rejects_bad_port_text() {
    let mut sup = ProbeRsDapServer::default();
    sup.port = "not-a-port".to_string();
    assert_eq!(sup.start(true), Err(StartError::InvalidPort));
    assert_eq!(sup.status(), DapServerStatus::Stopped);
    sup.port = "65536".to_string();
    assert_eq!(sup.start(true), Err(StartError::InvalidPort));
    assert_eq!(sup.status(), DapServerStatus::Stopped);
}

#[test]
fn a_second_instance_is_seen_only_at_two_occurrences() {
    let names = |v: &[&str]| v.iter().map(|s| s.to_string()).collect::<Vec<_>>();
    assert!(!is_duplicate_instance(&names(&[]), "app"));
    assert!(!is_duplicate_instance(&names(&["other", "app", "more"]), "app"));
    assert!(is_duplicate_instance(&names(&["app", "other", "app"]), "app"));
    assert!(is_duplicate_instance(&names(&["app", "app", "app"]), "app"));
    assert!(!is_duplicate_instance(&names(&["app2", "app "]), "app"));
}

#[test]
fn probe_output_yields_its_first_line() {
    assert_eq!(
        probe_version_line("probe-rs 0.24.0\nmore text\n"),
        Some("probe-rs 0.24.0".to_string())
    );
    assert_eq!(
        probe_version_line("probe-rs 0.24.0 (git)"),
        Some("probe-rs 0.24.0 (git)".to_string())
    );
    assert_eq!(probe_version_line("tool 1.0\r\nrest"), Some("tool 1.0".to_string()));
    assert_eq!(probe_version_line("\nsecond"), Some("".to_string()));
    assert_eq!(probe_version_line(""), None);
}
