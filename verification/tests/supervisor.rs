use sidecar_supervisor::log::Log;
use sidecar_supervisor::pump::handle_event;
use sidecar_supervisor::pump::ProcessEvent;
use sidecar_supervisor::supervisor::LaunchError;
use sidecar_supervisor::supervisor::Phase;
use sidecar_supervisor::supervisor::Supervisor;

fn started(resource_dir: Option<&str>, log: &mut Log) -> Supervisor {
    let mut sup = Supervisor::new();
    let launch = sup.start(true, resource_dir, log);
    assert!(launch.is_some());
    assert_eq!(sup.phase, Phase::CommandBuilt);
    assert!(sup.on_launch(Ok(()), log));
    assert_eq!(sup.phase, Phase::Running);
    sup
}

#[test]
fn development_mode_does_nothing() {
    let mut log = Log::new();
    let mut sup = Supervisor::new();
    let launch = sup.start(false, Some("/opt/app"), &mut log);
    assert!(launch.is_none());
    assert_eq!(sup.phase, Phase::Disabled);
    assert_eq!(log.len(), 0);
}

#[test]
fn production_mode_logs_config_and_builds_command() {
    let mut log = Log::new();
    let mut sup = Supervisor::new();
    let launch = sup.start(true, Some("/opt/app"), &mut log).unwrap();
    assert_eq!(sup.phase, Phase::CommandBuilt);
    assert_eq!(launch.program, "go-sea");
    assert_eq!(
        launch.args,
        vec!["-config".to_string(), "/opt/app/resources/config.develop.yaml".to_string()]
    );
    assert_eq!(log.len(), 1);
    assert!(!log.entries[0].err);
    assert_eq!(
        log.entries[0].text,
        "[go-sea] Using config: /opt/app/resources/config.develop.yaml"
    );
}

#[test]
fn absent_resource_dir_builds_command_without_arguments() {
    let mut log = Log::new();
    let mut sup = Supervisor::new();
    let launch = sup.start(true, None, &mut log).unwrap();
    assert!(launch.args.is_empty());
    assert_eq!(log.entries[0].text, "[go-sea] Using config: ");
}

#[test]
fn construction_failure_is_terminal_and_logs_no_termination() {
    let mut log = Log::new();
    let mut sup = Supervisor::new();
    sup.start(true, None, &mut log);
    let err = LaunchError::CommandConstructionFailed("not bundled".to_string());
    let running = sup.on_launch(Err(err), &mut log);
    assert!(!running);
    assert_eq!(sup.phase, Phase::FailedConstruction);
    assert_eq!(log.len(), 2);
    assert!(log.entries[1].err);
    assert_eq!(
        log.entries[1].text,
        "[go-sea] Failed to create sidecar command: not bundled"
    );
    for entry in &log.entries {
        assert!(!entry.text.contains("terminated"));
    }
}

#[test]
fn spawn_failure_is_terminal() {
    let mut log = Log::new();
    let mut sup = Supervisor::new();
    sup.start(true, None, &mut log);
    let err = LaunchError::SpawnFailed("permission denied".to_string());
    let running = sup.on_launch(Err(err), &mut log);
    assert!(!running);
    assert_eq!(sup.phase, Phase::FailedSpawn);
    assert!(log.entries[1].err);
    assert_eq!(
        log.entries[1].text,
        "[go-sea] Failed to spawn backend: permission denied"
    );
}

#[test]
fn clean_exit_logs_code_and_finishes() {
    let mut log = Log::new();
    let mut sup = started(Some("/opt/app"), &mut log);
    let events = vec![
        ProcessEvent::Stdout(b"listening".to_vec()),
        ProcessEvent::Terminated(Some(0)),
    ];
    let n = sup.pump(&events, &mut log);
    assert_eq!(n, 2);
    assert_eq!(sup.phase, Phase::Finished);
    assert_eq!(log.len(), 4);
    assert_eq!(log.entries[1].text, "[go-sea] Backend started successfully");
    assert_eq!(log.entries[2].text, "[go-sea] listening");
    assert!(!log.entries[2].err);
    assert_eq!(log.entries[3].text, "[go-sea] Process terminated with code: 0");
}

#[test]
fn abnormal_exit_logs_unknown_code() {
    let mut log = Log::new();
    let mut sup = started(None, &mut log);
    let events = vec![ProcessEvent::Terminated(None)];
    let n = sup.pump(&events, &mut log);
    assert_eq!(n, 1);
    assert_eq!(sup.phase, Phase::Finished);
    assert_eq!(
        log.entries[2].text,
        "[go-sea] Process terminated with code: unknown"
    );
}

#[test]
fn nonzero_exit_code_is_rendered_in_decimal() {
    let mut log = Log::new();
    let mut sup = started(None, &mut log);
    sup.pump(&vec![ProcessEvent::Terminated(Some(-137))], &mut log);
    assert_eq!(
        log.entries[2].text,
        "[go-sea] Process terminated with code: -137"
    );
}

#[test]
fn nothing_is_observed_after_termination() {
    let mut log = Log::new();
    let mut sup = started(None, &mut log);
    let events = vec![
        ProcessEvent::Terminated(Some(0)),
        ProcessEvent::Stdout(b"late".to_vec()),
        ProcessEvent::Terminated(Some(1)),
    ];
    let n = sup.pump(&events, &mut log);
    assert_eq!(n, 1);
    assert_eq!(log.len(), 3);
    assert_eq!(log.entries[2].text, "[go-sea] Process terminated with code: 0");
}

#[test]
fn stderr_goes_to_the_error_channel() {
    let mut log = Log::new();
    let mut sup = started(None, &mut log);
    let events = vec![
        ProcessEvent::Stderr(b"warning: low disk".to_vec()),
        ProcessEvent::Terminated(Some(0)),
    ];
    sup.pump(&events, &mut log);
    assert!(log.entries[2].err);
    assert_eq!(log.entries[2].text, "[go-sea] warning: low disk");
}

#[test]
fn invalid_utf8_is_logged_lossily() {
    let mut log = Log::new();
    let mut sup = started(None, &mut log);
    let events = vec![
        ProcessEvent::Stdout(vec![0xFF, 0xFE]),
        ProcessEvent::Stderr(vec![b'o', b'k', 0xC0]),
        ProcessEvent::Terminated(Some(0)),
    ];
    let n = sup.pump(&events, &mut log);
    assert_eq!(n, 3);
    assert_eq!(log.entries[2].text, "[go-sea] \u{FFFD}\u{FFFD}");
    assert_eq!(log.entries[3].text, "[go-sea] ok\u{FFFD}");
}

#[test]
fn unrecognized_events_are_ignored() {
    let mut log = Log::new();
    let mut sup = started(None, &mut log);
    let events = vec![
        ProcessEvent::Other,
        ProcessEvent::Stdout(b"up".to_vec()),
        ProcessEvent::Other,
        ProcessEvent::Terminated(Some(0)),
    ];
    let n = sup.pump(&events, &mut log);
    assert_eq!(n, 4);
    assert_eq!(log.len(), 4);
    assert_eq!(log.entries[2].text, "[go-sea] up");
}

#[test]
fn pump_without_termination_stays_running() {
    let mut log = Log::new();
    let mut sup = started(None, &mut log);
    let events = vec![
        ProcessEvent::Stdout(b"one".to_vec()),
        ProcessEvent::Stdout(b"two".to_vec()),
    ];
    let n = sup.pump(&events, &mut log);
    assert_eq!(n, 2);
    assert_eq!(sup.phase, Phase::Running);
}

#[test]
fn handle_event_reports_when_to_stop() {
    let mut log = Log::new();
    assert!(!handle_event(&ProcessEvent::Stdout(b"x".to_vec()), &mut log));
    assert!(!handle_event(&ProcessEvent::Other, &mut log));
    assert!(handle_event(&ProcessEvent::Terminated(Some(3)), &mut log));
    assert_eq!(log.len(), 2);
    assert_eq!(log.entries[1].text, "[go-sea] Process terminated with code: 3");
}
