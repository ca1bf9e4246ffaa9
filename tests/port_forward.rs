use k8s_port_forward::config::{
    decimal_string, parse_port, port_setting, should_enable_port_forward, PortForwardConfig,
};
use k8s_port_forward::port_search::{settle, slot_candidate, PortSearch, Probe};
use k8s_port_forward::runner::{
    after_spawn, contains_error, exit_outcome, exit_severity, line_severity, tunnel_args,
    tunnel_program, Channel, RunFailure, Severity, SpawnStep,
};
use k8s_port_forward::supervisor::{Phase, SessionAction, SessionEvent, Supervisor};

/// Runs a search to its end, answering each probe with `is_free`; returns the
/// port found and the ports asked about, in order.
fn drive(preferred: u16, is_free: &dyn Fn(u16) -> bool, assigned: Option<u16>) -> (u16, Vec<u16>) {
    let mut search = PortSearch::new(preferred);
    let mut asked = Vec::new();
    loop {
        match search.next_probe() {
            Probe::Port(p) => {
                asked.push(p);
                if is_free(p) {
                    return (p, asked);
                }
            }
            Probe::Assigned => return (settle(preferred, assigned), asked),
        }
    }
}

fn config(local_port: u16) -> PortForwardConfig {
    PortForwardConfig {
        namespace: "infra".to_string(),
        service: "logs-es-http".to_string(),
        local_port,
        remote_port: 9200,
    }
}

#[test]
fn free_preferred_port_is_kept() {
    let (port, asked) = drive(9200, &|_| true, Some(40000));
    assert_eq!(port, 9200);
    assert_eq!(asked, vec![9200]);
}

#[test]
fn upper_neighbour_comes_first() {
    let (port, asked) = drive(9200, &|p| p != 9200, Some(40000));
    assert_eq!(port, 9201);
    assert_eq!(asked, vec![9200, 9201]);
}

#[test]
fn lower_neighbour_follows_upper() {
    let (port, asked) = drive(9200, &|p| p == 9199 || p == 9202, None);
    assert_eq!(port, 9199);
    assert_eq!(asked, vec![9200, 9201, 9199]);
}

#[test]
fn neighbours_alternate_nearest_first() {
    let (_, asked) = drive(9200, &|_| false, None);
    assert_eq!(
        &asked[..21],
        &[9200, 9201, 9199, 9202, 9198, 9203, 9197, 9204, 9196, 9205, 9195, 9206, 9194, 9207, 9193, 9208, 9192, 9209, 9191, 9210, 9190]
    );
    assert_eq!(asked[21], 19200);
    assert_eq!(asked.len(), 21 + 20100);
    assert_eq!(*asked.last().unwrap(), 39299);
}

#[test]
fn scan_is_tried_after_neighbours() {
    let (port, _) = drive(9200, &|p| p == 19205, None);
    assert_eq!(port, 19205);
}

#[test]
fn exhausted_search_takes_assigned_port() {
    let (port, _) = drive(9200, &|_| false, Some(45123));
    assert_eq!(port, 45123);
}

#[test]
fn exhausted_search_without_assignment_keeps_preferred() {
    let (port, _) = drive(9200, &|_| false, None);
    assert_eq!(port, 9200);
}

#[test]
fn neighbours_out_of_range_are_skipped() {
    let (_, asked) = drive(65533, &|_| false, None);
    assert_eq!(&asked[..6], &[65533, 65534, 65532, 65535, 65531, 65530]);
    let (_, asked) = drive(1, &|_| false, None);
    assert_eq!(&asked[..5], &[1, 2, 0, 3, 4]);
    assert_eq!(asked[12], 19200);
}

#[test]
fn slot_candidates() {
    assert_eq!(slot_candidate(100, 0), Some(100));
    assert_eq!(slot_candidate(100, 1), Some(101));
    assert_eq!(slot_candidate(100, 2), Some(99));
    assert_eq!(slot_candidate(100, 20), Some(90));
    assert_eq!(slot_candidate(100, 21), Some(19200));
    assert_eq!(slot_candidate(5, 12), None);
    assert_eq!(slot_candidate(100, 20121), None);
}

#[test]
fn backoff_doubles_up_to_ceiling() {
    let mut s = Supervisor::new();
    let mut delays = Vec::new();
    for _ in 0..8 {
        assert_eq!(s.step(SessionEvent::Ready), SessionAction::StartAttempt);
        assert_eq!(s.step(SessionEvent::AttemptEnded), SessionAction::PollShutdown);
        match s.step(SessionEvent::ShutdownPolled { requested: false }) {
            SessionAction::Sleep { secs } => delays.push(secs),
            other => panic!("unexpected action {:?}", other),
        }
    }
    assert_eq!(delays, vec![1, 2, 4, 8, 16, 30, 30, 30]);
}

#[test]
fn shutdown_stops_after_running_attempt() {
    let mut s = Supervisor::new();
    assert_eq!(s.step(SessionEvent::Ready), SessionAction::StartAttempt);
    assert_eq!(s.step(SessionEvent::AttemptEnded), SessionAction::PollShutdown);
    assert_eq!(s.step(SessionEvent::ShutdownPolled { requested: true }), SessionAction::Halt);
    assert!(s.is_stopped());
    assert_eq!(s.phase, Phase::Stopped);
    assert_eq!(s.step(SessionEvent::Ready), SessionAction::Halt);
    assert_eq!(s.step(SessionEvent::ShutdownPolled { requested: false }), SessionAction::Halt);
}

#[test]
fn out_of_phase_events_do_nothing() {
    let mut s = Supervisor::new();
    assert_eq!(s.step(SessionEvent::AttemptEnded), SessionAction::Nothing);
    assert_eq!(s.step(SessionEvent::ShutdownPolled { requested: true }), SessionAction::Nothing);
    assert_eq!(s.step(SessionEvent::Ready), SessionAction::StartAttempt);
    assert_eq!(s.step(SessionEvent::Ready), SessionAction::Nothing);
    assert_eq!(s.phase, Phase::Running);
}

#[test]
fn stderr_error_lines_are_errors() {
    assert_eq!(line_severity(Channel::Stderr, "connection refused: error"), Severity::Error);
    assert_eq!(line_severity(Channel::Stderr, "forwarding from 127.0.0.1:9200 -> 9200"), Severity::Info);
    assert_eq!(line_severity(Channel::Stderr, "Error from server"), Severity::Error);
    assert_eq!(line_severity(Channel::Stderr, "ERROR: lost connection"), Severity::Error);
    assert_eq!(line_severity(Channel::Stderr, "zero errors"), Severity::Error);
    assert_eq!(line_severity(Channel::Stderr, "err or"), Severity::Info);
}

#[test]
fn stdout_lines_are_information() {
    assert_eq!(line_severity(Channel::Stdout, "error: something"), Severity::Info);
    assert_eq!(line_severity(Channel::Stdout, "Forwarding from [::1]:9200"), Severity::Info);
}

#[test]
fn error_search_edges() {
    assert!(!contains_error(""));
    assert!(!contains_error("erro"));
    assert!(contains_error("error"));
    assert!(contains_error("xxerRoR"));
    assert!(contains_error("é error é"));
    assert!(!contains_error("éerroé"));
}

#[test]
fn url_names_local_port() {
    assert_eq!(config(9201).es_url(), "http://localhost:9201");
    assert_eq!(config(0).es_url(), "http://localhost:0");
    assert_eq!(config(65535).es_url(), "http://localhost:65535");
}

#[test]
fn decimal_forms() {
    assert_eq!(decimal_string(0), "0");
    assert_eq!(decimal_string(7), "7");
    assert_eq!(decimal_string(10), "10");
    assert_eq!(decimal_string(9200), "9200");
    assert_eq!(decimal_string(65535), "65535");
}

#[test]
fn tunnel_command_line() {
    assert_eq!(tunnel_program(), "kubectl");
    let c = PortForwardConfig {
        namespace: "monitoring".to_string(),
        service: "search".to_string(),
        local_port: 9201,
        remote_port: 9300,
    };
    assert_eq!(
        tunnel_args(&c),
        vec!["port-forward", "-n", "monitoring", "svc/search", "9201:9300"]
    );
}

#[test]
fn spawn_failure_ends_attempt_without_reading() {
    match after_spawn(Some("No such file or directory".to_string())) {
        SpawnStep::Fail(RunFailure::SpawnFailed { reason }) => {
            assert_eq!(reason, "No such file or directory")
        }
        other => panic!("unexpected step {:?}", other),
    }
    assert!(matches!(after_spawn(None), SpawnStep::ReadAndWait));
}

#[test]
fn exit_outcomes() {
    assert!(matches!(exit_outcome(true, Some(0)), Ok(())));
    assert!(matches!(exit_outcome(false, Some(1)), Err(RunFailure::AbnormalExit { code: Some(1) })));
    assert!(matches!(exit_outcome(false, None), Err(RunFailure::AbnormalExit { code: None })));
    assert_eq!(exit_severity(&Ok(())), Severity::Warning);
    assert_eq!(exit_severity(&exit_outcome(false, Some(2))), Severity::Error);
}

#[test]
fn port_texts() {
    assert_eq!(parse_port("9200"), Some(9200));
    assert_eq!(parse_port("+9201"), Some(9201));
    assert_eq!(parse_port("007"), Some(7));
    assert_eq!(parse_port("65535"), Some(65535));
    assert_eq!(parse_port("65536"), None);
    assert_eq!(parse_port("99999999999"), None);
    assert_eq!(parse_port(""), None);
    assert_eq!(parse_port("+"), None);
    assert_eq!(parse_port("-1"), None);
    assert_eq!(parse_port("92a0"), None);
    assert_eq!(parse_port(" 9200"), None);
}

#[test]
fn port_settings_default() {
    assert_eq!(port_setting(None), 9200);
    assert_eq!(port_setting(Some("abc")), 9200);
    assert_eq!(port_setting(Some("9300")), 9300);
}

#[test]
fn enable_toggle() {
    assert!(should_enable_port_forward(Some("true")));
    assert!(!should_enable_port_forward(Some("false")));
    assert!(!should_enable_port_forward(Some("TRUE")));
    assert!(!should_enable_port_forward(Some("1")));
    assert!(!should_enable_port_forward(None));
}

#[test]
fn defaults_and_settings() {
    let d = PortForwardConfig::default();
    assert_eq!(d.namespace, "infra");
    assert_eq!(d.service, "logs-es-http");
    assert_eq!(d.local_port, 9200);
    assert_eq!(d.remote_port, 9200);
    let c = PortForwardConfig::from_settings(9205, None, Some("search".to_string()), Some("9300"));
    assert_eq!(c.namespace, "infra");
    assert_eq!(c.service, "search");
    assert_eq!(c.local_port, 9205);
    assert_eq!(c.remote_port, 9300);
    let c = PortForwardConfig::from_settings(9200, Some("ops".to_string()), None, Some("x"));
    assert_eq!(c.namespace, "ops");
    assert_eq!(c.service, "logs-es-http");
    assert_eq!(c.remote_port, 9200);
}
