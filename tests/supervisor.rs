use meshmonitor_desktop::diagnostics::log_line;
use meshmonitor_desktop::supervisor::Supervisor;

#[test]
fn stop_on_idle_is_noop() {
    let mut s: Supervisor<u32> = Supervisor::new();
    assert!(!s.is_running());
    assert_eq!(s.stop(), None);
    assert!(!s.is_running());
}

#[test]
fn record_then_stop() {
    let mut s: Supervisor<u32> = Supervisor::new();
    assert_eq!(s.record(41), None);
    assert!(s.is_running());
    assert_eq!(s.stop(), Some(41));
    assert!(!s.is_running());
}

#[test]
fn restart_hands_old_child_to_termination() {
    let mut s: Supervisor<u32> = Supervisor::new();
    s.record(1);
    let old = s.stop();
    assert_eq!(old, Some(1));
    assert_eq!(s.record(2), None);
    assert_eq!(s.stop(), Some(2));
}

#[test]
fn record_replaces_prior_handle() {
    let mut s: Supervisor<u32> = Supervisor::new();
    s.record(1);
    assert_eq!(s.record(2), Some(1));
    assert_eq!(s.stop(), Some(2));
}

#[test]
fn log_line_format() {
    assert_eq!(log_line("2024-01-02 03:04:05", "Backend started"), "[2024-01-02 03:04:05] Backend started");
}
