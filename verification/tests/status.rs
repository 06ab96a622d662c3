use service_bridge::status::{
    clean_stop_status, error_after_report, error_stop_status, running_status, stopped_status,
    ErrorKind, ExitCode, ServiceState,
};

#[test]
fn running_record_accepts_stop_with_success_code() {
    let s = running_status();
    assert_eq!(s.state, ServiceState::Running);
    assert!(s.accepts_stop);
    assert_eq!(s.exit_code, ExitCode::Win32(0));
    assert_eq!(s.checkpoint, 0);
    assert_eq!(s.wait_hint_ms, 0);
}

#[test]
fn clean_stop_record_is_stopped_zero() {
    let s = clean_stop_status();
    assert_eq!(s.state, ServiceState::Stopped);
    assert!(!s.accepts_stop);
    assert_eq!(s.exit_code, ExitCode::Win32(0));
    assert_eq!(s.checkpoint, 0);
    assert_eq!(s.wait_hint_ms, 0);
}

#[test]
fn error_stop_record_is_stopped_one() {
    let s = error_stop_status();
    assert_eq!(s.state, ServiceState::Stopped);
    assert!(!s.accepts_stop);
    assert_eq!(s.exit_code, ExitCode::Win32(1));
}

#[test]
fn stopped_record_carries_the_given_code() {
    let s = stopped_status(7);
    assert_eq!(s.state, ServiceState::Stopped);
    assert_eq!(s.exit_code, ExitCode::Win32(7));
}

#[test]
fn failed_terminal_report_is_never_dropped() {
    let e = error_after_report(ErrorKind::SocketBind, true);
    assert_eq!(e.kind, ErrorKind::SocketBind);
    assert!(!e.report_failed);

    let e = error_after_report(ErrorKind::Serve, false);
    assert_eq!(e.kind, ErrorKind::Serve);
    assert!(e.report_failed);
}
