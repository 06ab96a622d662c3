use service_bridge::control::{handle_control, ControlEvent, HandlerResult, StopChannel};
use service_bridge::gate::ShutdownGate;
use service_bridge::lifecycle::{start, step, Completion, Phase, RunAction, RunEvent};
use service_bridge::status::{
    clean_stop_status, error_stop_status, running_status, ErrorKind, ServiceError,
};

#[test]
fn run_starts_by_registering_the_handler() {
    let (phase, action) = start();
    assert_eq!(phase, Phase::Registering);
    assert_eq!(action, RunAction::RegisterHandler);
}

#[test]
fn successful_run_reports_running_then_stopped_success() {
    let (p, a) = step(Phase::Registering, RunEvent::Registered(true));
    assert_eq!((p, a), (Phase::BuildingRuntime, RunAction::BuildRuntime));
    let (p, a) = step(p, RunEvent::RuntimeBuilt(true));
    assert_eq!((p, a), (Phase::ReportingRunning, RunAction::ReportStatus(running_status())));
    let (p, a) = step(p, RunEvent::RunningReported(true));
    assert_eq!((p, a), (Phase::Binding, RunAction::BindSocket));
    let (p, a) = step(p, RunEvent::SocketBound(true));
    assert_eq!((p, a), (Phase::Serving, RunAction::Serve));
    let (p, a) = step(p, RunEvent::ServeFinished(true));
    assert_eq!(
        (p, a),
        (Phase::ReportingCleanStop, RunAction::ReportStatus(clean_stop_status()))
    );
    let (p, a) = step(p, RunEvent::CleanStopReported(true));
    assert_eq!(p, Phase::Finished(Completion::Succeeded));
    assert_eq!(a, RunAction::Finish(Completion::Succeeded));
}

#[test]
fn bind_failure_reports_error_stop_and_never_serves() {
    let (p, _) = step(Phase::Registering, RunEvent::Registered(true));
    let (p, _) = step(p, RunEvent::RuntimeBuilt(true));
    let (p, _) = step(p, RunEvent::RunningReported(true));
    assert_eq!(p, Phase::Binding);
    let (p, a) = step(p, RunEvent::SocketBound(false));
    assert_eq!(p, Phase::Failing(ErrorKind::SocketBind));
    assert_eq!(a, RunAction::ReportStatus(error_stop_status()));
    let (p, a) = step(p, RunEvent::ErrorStopReported(true));
    let expected = ServiceError { kind: ErrorKind::SocketBind, report_failed: false };
    assert_eq!(p, Phase::Finished(Completion::Failed(expected)));
    assert_eq!(a, RunAction::Finish(Completion::Failed(expected)));
}

#[test]
fn registration_failure_finishes_without_a_report() {
    let (p, a) = step(Phase::Registering, RunEvent::Registered(false));
    let expected = ServiceError { kind: ErrorKind::HandlerRegistration, report_failed: false };
    assert_eq!(p, Phase::Finished(Completion::Failed(expected)));
    assert_eq!(a, RunAction::Finish(Completion::Failed(expected)));
}

#[test]
fn runtime_failure_with_failed_report_is_recorded() {
    let (p, _) = step(Phase::Registering, RunEvent::Registered(true));
    let (p, a) = step(p, RunEvent::RuntimeBuilt(false));
    assert_eq!(p, Phase::Failing(ErrorKind::RuntimeConstruction));
    assert_eq!(a, RunAction::ReportStatus(error_stop_status()));
    let (p, _) = step(p, RunEvent::ErrorStopReported(false));
    let expected = ServiceError { kind: ErrorKind::RuntimeConstruction, report_failed: true };
    assert_eq!(p, Phase::Finished(Completion::Failed(expected)));
}

#[test]
fn running_report_failure_stops_with_error() {
    let (p, _) = step(Phase::Registering, RunEvent::Registered(true));
    let (p, _) = step(p, RunEvent::RuntimeBuilt(true));
    let (p, a) = step(p, RunEvent::RunningReported(false));
    assert_eq!(p, Phase::Failing(ErrorKind::StatusReport));
    assert_eq!(a, RunAction::ReportStatus(error_stop_status()));
}

#[test]
fn serve_failure_stops_with_error() {
    let (p, _) = step(Phase::Registering, RunEvent::Registered(true));
    let (p, _) = step(p, RunEvent::RuntimeBuilt(true));
    let (p, _) = step(p, RunEvent::RunningReported(true));
    let (p, _) = step(p, RunEvent::SocketBound(true));
    let (p, a) = step(p, RunEvent::ServeFinished(false));
    assert_eq!(p, Phase::Failing(ErrorKind::Serve));
    assert_eq!(a, RunAction::ReportStatus(error_stop_status()));
}

#[test]
fn failed_final_report_still_notifies_error_stop() {
    let (p, _) = step(Phase::Registering, RunEvent::Registered(true));
    let (p, _) = step(p, RunEvent::RuntimeBuilt(true));
    let (p, _) = step(p, RunEvent::RunningReported(true));
    let (p, _) = step(p, RunEvent::SocketBound(true));
    let (p, _) = step(p, RunEvent::ServeFinished(true));
    let (p, a) = step(p, RunEvent::CleanStopReported(false));
    assert_eq!(p, Phase::Failing(ErrorKind::StatusReport));
    assert_eq!(a, RunAction::ReportStatus(error_stop_status()));
    let (p, _) = step(p, RunEvent::ErrorStopReported(true));
    let expected = ServiceError { kind: ErrorKind::StatusReport, report_failed: false };
    assert_eq!(p, Phase::Finished(Completion::Failed(expected)));
}

#[test]
fn finished_run_ignores_every_further_event() {
    let done = Phase::Finished(Completion::Succeeded);
    assert_eq!(step(done, RunEvent::Registered(true)), (done, RunAction::Idle));
    assert_eq!(step(done, RunEvent::SocketBound(false)), (done, RunAction::Idle));
    assert_eq!(step(done, RunEvent::ServeFinished(true)), (done, RunAction::Idle));
}

#[test]
fn event_outside_its_phase_is_ignored() {
    let (p, a) = step(Phase::Registering, RunEvent::SocketBound(true));
    assert_eq!((p, a), (Phase::Registering, RunAction::Idle));
    let (p, a) = step(Phase::Serving, RunEvent::Registered(true));
    assert_eq!((p, a), (Phase::Serving, RunAction::Idle));
}

#[test]
fn graceful_stop_scenario_runs_to_stopped_success() {
    // The host is up and serving; a graceful-stop user event arrives, the
    // gate resolves on the next poll, the server drains, and the run ends
    // with the stopped-success report.
    let mut ch = StopChannel::new();
    let mut gate = ShutdownGate::new();
    let (p, _) = step(Phase::Registering, RunEvent::Registered(true));
    let (p, _) = step(p, RunEvent::RuntimeBuilt(true));
    let (p, _) = step(p, RunEvent::RunningReported(true));
    let (p, a) = step(p, RunEvent::SocketBound(true));
    assert_eq!(a, RunAction::Serve);

    assert_eq!(
        handle_control(ControlEvent::UserEvent(130), &mut ch),
        HandlerResult::NoError
    );
    assert!(gate.poll(&mut ch));

    let (p, a) = step(p, RunEvent::ServeFinished(true));
    assert_eq!(a, RunAction::ReportStatus(clean_stop_status()));
    let (p, a) = step(p, RunEvent::CleanStopReported(true));
    assert_eq!(p, Phase::Finished(Completion::Succeeded));
    assert_eq!(a, RunAction::Finish(Completion::Succeeded));
}
