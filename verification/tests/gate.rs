use service_bridge::control::{handle_control, ControlEvent, HandlerResult, StopChannel};
use service_bridge::gate::ShutdownGate;

#[test]
fn gate_stays_unresolved_without_signal() {
    let mut ch = StopChannel::new();
    let mut gate = ShutdownGate::new();
    assert!(!gate.poll(&mut ch));
    assert!(!gate.resolved);
}

#[test]
fn gate_stays_unresolved_under_non_stop_events() {
    let mut ch = StopChannel::new();
    let mut gate = ShutdownGate::new();
    handle_control(ControlEvent::Interrogate, &mut ch);
    assert!(!gate.poll(&mut ch));
    handle_control(ControlEvent::UserEvent(7), &mut ch);
    handle_control(ControlEvent::Unsupported, &mut ch);
    assert!(!gate.poll(&mut ch));
    assert!(!gate.resolved);
}

#[test]
fn graceful_user_event_resolves_on_next_poll() {
    let mut ch = StopChannel::new();
    let mut gate = ShutdownGate::new();
    assert_eq!(
        handle_control(ControlEvent::UserEvent(130), &mut ch),
        HandlerResult::NoError
    );
    assert!(gate.poll(&mut ch));
    assert!(gate.resolved);
    assert!(!ch.queued);
}

#[test]
fn gate_resolves_at_most_once() {
    let mut ch = StopChannel::new();
    let mut gate = ShutdownGate::new();
    handle_control(ControlEvent::Stop, &mut ch);
    assert!(gate.poll(&mut ch));
    handle_control(ControlEvent::Stop, &mut ch);
    assert!(!gate.poll(&mut ch));
    assert!(gate.resolved);
}

#[test]
fn closed_channel_resolves_the_gate() {
    let mut ch = StopChannel::new();
    let mut gate = ShutdownGate::new();
    ch.close();
    assert!(gate.poll(&mut ch));
    assert!(gate.resolved);
}

#[test]
fn back_to_back_stops_shut_down_exactly_once() {
    let mut ch = StopChannel::new();
    let mut gate = ShutdownGate::new();
    assert_eq!(handle_control(ControlEvent::Stop, &mut ch), HandlerResult::NoError);
    assert_eq!(handle_control(ControlEvent::Stop, &mut ch), HandlerResult::Other(1));
    let mut fired: u32 = 0;
    for _ in 0..3 {
        if gate.poll(&mut ch) {
            fired += 1;
        }
    }
    assert_eq!(fired, 1);
    assert!(gate.resolved);
    assert!(!ch.queued);
}
