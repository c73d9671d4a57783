use iiot::config::{DelaySelection, SharedConfig};
use iiot::input::{
    ButtonType, DebouncedSource, InputEvent, SensorMessage, SourceAction, SourceKind, SourcePhase,
    SourceSignal, DEBOUNCE_MS, DISABLED_POLL_MS,
};

#[test]
fn stable_button_press_emits_one_event() {
    let cfg = SharedConfig::new();
    let mut s = DebouncedSource::new(SourceKind::Button(ButtonType::C));
    assert_eq!(s.step(SourceSignal::Woke, &cfg), SourceAction::AwaitEdge { active_high: false });
    assert_eq!(s.step(SourceSignal::Edge, &cfg), SourceAction::Settle { ms: DEBOUNCE_MS, active_high: false });
    assert_eq!(
        s.step(SourceSignal::Sampled { line_high: false }, &cfg),
        SourceAction::Emit(InputEvent::Button(ButtonType::C))
    );
    assert_eq!(s.step(SourceSignal::Delivered, &cfg), SourceAction::AwaitEdge { active_high: false });
}

#[test]
fn bouncing_button_emits_nothing() {
    let cfg = SharedConfig::new();
    let mut s = DebouncedSource::new(SourceKind::Button(ButtonType::A));
    s.step(SourceSignal::Woke, &cfg);
    s.step(SourceSignal::Edge, &cfg);
    let a = s.step(SourceSignal::Sampled { line_high: true }, &cfg);
    assert_eq!(a, SourceAction::AwaitEdge { active_high: false });
    assert_eq!(s.phase, SourcePhase::AwaitingEdge);
}

#[test]
fn motion_alert_is_followed_by_rearm_delay() {
    let mut cfg = SharedConfig::new();
    assert!(cfg.set_interval(DelaySelection::Motion, 7));
    let mut s = DebouncedSource::new(SourceKind::Motion);
    assert_eq!(s.step(SourceSignal::Woke, &cfg), SourceAction::AwaitEdge { active_high: true });
    assert_eq!(s.step(SourceSignal::Edge, &cfg), SourceAction::Settle { ms: 20, active_high: true });
    assert_eq!(
        s.step(SourceSignal::Sampled { line_high: true }, &cfg),
        SourceAction::Emit(InputEvent::Sensor(SensorMessage::MotionSensor))
    );
    assert_eq!(s.step(SourceSignal::Delivered, &cfg), SourceAction::Sleep { ms: 7000 });
    assert_eq!(s.step(SourceSignal::Woke, &cfg), SourceAction::AwaitEdge { active_high: true });
}

#[test]
fn contact_glitch_emits_nothing() {
    let cfg = SharedConfig::new();
    let mut s = DebouncedSource::new(SourceKind::Contact);
    s.step(SourceSignal::Woke, &cfg);
    s.step(SourceSignal::Edge, &cfg);
    let a = s.step(SourceSignal::Sampled { line_high: false }, &cfg);
    assert!(!matches!(a, SourceAction::Emit(_)));
}

#[test]
fn disabled_sensor_polls_its_switch_every_second() {
    let mut cfg = SharedConfig::new();
    cfg.toggle(DelaySelection::Contact);
    let mut s = DebouncedSource::new(SourceKind::Contact);
    assert_eq!(s.step(SourceSignal::Woke, &cfg), SourceAction::Sleep { ms: DISABLED_POLL_MS });
    assert_eq!(s.step(SourceSignal::Woke, &cfg), SourceAction::Sleep { ms: 1000 });
    cfg.toggle(DelaySelection::Contact);
    assert_eq!(s.step(SourceSignal::Woke, &cfg), SourceAction::AwaitEdge { active_high: true });
}

#[test]
fn buttons_ignore_the_sensor_switches() {
    let mut cfg = SharedConfig::new();
    cfg.toggle(DelaySelection::Motion);
    cfg.toggle(DelaySelection::Contact);
    let mut s = DebouncedSource::new(SourceKind::Button(ButtonType::D));
    assert_eq!(s.step(SourceSignal::Woke, &cfg), SourceAction::AwaitEdge { active_high: false });
}

#[test]
fn signal_out_of_turn_repeats_the_pending_action() {
    let cfg = SharedConfig::new();
    let mut s = DebouncedSource::new(SourceKind::Motion);
    s.step(SourceSignal::Woke, &cfg);
    assert_eq!(s.step(SourceSignal::Delivered, &cfg), SourceAction::AwaitEdge { active_high: true });
    assert_eq!(s.phase, SourcePhase::AwaitingEdge);
}

#[test]
fn level_change_within_the_window_emits_nothing() {
    let cfg = SharedConfig::new();
    let mut s = DebouncedSource::new(SourceKind::Motion);
    s.step(SourceSignal::Woke, &cfg);
    s.step(SourceSignal::Edge, &cfg);
    assert_eq!(s.step(SourceSignal::Bounced, &cfg), SourceAction::AwaitEdge { active_high: true });
    assert_eq!(s.phase, SourcePhase::AwaitingEdge);
    let mut b = DebouncedSource::new(SourceKind::Button(ButtonType::B));
    b.step(SourceSignal::Woke, &cfg);
    b.step(SourceSignal::Edge, &cfg);
    assert_eq!(b.step(SourceSignal::Bounced, &cfg), SourceAction::AwaitEdge { active_high: false });
}

#[test]
fn sensor_switched_off_while_waiting_never_emits() {
    let mut cfg = SharedConfig::new();
    let mut s = DebouncedSource::new(SourceKind::Motion);
    assert_eq!(s.step(SourceSignal::Woke, &cfg), SourceAction::AwaitEdge { active_high: true });
    cfg.toggle(DelaySelection::Motion);
    s.step(SourceSignal::Edge, &cfg);
    let a = s.step(SourceSignal::Sampled { line_high: true }, &cfg);
    assert_eq!(a, SourceAction::Sleep { ms: DISABLED_POLL_MS });
    assert_eq!(s.step(SourceSignal::Woke, &cfg), SourceAction::Sleep { ms: DISABLED_POLL_MS });
}

#[test]
fn sensor_switched_off_within_the_window_never_emits() {
    let mut cfg = SharedConfig::new();
    let mut s = DebouncedSource::new(SourceKind::Contact);
    s.step(SourceSignal::Woke, &cfg);
    s.step(SourceSignal::Edge, &cfg);
    cfg.toggle(DelaySelection::Contact);
    let a = s.step(SourceSignal::Sampled { line_high: true }, &cfg);
    assert!(!matches!(a, SourceAction::Emit(_)));
}
