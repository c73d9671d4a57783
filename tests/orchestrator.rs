use iiot::config::{DelaySelection, SharedConfig};
use iiot::dht::DhtError;
use iiot::input::{ButtonType, SensorMessage};
use iiot::mqtt::{MqttMessage, MqttResponse, ValueType};
use iiot::ui::{
    CurrentValues, DisplayLine, MenuRender, Ui, Position, ReadTrackers, SendTrackers,
    Tracker, UiEffect, UiState,
};

fn publishes(effects: &[UiEffect]) -> Vec<MqttMessage> {
    effects
        .iter()
        .filter_map(|e| match e {
            UiEffect::Publish(m) => Some(*m),
            _ => None,
        })
        .collect()
}

#[test]
fn selection_moves_within_the_list() {
    assert_eq!(DelaySelection::DHT.previous(), DelaySelection::DHT);
    assert_eq!(DelaySelection::Motion.previous(), DelaySelection::DHT);
    assert_eq!(DelaySelection::MQTT.previous(), DelaySelection::Contact);
    assert_eq!(DelaySelection::DHT.next(), DelaySelection::Motion);
    assert_eq!(DelaySelection::Contact.next(), DelaySelection::MQTT);
    assert_eq!(DelaySelection::MQTT.next(), DelaySelection::MQTT);
    assert_eq!(DelaySelection::Contact.line(), DisplayLine::LINE3);
}

#[test]
fn values_have_fixed_places() {
    assert_eq!(ValueType::Temperature.line(), 0);
    assert_eq!(ValueType::Contact.line(), 36);
    assert_eq!(ValueType::Temperature.point(), Position { x: 38, y: 0 });
    assert_eq!(ValueType::Humidity.point(), Position { x: 62, y: 12 });
    assert_eq!(ValueType::Motion.point(), Position { x: 50, y: 24 });
    assert_eq!(ValueType::Contact.point(), Position { x: 56, y: 36 });
}

#[test]
fn trackers_start_handled_and_reset_unhandled() {
    let mut t = Tracker::new(5);
    assert_eq!(t, Tracker { time_ms: 5, handled: true });
    t.reset(90);
    assert_eq!(t, Tracker { time_ms: 90, handled: false });
    assert_eq!(ReadTrackers::new(3).motion, Tracker { time_ms: 3, handled: true });
    assert_eq!(SendTrackers::new(4).contact, Tracker { time_ms: 4, handled: true });
    let v = CurrentValues::new();
    assert_eq!((v.temperature, v.humidity, v.motion, v.contact), (255, 255, 0, 0));
}

#[test]
fn menu_navigation() {
    let mut cfg = SharedConfig::new();
    let mut o = Ui::new(0);
    assert!(o.takes_all_events());
    assert_eq!(o.handle_button_press(ButtonType::B, &mut cfg), MenuRender::Redraw);
    assert_eq!(o.state, UiState::SelectingDelay);
    assert!(!o.takes_all_events());
    assert_eq!(o.handle_button_press(ButtonType::C, &mut cfg), MenuRender::MoveArrow { from: DelaySelection::DHT });
    assert_eq!(o.selection, DelaySelection::Motion);
    assert_eq!(o.handle_button_press(ButtonType::D, &mut cfg), MenuRender::Redraw);
    assert_eq!(o.state, UiState::ModifyingDelay);
    assert_eq!(o.handle_button_press(ButtonType::B, &mut cfg), MenuRender::Refresh);
    assert_eq!(cfg.interval(DelaySelection::Motion), Some(3));
    assert_eq!(o.handle_button_press(ButtonType::A, &mut cfg), MenuRender::Refresh);
    assert!(!cfg.is_enabled(DelaySelection::Motion));
    // a switched-off item keeps its interval
    o.handle_button_press(ButtonType::B, &mut cfg);
    assert_eq!(cfg.interval(DelaySelection::Motion), Some(3));
    assert_eq!(o.handle_button_press(ButtonType::D, &mut cfg), MenuRender::Redraw);
    assert_eq!(o.state, UiState::SelectingDelay);
    assert_eq!(o.handle_button_press(ButtonType::A, &mut cfg), MenuRender::Redraw);
    assert_eq!(o.state, UiState::Displaying);
    assert_eq!(o.selection, DelaySelection::DHT);
}

#[test]
fn interval_steps_stop_at_the_range_ends() {
    let mut cfg = SharedConfig::new();
    let mut o = Ui::new(0);
    o.handle_button_press(ButtonType::A, &mut cfg);
    o.handle_button_press(ButtonType::D, &mut cfg);
    o.handle_button_press(ButtonType::C, &mut cfg);
    assert_eq!(cfg.interval(DelaySelection::DHT), Some(2));
    for _ in 0..40 {
        o.handle_button_press(ButtonType::B, &mut cfg);
    }
    assert_eq!(cfg.interval(DelaySelection::DHT), Some(30));
}

#[test]
fn publishing_item_only_toggles() {
    let mut cfg = SharedConfig::new();
    let mut o = Ui::new(0);
    o.handle_button_press(ButtonType::A, &mut cfg);
    for _ in 0..3 {
        o.handle_button_press(ButtonType::C, &mut cfg);
    }
    assert_eq!(o.selection, DelaySelection::MQTT);
    o.handle_button_press(ButtonType::D, &mut cfg);
    let before = cfg;
    o.handle_button_press(ButtonType::B, &mut cfg);
    o.handle_button_press(ButtonType::C, &mut cfg);
    assert_eq!(cfg, before);
    o.handle_button_press(ButtonType::A, &mut cfg);
    assert!(!cfg.is_enabled(DelaySelection::MQTT));
}

#[test]
fn sensor_alert_publishes_one() {
    let cfg = SharedConfig::new();
    let mut o = Ui::new(0);
    let e = o.handle_sensor_message(SensorMessage::MotionSensor, 100, &cfg);
    assert_eq!(publishes(&e), vec![MqttMessage { topic: ValueType::Motion, value: 1 }]);
    assert!(matches!(e[1], UiEffect::ShowValue { value: ValueType::Motion, highlighted: true }));
    assert_eq!(o.values.motion, 1);
    assert_eq!(o.read_trackers.motion, Tracker { time_ms: 100, handled: false });
}

#[test]
fn alert_with_publishing_off_is_only_shown() {
    let mut cfg = SharedConfig::new();
    cfg.toggle(DelaySelection::MQTT);
    let mut o = Ui::new(0);
    let e = o.handle_sensor_message(SensorMessage::ContactSensor, 100, &cfg);
    assert_eq!(e.len(), 1);
    assert!(matches!(e[0], UiEffect::ShowValue { value: ValueType::Contact, highlighted: true }));
    assert_eq!(o.values.contact, 1);
}

#[test]
fn publish_outcome_is_shown_then_cleared() {
    let cfg = SharedConfig::new();
    let mut o = Ui::new(0);
    let e = o.handle_mqtt_response(MqttResponse { status: Err(()), topic: ValueType::Humidity }, 1000);
    assert!(matches!(e, UiEffect::ShowStatus { value: ValueType::Humidity, sent: false }));
    let e = o.tick(1500, &cfg, None);
    assert!(!e.iter().any(|x| matches!(x, UiEffect::ClearStatus(_))));
    let e = o.tick(2000, &cfg, None);
    assert!(e.iter().any(|x| matches!(x, UiEffect::ClearStatus(ValueType::Humidity))));
    assert!(o.send_trackers.humidity.handled);
}

#[test]
fn sensor_read_follows_its_interval() {
    let cfg = SharedConfig::new();
    let mut o = Ui::new(0);
    assert!(!o.sensor_read_due(1999, &cfg));
    assert!(o.sensor_read_due(2000, &cfg));
    let e = o.tick(2000, &cfg, Some(Ok((22, 41))));
    assert_eq!(
        publishes(&e),
        vec![
            MqttMessage { topic: ValueType::Temperature, value: 22 },
            MqttMessage { topic: ValueType::Humidity, value: 41 },
        ]
    );
    assert_eq!((o.values.temperature, o.values.humidity), (22, 41));
    assert!(!o.sensor_read_due(3000, &cfg));
    // a second later the highlight is removed
    let e = o.tick(3000, &cfg, None);
    assert!(e.iter().any(|x| matches!(x, UiEffect::ShowValue { value: ValueType::Temperature, highlighted: false })));
}

#[test]
fn failed_sensor_read_changes_nothing() {
    let cfg = SharedConfig::new();
    let mut o = Ui::new(0);
    let e = o.tick(2000, &cfg, Some(Err(DhtError::ChecksumMismatch)));
    assert!(publishes(&e).is_empty());
    assert_eq!(o.values.temperature, 255);
    assert!(o.sensor_read_due(2100, &cfg));
}

#[test]
fn quiet_sensor_falls_back_to_zero() {
    let cfg = SharedConfig::new();
    let mut o = Ui::new(0);
    o.handle_sensor_message(SensorMessage::MotionSensor, 0, &cfg);
    // interval 2 s plus one second
    let e = o.tick(2999, &cfg, None);
    assert!(!publishes(&e).contains(&MqttMessage { topic: ValueType::Motion, value: 0 }));
    let e = o.tick(3000, &cfg, None);
    assert!(publishes(&e).contains(&MqttMessage { topic: ValueType::Motion, value: 0 }));
    assert_eq!(o.values.motion, 0);
}

#[test]
fn switched_off_sources_are_left_alone() {
    let mut cfg = SharedConfig::new();
    cfg.toggle(DelaySelection::DHT);
    cfg.toggle(DelaySelection::Motion);
    cfg.toggle(DelaySelection::Contact);
    let mut o = Ui::new(0);
    assert!(!o.sensor_read_due(100_000, &cfg));
    let e = o.tick(100_000, &cfg, Some(Ok((1, 1))));
    assert!(e.is_empty());
}
