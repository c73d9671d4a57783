//! The orchestrator's decisions: the setup menu, what each event changes,
//! and the per-tick schedule that reads the sensor and expires alerts and
//! status messages. Drawing is left to the caller, who carries out the
//! effects returned here in order.
use vstd::prelude::*;
use crate::config::{
    ConfigView, DelaySelection, SharedConfig, MAX_INTERVAL_SECS, MIN_INTERVAL_SECS,
    enabled_in, interval_in, interval_set, toggled,
};
use crate::dht::DhtError;
use crate::input::{ButtonType, SensorMessage};
use crate::mqtt::{MqttMessage, MqttResponse, ValueType};

verus! {

/// Vertical positions of the five text lines of the screen.
pub struct DisplayLine;

impl DisplayLine {
    pub const LINE1: i32 = 0;
    pub const LINE2: i32 = 12;
    pub const LINE3: i32 = 24;
    pub const LINE4: i32 = 36;
    pub const LINE5: i32 = 48;
}

/// Left margin of every line.
pub const DISPLAY_INDENT: i32 = 2;

/// Width of one character.
pub const CHAR_WIDTH: i32 = 6;

/// Where a publish status is written on a value's line.
pub const MQTT_PROMPT_INDENT: i32 = DISPLAY_INDENT + 14 * CHAR_WIDTH;

/// A point on the screen.
#[derive(Debug, Clone, Copy, PartialEq, Eq, Structural)]
pub struct Position {
    pub x: i32,
    pub y: i32,
}

/// Where a value is drawn: after its label, on its line.
pub open spec fn point_of(v: ValueType) -> (int, int) {
    match v {
        ValueType::Temperature => (DISPLAY_INDENT + 6 * CHAR_WIDTH, DisplayLine::LINE1 as int),
        ValueType::Humidity => (DISPLAY_INDENT + 10 * CHAR_WIDTH, DisplayLine::LINE2 as int),
        ValueType::Motion => (DISPLAY_INDENT + 8 * CHAR_WIDTH, DisplayLine::LINE3 as int),
        ValueType::Contact => (DISPLAY_INDENT + 9 * CHAR_WIDTH, DisplayLine::LINE4 as int),
    }
}

impl ValueType {
    /// The line each value is shown on.
    pub fn line(&self) -> (r: i32)
        ensures
            r == (match *self {
                ValueType::Temperature => DisplayLine::LINE1,
                ValueType::Humidity => DisplayLine::LINE2,
                ValueType::Motion => DisplayLine::LINE3,
                ValueType::Contact => DisplayLine::LINE4,
            }),
    {
        match self {
            ValueType::Temperature => DisplayLine::LINE1,
            ValueType::Humidity => DisplayLine::LINE2,
            ValueType::Motion => DisplayLine::LINE3,
            ValueType::Contact => DisplayLine::LINE4,
        }
    }

    /// Where each value is drawn: after its label, on its line.
    pub fn point(&self) -> (r: Position)
        ensures
            (r.x as int, r.y as int) == point_of(*self),
    {
        match self {
            ValueType::Temperature => Position { x: DISPLAY_INDENT + 6 * CHAR_WIDTH, y: DisplayLine::LINE1 },
            ValueType::Humidity => Position { x: DISPLAY_INDENT + 10 * CHAR_WIDTH, y: DisplayLine::LINE2 },
            ValueType::Motion => Position { x: DISPLAY_INDENT + 8 * CHAR_WIDTH, y: DisplayLine::LINE3 },
            ValueType::Contact => Position { x: DISPLAY_INDENT + 9 * CHAR_WIDTH, y: DisplayLine::LINE4 },
        }
    }
}

/// The screens of the user interface.
#[derive(Debug, Clone, Copy, PartialEq, Eq, Structural)]
pub enum UiState {
    /// Choosing which item to set up.
    SelectingDelay,
    /// Changing the chosen item.
    ModifyingDelay,
    /// Showing the readings.
    Displaying,
}

/// The item above `s` in the setup list; the first stays put.
pub open spec fn previous_of(s: DelaySelection) -> DelaySelection {
    match s {
        DelaySelection::DHT => DelaySelection::DHT,
        DelaySelection::Motion => DelaySelection::DHT,
        DelaySelection::Contact => DelaySelection::Motion,
        DelaySelection::MQTT => DelaySelection::Contact,
    }
}

/// The item below `s` in the setup list; the last stays put.
pub open spec fn next_of(s: DelaySelection) -> DelaySelection {
    match s {
        DelaySelection::DHT => DelaySelection::Motion,
        DelaySelection::Motion => DelaySelection::Contact,
        DelaySelection::Contact => DelaySelection::MQTT,
        DelaySelection::MQTT => DelaySelection::MQTT,
    }
}

impl DelaySelection {
    /// The item above this one; the first stays put.
    pub fn previous(&self) -> (r: DelaySelection)
        ensures
            r == previous_of(*self),
    {
        match self {
            DelaySelection::DHT => DelaySelection::DHT,
            DelaySelection::Motion => DelaySelection::DHT,
            DelaySelection::Contact => DelaySelection::Motion,
            DelaySelection::MQTT => DelaySelection::Contact,
        }
    }

    /// The item below this one; the last stays put.
    pub fn next(&self) -> (r: DelaySelection)
        ensures
            r == next_of(*self),
    {
        match self {
            DelaySelection::DHT => DelaySelection::Motion,
            DelaySelection::Motion => DelaySelection::Contact,
            DelaySelection::Contact => DelaySelection::MQTT,
            DelaySelection::MQTT => DelaySelection::MQTT,
        }
    }

    /// The line the item is listed on.
    pub fn line(&self) -> (r: i32)
        ensures
            r == (match *self {
                DelaySelection::DHT => DisplayLine::LINE1,
                DelaySelection::Motion => DisplayLine::LINE2,
                DelaySelection::Contact => DisplayLine::LINE3,
                DelaySelection::MQTT => DisplayLine::LINE4,
            }),
    {
        match self {
            DelaySelection::DHT => DisplayLine::LINE1,
            DelaySelection::Motion => DisplayLine::LINE2,
            DelaySelection::Contact => DisplayLine::LINE3,
            DelaySelection::MQTT => DisplayLine::LINE4,
        }
    }
}

/// When something last happened, and whether its display was dealt with.
#[derive(Debug, Clone, Copy, PartialEq, Eq, Structural)]
pub struct Tracker {
    pub time_ms: u64,
    pub handled: bool,
}

impl Tracker {
    /// Nothing happened yet: dealt with.
    pub fn new(now_ms: u64) -> (r: Tracker)
        ensures
            r == (Tracker { time_ms: now_ms, handled: true }),
    {
        Tracker { time_ms: now_ms, handled: true }
    }

    /// Something happened at `now_ms` and waits to be dealt with.
    pub fn reset(&mut self, now_ms: u64)
        ensures
            *final(self) == (Tracker { time_ms: now_ms, handled: false }),
    {
        self.time_ms = now_ms;
        self.handled = false;
    }
}

/// Whether at least `secs` whole seconds passed since `t` at `now_ms`.
pub open spec fn elapsed_at_least(t: Tracker, now_ms: u64, secs: int) -> bool {
    now_ms >= t.time_ms && now_ms - t.time_ms >= secs * 1000
}

fn elapsed_secs_at_least(t: &Tracker, now_ms: u64, secs: u64) -> (r: bool)
    requires
        secs <= 1000,
    ensures
        r == elapsed_at_least(*t, now_ms, secs as int),
{
    now_ms >= t.time_ms && now_ms - t.time_ms >= secs * 1000
}

/// When each value was last published, for showing the publish status.
#[derive(Debug, Clone, Copy, PartialEq, Eq, Structural)]
pub struct SendTrackers {
    pub temperature: Tracker,
    pub humidity: Tracker,
    pub motion: Tracker,
    pub contact: Tracker,
}

impl SendTrackers {
    /// All dealt with, as of `now_ms`.
    pub fn new(now_ms: u64) -> (r: SendTrackers)
        ensures
            r.temperature == (Tracker { time_ms: now_ms, handled: true }),
            r.humidity == (Tracker { time_ms: now_ms, handled: true }),
            r.motion == (Tracker { time_ms: now_ms, handled: true }),
            r.contact == (Tracker { time_ms: now_ms, handled: true }),
    {
        SendTrackers {
            temperature: Tracker::new(now_ms),
            humidity: Tracker::new(now_ms),
            motion: Tracker::new(now_ms),
            contact: Tracker::new(now_ms),
        }
    }
}

/// When each source was last read, for highlighting fresh values.
#[derive(Debug, Clone, Copy, PartialEq, Eq, Structural)]
pub struct ReadTrackers {
    pub dht: Tracker,
    pub motion: Tracker,
    pub contact: Tracker,
}

impl ReadTrackers {
    /// All dealt with, as of `now_ms`.
    pub fn new(now_ms: u64) -> (r: ReadTrackers)
        ensures
            r.dht == (Tracker { time_ms: now_ms, handled: true }),
            r.motion == (Tracker { time_ms: now_ms, handled: true }),
            r.contact == (Tracker { time_ms: now_ms, handled: true }),
    {
        ReadTrackers { dht: Tracker::new(now_ms), motion: Tracker::new(now_ms), contact: Tracker::new(now_ms) }
    }
}

/// Value shown for a reading not taken yet.
pub const UNKNOWN_VALUE: u8 = 255;

/// The latest values.
#[derive(Debug, Clone, Copy, PartialEq, Eq, Structural)]
pub struct CurrentValues {
    pub temperature: u8,
    pub humidity: u8,
    pub motion: u8,
    pub contact: u8,
}

impl CurrentValues {
    /// Temperature and humidity unknown, no motion, no contact.
    pub fn new() -> (r: CurrentValues)
        ensures
            r == (CurrentValues { temperature: UNKNOWN_VALUE, humidity: UNKNOWN_VALUE, motion: 0, contact: 0 }),
    {
        CurrentValues { temperature: UNKNOWN_VALUE, humidity: UNKNOWN_VALUE, motion: 0, contact: 0 }
    }
}

/// Something the caller shows or sends, in the order returned.
#[derive(Debug, Clone, Copy)]
pub enum UiEffect {
    /// Show "Sending" by the value and queue the message for the session.
    Publish(MqttMessage),
    /// Draw the current value, highlighted when freshly read.
    ShowValue { value: ValueType, highlighted: bool },
    /// Show by the value whether its last publish was sent.
    ShowStatus { value: ValueType, sent: bool },
    /// Clear the publish status by the value.
    ClearStatus(ValueType),
}

/// How much of the screen a menu action changes.
#[derive(Debug, Clone, Copy, PartialEq, Eq, Structural)]
pub enum MenuRender {
    /// A new screen: draw everything.
    Redraw,
    /// Same screen: draw its content again.
    Refresh,
    /// Same screen, another item chosen: clear the marker by `from`, then
    /// draw the content again.
    MoveArrow { from: DelaySelection },
}

/// The orchestrator's state: the screen, the chosen setup item, the latest
/// values and when things happened. Drawing is the caller's.
#[derive(Debug, Clone, Copy, PartialEq, Eq, Structural)]
pub struct Ui {
    pub state: UiState,
    pub selection: DelaySelection,
    pub values: CurrentValues,
    pub read_trackers: ReadTrackers,
    pub send_trackers: SendTrackers,
}

/// `cfg` after one step up or down of the interval of `s`; only for an item
/// switched on that has an interval, and never past the range.
pub open spec fn interval_stepped(cfg: ConfigView, s: DelaySelection, up: bool) -> ConfigView {
    if enabled_in(cfg, s) && s != DelaySelection::MQTT {
        let v = interval_in(cfg, s)->0;
        if up && v < MAX_INTERVAL_SECS {
            interval_set(cfg, s, (v + 1) as u8)
        } else if !up && v > MIN_INTERVAL_SECS {
            interval_set(cfg, s, (v - 1) as u8)
        } else {
            cfg
        }
    } else {
        cfg
    }
}

/// Screen, chosen item, settings and rendering after a button press. On the
/// readings screen any button opens the setup list. In the list, A goes
/// back to the readings, B and C move up and down, D opens the chosen item.
/// On an item, A switches it, B and C step its interval, D goes back.
pub open spec fn menu_next(state: UiState, sel: DelaySelection, cfg: ConfigView, button: ButtonType) -> (UiState, DelaySelection, ConfigView, MenuRender) {
    match state {
        UiState::Displaying => (UiState::SelectingDelay, sel, cfg, MenuRender::Redraw),
        UiState::SelectingDelay => match button {
            ButtonType::A => (UiState::Displaying, DelaySelection::DHT, cfg, MenuRender::Redraw),
            ButtonType::B => (state, previous_of(sel), cfg, MenuRender::MoveArrow { from: sel }),
            ButtonType::C => (state, next_of(sel), cfg, MenuRender::MoveArrow { from: sel }),
            ButtonType::D => (UiState::ModifyingDelay, sel, cfg, MenuRender::Redraw),
        },
        UiState::ModifyingDelay => match button {
            ButtonType::A => (state, sel, toggled(cfg, sel), MenuRender::Refresh),
            ButtonType::B => (state, sel, interval_stepped(cfg, sel, true), MenuRender::Refresh),
            ButtonType::C => (state, sel, interval_stepped(cfg, sel, false), MenuRender::Refresh),
            ButtonType::D => (UiState::SelectingDelay, sel, cfg, MenuRender::Redraw),
        },
    }
}

/// The read tracker of a value; temperature and humidity share one.
pub open spec fn read_tracker_of(o: Ui, v: ValueType) -> Tracker {
    match v {
        ValueType::Temperature | ValueType::Humidity => o.read_trackers.dht,
        ValueType::Motion => o.read_trackers.motion,
        ValueType::Contact => o.read_trackers.contact,
    }
}

/// `o` with the read tracker of `v` replaced by `t`.
pub open spec fn with_read_tracker(o: Ui, v: ValueType, t: Tracker) -> Ui {
    match v {
        ValueType::Temperature | ValueType::Humidity => Ui { read_trackers: ReadTrackers { dht: t, ..o.read_trackers }, ..o },
        ValueType::Motion => Ui { read_trackers: ReadTrackers { motion: t, ..o.read_trackers }, ..o },
        ValueType::Contact => Ui { read_trackers: ReadTrackers { contact: t, ..o.read_trackers }, ..o },
    }
}

/// The send tracker of a value.
pub open spec fn send_tracker_of(o: Ui, v: ValueType) -> Tracker {
    match v {
        ValueType::Temperature => o.send_trackers.temperature,
        ValueType::Humidity => o.send_trackers.humidity,
        ValueType::Motion => o.send_trackers.motion,
        ValueType::Contact => o.send_trackers.contact,
    }
}

/// `o` with the send tracker of `v` replaced by `t`.
pub open spec fn with_send_tracker(o: Ui, v: ValueType, t: Tracker) -> Ui {
    match v {
        ValueType::Temperature => Ui { send_trackers: SendTrackers { temperature: t, ..o.send_trackers }, ..o },
        ValueType::Humidity => Ui { send_trackers: SendTrackers { humidity: t, ..o.send_trackers }, ..o },
        ValueType::Motion => Ui { send_trackers: SendTrackers { motion: t, ..o.send_trackers }, ..o },
        ValueType::Contact => Ui { send_trackers: SendTrackers { contact: t, ..o.send_trackers }, ..o },
    }
}

/// `o` with the current value of `v` set to `x`.
pub open spec fn with_value(o: Ui, v: ValueType, x: u8) -> Ui {
    match v {
        ValueType::Temperature => Ui { values: CurrentValues { temperature: x, ..o.values }, ..o },
        ValueType::Humidity => Ui { values: CurrentValues { humidity: x, ..o.values }, ..o },
        ValueType::Motion => Ui { values: CurrentValues { motion: x, ..o.values }, ..o },
        ValueType::Contact => Ui { values: CurrentValues { contact: x, ..o.values }, ..o },
    }
}

/// The setting that switches a value's source.
pub open spec fn source_setting(v: ValueType) -> DelaySelection {
    match v {
        ValueType::Temperature | ValueType::Humidity => DelaySelection::DHT,
        ValueType::Motion => DelaySelection::Motion,
        ValueType::Contact => DelaySelection::Contact,
    }
}

/// A publish of `m`, when publishing is switched on.
pub open spec fn publish_effect(cfg: ConfigView, m: MqttMessage) -> Seq<UiEffect> {
    if enabled_in(cfg, DelaySelection::MQTT) { seq![UiEffect::Publish(m)] } else { seq![] }
}

/// A highlighted draw of `v`, when its source is switched on.
pub open spec fn highlight_effect(cfg: ConfigView, v: ValueType) -> Seq<UiEffect> {
    if enabled_in(cfg, source_setting(v)) {
        seq![UiEffect::ShowValue { value: v, highlighted: true }]
    } else {
        seq![]
    }
}

/// The value type of a sensor alert.
pub open spec fn alert_value(msg: SensorMessage) -> ValueType {
    match msg {
        SensorMessage::MotionSensor => ValueType::Motion,
        SensorMessage::ContactSensor => ValueType::Contact,
    }
}

/// State and effects after an alert of `msg` at `now_ms`: the value becomes 1
/// and is published and highlighted.
pub open spec fn alert_next(o: Ui, msg: SensorMessage, now_ms: u64, cfg: ConfigView) -> (Ui, Seq<UiEffect>) {
    let v = alert_value(msg);
    (
        with_value(with_read_tracker(o, v, Tracker { time_ms: now_ms, handled: false }), v, 1),
        publish_effect(cfg, MqttMessage { topic: v, value: 1 }) + highlight_effect(cfg, v),
    )
}

/// Whether a sensor read is due at `now_ms`: the sensor is switched on and
/// its interval has passed since the last good read.
pub open spec fn read_due(o: Ui, now_ms: u64, cfg: ConfigView) -> bool {
    enabled_in(cfg, DelaySelection::DHT) && elapsed_at_least(o.read_trackers.dht, now_ms, cfg.sensor_secs as int)
}

/// The sensor part of a tick. A due read that succeeded is published,
/// stored and highlighted; otherwise a highlight older than a second is
/// cleared.
pub open spec fn sensor_tick(o: Ui, now_ms: u64, cfg: ConfigView, reading: Option<Result<(u8, u8), DhtError>>) -> (Ui, Seq<UiEffect>) {
    if !enabled_in(cfg, DelaySelection::DHT) {
        (o, seq![])
    } else if read_due(o, now_ms, cfg) {
        match reading {
            Some(Ok((t, h))) => (
                with_value(
                    with_value(with_read_tracker(o, ValueType::Temperature, Tracker { time_ms: now_ms, handled: false }), ValueType::Temperature, t),
                    ValueType::Humidity,
                    h,
                ),
                publish_effect(cfg, MqttMessage { topic: ValueType::Temperature, value: t })
                    + publish_effect(cfg, MqttMessage { topic: ValueType::Humidity, value: h })
                    + seq![
                    UiEffect::ShowValue { value: ValueType::Temperature, highlighted: true },
                    UiEffect::ShowValue { value: ValueType::Humidity, highlighted: true },
                ],
            ),
            _ => (o, seq![]),
        }
    } else if !o.read_trackers.dht.handled && elapsed_at_least(o.read_trackers.dht, now_ms, 1) {
        (
            with_read_tracker(o, ValueType::Temperature, Tracker { handled: true, ..o.read_trackers.dht }),
            seq![
                UiEffect::ShowValue { value: ValueType::Temperature, highlighted: false },
                UiEffect::ShowValue { value: ValueType::Humidity, highlighted: false },
            ],
        )
    } else {
        (o, seq![])
    }
}

/// The part of a tick for the alert value `v` (motion or contact). With no
/// alert for a second longer than its re-arm interval, the value falls back
/// to 0, which is published and highlighted; otherwise a highlight older
/// than a second is cleared.
pub open spec fn alert_tick(o: Ui, v: ValueType, now_ms: u64, cfg: ConfigView) -> (Ui, Seq<UiEffect>) {
    let setting = source_setting(v);
    let t = read_tracker_of(o, v);
    if !enabled_in(cfg, setting) {
        (o, seq![])
    } else if elapsed_at_least(t, now_ms, interval_in(cfg, setting)->0 + 1) {
        (
            with_value(with_read_tracker(o, v, Tracker { time_ms: now_ms, handled: false }), v, 0),
            publish_effect(cfg, MqttMessage { topic: v, value: 0 })
                + seq![UiEffect::ShowValue { value: v, highlighted: true }],
        )
    } else if !t.handled && elapsed_at_least(t, now_ms, 1) {
        (with_read_tracker(o, v, Tracker { handled: true, ..t }), seq![UiEffect::ShowValue { value: v, highlighted: false }])
    } else {
        (o, seq![])
    }
}

/// The part of a tick that clears the publish status of `v` once it was
/// shown for a second.
pub open spec fn status_tick(o: Ui, v: ValueType, now_ms: u64) -> (Ui, Seq<UiEffect>) {
    let t = send_tracker_of(o, v);
    if !t.handled && elapsed_at_least(t, now_ms, 1) {
        (with_send_tracker(o, v, Tracker { handled: true, ..t }), seq![UiEffect::ClearStatus(v)])
    } else {
        (o, seq![])
    }
}

/// A whole tick: the sensor, motion, contact, then the four publish statuses.
pub open spec fn tick_next(o: Ui, now_ms: u64, cfg: ConfigView, reading: Option<Result<(u8, u8), DhtError>>) -> (Ui, Seq<UiEffect>) {
    let (o1, e1) = sensor_tick(o, now_ms, cfg, reading);
    let (o2, e2) = alert_tick(o1, ValueType::Motion, now_ms, cfg);
    let (o3, e3) = alert_tick(o2, ValueType::Contact, now_ms, cfg);
    let (o4, e4) = status_tick(o3, ValueType::Temperature, now_ms);
    let (o5, e5) = status_tick(o4, ValueType::Humidity, now_ms);
    let (o6, e6) = status_tick(o5, ValueType::Motion, now_ms);
    let (o7, e7) = status_tick(o6, ValueType::Contact, now_ms);
    (o7, e1 + e2 + e3 + e4 + e5 + e6 + e7)
}

fn setting_of_value(v: ValueType) -> (r: DelaySelection)
    ensures
        r == source_setting(v),
{
    match v {
        ValueType::Temperature | ValueType::Humidity => DelaySelection::DHT,
        ValueType::Motion => DelaySelection::Motion,
        ValueType::Contact => DelaySelection::Contact,
    }
}

impl Ui {
    /// The readings screen with nothing read yet, as of `now_ms`.
    pub fn new(now_ms: u64) -> (r: Ui)
        ensures
            r.state == UiState::Displaying,
            r.selection == DelaySelection::DHT,
            r.values == (CurrentValues { temperature: UNKNOWN_VALUE, humidity: UNKNOWN_VALUE, motion: 0, contact: 0 }),
            r.read_trackers.dht == (Tracker { time_ms: now_ms, handled: true }),
            r.read_trackers.motion == (Tracker { time_ms: now_ms, handled: true }),
            r.read_trackers.contact == (Tracker { time_ms: now_ms, handled: true }),
            r.send_trackers.temperature == (Tracker { time_ms: now_ms, handled: true }),
            r.send_trackers.humidity == (Tracker { time_ms: now_ms, handled: true }),
            r.send_trackers.motion == (Tracker { time_ms: now_ms, handled: true }),
            r.send_trackers.contact == (Tracker { time_ms: now_ms, handled: true }),
    {
        Ui {
            state: UiState::Displaying,
            selection: DelaySelection::DHT,
            values: CurrentValues::new(),
            read_trackers: ReadTrackers::new(now_ms),
            send_trackers: SendTrackers::new(now_ms),
        }
    }

    /// Whether the orchestrator takes alerts, publish outcomes and ticks.
    /// On the setup screens only buttons are taken; the rest waits in its
    /// mailboxes.
    pub fn takes_all_events(&self) -> (r: bool)
        ensures
            r == (self.state == UiState::Displaying),
    {
        self.state == UiState::Displaying
    }

    fn read_tracker_mut(&mut self, v: ValueType) -> (r: &mut Tracker)
        ensures
            *r == read_tracker_of(*old(self), v),
            *final(self) == with_read_tracker(*old(self), v, *final(r)),
    {
        match v {
            ValueType::Temperature | ValueType::Humidity => &mut self.read_trackers.dht,
            ValueType::Motion => &mut self.read_trackers.motion,
            ValueType::Contact => &mut self.read_trackers.contact,
        }
    }

    fn send_tracker_mut(&mut self, v: ValueType) -> (r: &mut Tracker)
        ensures
            *r == send_tracker_of(*old(self), v),
            *final(self) == with_send_tracker(*old(self), v, *final(r)),
    {
        match v {
            ValueType::Temperature => &mut self.send_trackers.temperature,
            ValueType::Humidity => &mut self.send_trackers.humidity,
            ValueType::Motion => &mut self.send_trackers.motion,
            ValueType::Contact => &mut self.send_trackers.contact,
        }
    }

    fn set_value(&mut self, v: ValueType, x: u8)
        ensures
            *final(self) == with_value(*old(self), v, x),
    {
        match v {
            ValueType::Temperature => self.values.temperature = x,
            ValueType::Humidity => self.values.humidity = x,
            ValueType::Motion => self.values.motion = x,
            ValueType::Contact => self.values.contact = x,
        }
    }

    /// Handles a button press and says how much to draw again.
    pub fn handle_button_press(&mut self, button: ButtonType, cfg: &mut SharedConfig) -> (r: MenuRender)
        ensures
            (final(self).state, final(self).selection, final(cfg)@, r) == menu_next(old(self).state, old(self).selection, old(cfg)@, button),
            final(self).values == old(self).values,
            final(self).read_trackers == old(self).read_trackers,
            final(self).send_trackers == old(self).send_trackers,
    {
            let sel = self.selection;
        match self.state {
            UiState::Displaying => {
                self.state = UiState::SelectingDelay;
                MenuRender::Redraw
            },
            UiState::SelectingDelay => match button {
                ButtonType::A => {
                    self.selection = DelaySelection::DHT;
                    self.state = UiState::Displaying;
                    MenuRender::Redraw
                },
                ButtonType::B => {
                    self.selection = sel.previous();
                    MenuRender::MoveArrow { from: sel }
                },
                ButtonType::C => {
                    self.selection = sel.next();
                    MenuRender::MoveArrow { from: sel }
                },
                ButtonType::D => {
                    self.state = UiState::ModifyingDelay;
                    MenuRender::Redraw
                },
            },
            UiState::ModifyingDelay => match button {
                ButtonType::A => {
                    cfg.toggle(sel);
                    MenuRender::Refresh
                },
                ButtonType::B => {
                    step_interval(cfg, sel, true);
                    MenuRender::Refresh
                },
                ButtonType::C => {
                    step_interval(cfg, sel, false);
                    MenuRender::Refresh
                },
                ButtonType::D => {
                    self.state = UiState::SelectingDelay;
                    MenuRender::Redraw
                },
            },
        }
    }

    /// Handles an alert of a sensor on the readings screen and returns what
    /// to show and send.
    pub fn handle_sensor_message(&mut self, msg: SensorMessage, now_ms: u64, cfg: &SharedConfig) -> (r: Vec<UiEffect>)
        requires
            old(self).state == UiState::Displaying,
        ensures
            (*final(self), r@) == alert_next(*old(self), msg, now_ms, cfg@),
    {
        let v = match msg {
            SensorMessage::MotionSensor => ValueType::Motion,
            SensorMessage::ContactSensor => ValueType::Contact,
        };
        let mut effects: Vec<UiEffect> = Vec::new();
        if cfg.is_enabled(DelaySelection::MQTT) {
            effects.push(UiEffect::Publish(MqttMessage { topic: v, value: 1 }));
        }
        self.read_tracker_mut(v).reset(now_ms);
        self.set_value(v, 1);
        if cfg.is_enabled(setting_of_value(v)) {
            effects.push(UiEffect::ShowValue { value: v, highlighted: true });
        }
        assert(effects@ =~= publish_effect(cfg@, MqttMessage { topic: v, value: 1 }) + highlight_effect(cfg@, v));
        effects
    }

    /// Handles the outcome of a publish on the readings screen: shows whether
    /// it was sent, for a second from `now_ms`.
    pub fn handle_mqtt_response(&mut self, resp: MqttResponse, now_ms: u64) -> (r: UiEffect)
        requires
            old(self).state == UiState::Displaying,
        ensures
            r == (UiEffect::ShowStatus { value: resp.topic, sent: resp.status is Ok }),
            *final(self) == with_send_tracker(*old(self), resp.topic, Tracker { time_ms: now_ms, handled: false }),
    {
        self.send_tracker_mut(resp.topic).reset(now_ms);
        UiEffect::ShowStatus { value: resp.topic, sent: resp.status.is_ok() }
    }

    /// Whether the tick at `now_ms` reads the sensor first.
    pub fn sensor_read_due(&self, now_ms: u64, cfg: &SharedConfig) -> (r: bool)
        ensures
            r == read_due(*self, now_ms, cfg@),
    {
        match cfg.interval(DelaySelection::DHT) {
            Some(secs) => cfg.is_enabled(DelaySelection::DHT) && elapsed_secs_at_least(&self.read_trackers.dht, now_ms, secs as u64),
            None => false,
        }
    }

    fn sensor_tick(&mut self, now_ms: u64, cfg: &SharedConfig, reading: Option<Result<(u8, u8), DhtError>>, effects: &mut Vec<UiEffect>)
        ensures
            *final(self) == sensor_tick(*old(self), now_ms, cfg@, reading).0,
            final(effects)@ == old(effects)@ + sensor_tick(*old(self), now_ms, cfg@, reading).1,
    {
        let ghost start = effects@;
        if !cfg.is_enabled(DelaySelection::DHT) {
            assert(effects@ =~= start + seq![]);
            return;
        }
        if self.sensor_read_due(now_ms, cfg) {
            if let Some(Ok((t, h))) = reading {
                let publishing = cfg.is_enabled(DelaySelection::MQTT);
                if publishing {
                    effects.push(UiEffect::Publish(MqttMessage { topic: ValueType::Temperature, value: t }));
                    effects.push(UiEffect::Publish(MqttMessage { topic: ValueType::Humidity, value: h }));
                }
                self.read_trackers.dht.reset(now_ms);
                self.values.temperature = t;
                self.values.humidity = h;
                effects.push(UiEffect::ShowValue { value: ValueType::Temperature, highlighted: true });
                effects.push(UiEffect::ShowValue { value: ValueType::Humidity, highlighted: true });
                assert(effects@ =~= start + sensor_tick(*old(self), now_ms, cfg@, reading).1);
            } else {
                assert(effects@ =~= start + seq![]);
            }
        } else if !self.read_trackers.dht.handled && elapsed_secs_at_least(&self.read_trackers.dht, now_ms, 1) {
            self.read_trackers.dht.handled = true;
            effects.push(UiEffect::ShowValue { value: ValueType::Temperature, highlighted: false });
            effects.push(UiEffect::ShowValue { value: ValueType::Humidity, highlighted: false });
            assert(effects@ =~= start + sensor_tick(*old(self), now_ms, cfg@, reading).1);
        } else {
            assert(effects@ =~= start + seq![]);
        }
    }

    fn alert_tick(&mut self, v: ValueType, now_ms: u64, cfg: &SharedConfig, effects: &mut Vec<UiEffect>)
        requires
            v == ValueType::Motion || v == ValueType::Contact,
        ensures
            *final(self) == alert_tick(*old(self), v, now_ms, cfg@).0,
            final(effects)@ == old(effects)@ + alert_tick(*old(self), v, now_ms, cfg@).1,
    {
        let ghost start = effects@;
        let setting = setting_of_value(v);
        let secs: u64 = match cfg.interval(setting) {
            Some(s) => s as u64,
            None => 0,
        };
        if !cfg.is_enabled(setting) {
            assert(effects@ =~= start + seq![]);
            return;
        }
        let t = *self.read_tracker_mut(v);
        if elapsed_secs_at_least(&t, now_ms, secs + 1) {
            if cfg.is_enabled(DelaySelection::MQTT) {
                effects.push(UiEffect::Publish(MqttMessage { topic: v, value: 0 }));
            }
            self.read_tracker_mut(v).reset(now_ms);
            self.set_value(v, 0);
            effects.push(UiEffect::ShowValue { value: v, highlighted: true });
            assert(effects@ =~= start + alert_tick(*old(self), v, now_ms, cfg@).1);
        } else if !t.handled && elapsed_secs_at_least(&t, now_ms, 1) {
            self.read_tracker_mut(v).handled = true;
            effects.push(UiEffect::ShowValue { value: v, highlighted: false });
            assert(effects@ =~= start + alert_tick(*old(self), v, now_ms, cfg@).1);
        } else {
            assert(effects@ =~= start + seq![]);
        }
    }

    fn status_tick(&mut self, v: ValueType, now_ms: u64, effects: &mut Vec<UiEffect>)
        ensures
            *final(self) == status_tick(*old(self), v, now_ms).0,
            final(effects)@ == old(effects)@ + status_tick(*old(self), v, now_ms).1,
    {
        let ghost start = effects@;
        let t = *self.send_tracker_mut(v);
        if !t.handled && elapsed_secs_at_least(&t, now_ms, 1) {
            self.send_tracker_mut(v).handled = true;
            effects.push(UiEffect::ClearStatus(v));
            assert(effects@ =~= start + status_tick(*old(self), v, now_ms).1);
        } else {
            assert(effects@ =~= start + seq![]);
        }
    }

    /// One tick of the readings screen at `now_ms`. `reading` is the result
    /// of the sensor read made before it when `sensor_read_due` said so, and
    /// `None` when no read was made. Returns what to show and send, in order.
    pub fn tick(&mut self, now_ms: u64, cfg: &SharedConfig, reading: Option<Result<(u8, u8), DhtError>>) -> (r: Vec<UiEffect>)
        ensures
            (*final(self), r@) == tick_next(*old(self), now_ms, cfg@, reading),
    {
        let mut effects: Vec<UiEffect> = Vec::new();
        self.sensor_tick(now_ms, cfg, reading, &mut effects);
        self.alert_tick(ValueType::Motion, now_ms, cfg, &mut effects);
        self.alert_tick(ValueType::Contact, now_ms, cfg, &mut effects);
        self.status_tick(ValueType::Temperature, now_ms, &mut effects);
        self.status_tick(ValueType::Humidity, now_ms, &mut effects);
        self.status_tick(ValueType::Motion, now_ms, &mut effects);
        self.status_tick(ValueType::Contact, now_ms, &mut effects);
        assert(effects@ =~= seq![] + tick_next(*old(self), now_ms, cfg@, reading).1);
        effects
    }
}

/// Steps the interval of `s` up or down by one second, as the setup screen does.
fn step_interval(cfg: &mut SharedConfig, s: DelaySelection, up: bool)
    ensures
        final(cfg)@ == interval_stepped(old(cfg)@, s, up),
{
    if cfg.is_enabled(s) {
        if let Some(v) = cfg.interval(s) {
            if up && v < MAX_INTERVAL_SECS {
                cfg.set_interval(s, v + 1);
            } else if !up && v > MIN_INTERVAL_SECS {
                cfg.set_interval(s, v - 1);
            }
        }
    }
}

} // verus!
