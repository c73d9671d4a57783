//! Debounced input sources: buttons, the motion sensor and the contact
//! sensor, each turning raw edges into events after a settling window.
use vstd::prelude::*;
use crate::config::{ConfigView, DelaySelection, SharedConfig, enabled_in, interval_in};

verus! {

/// How long, in milliseconds, an edge must hold before it counts.
pub const DEBOUNCE_MS: u64 = 20;

/// How often, in milliseconds, a switched-off sensor checks its switch again.
pub const DISABLED_POLL_MS: u64 = 1000;

/// Capacity of the mailbox that the four buttons share.
pub const BUTTON_QUEUE_CAPACITY: usize = 10;

/// Capacity of the mailbox that the two sensors share: a sensor waits until
/// the previous alert was taken.
pub const ALERT_QUEUE_CAPACITY: usize = 1;

/// Which button was pressed.
#[derive(Debug, Clone, Copy, PartialEq, Eq, Structural)]
pub enum ButtonType {
    A,
    B,
    C,
    D,
}

/// Which sensor raised an alert.
#[derive(Debug, Clone, Copy, PartialEq, Eq, Structural)]
pub enum SensorMessage {
    MotionSensor,
    ContactSensor,
}

/// An event produced by an input source.
#[derive(Debug, Clone, Copy, PartialEq, Eq, Structural)]
pub enum InputEvent {
    Button(ButtonType),
    Sensor(SensorMessage),
}

/// The physical input a source watches.
#[derive(Debug, Clone, Copy, PartialEq, Eq, Structural)]
pub enum SourceKind {
    /// A momentary button: active low, with a pull-up.
    Button(ButtonType),
    /// The motion sensor: active high.
    Motion,
    /// The contact sensor: active high.
    Contact,
}

/// Where a source stands.
#[derive(Debug, Clone, Copy, PartialEq, Eq, Structural)]
pub enum SourcePhase {
    /// Sleeping for `ms` milliseconds.
    Sleeping { ms: u64 },
    /// Waiting for the line to turn active.
    AwaitingEdge,
    /// Waiting out the debounce window after an edge.
    Settling,
    /// Handing an event to its mailbox.
    Delivering,
}

/// What the task running a source observed.
#[derive(Debug, Clone, Copy, PartialEq, Eq, Structural)]
pub enum SourceSignal {
    /// A sleep ended.
    Woke,
    /// The line turned active.
    Edge,
    /// The line left its active level before the debounce window ended.
    Bounced,
    /// The line held its active level through the debounce window and was
    /// read at its end.
    Sampled { line_high: bool },
    /// The event was taken by its mailbox.
    Delivered,
}

/// What the task running a source does next.
#[derive(Debug, Clone, Copy, PartialEq, Eq, Structural)]
pub enum SourceAction {
    /// Sleep `ms` milliseconds, then signal `Woke`.
    Sleep { ms: u64 },
    /// Watch the line for `ms` milliseconds: signal `Bounced` as soon as it
    /// leaves its active level (high when `active_high`, else low), or
    /// `Sampled` with the level read when the window ends.
    Settle { ms: u64, active_high: bool },
    /// Wait for the line to turn active (to read high when `active_high`,
    /// else a falling edge), then signal `Edge`.
    AwaitEdge { active_high: bool },
    /// Hand this event to its mailbox, waiting while it is full, then signal
    /// `Delivered`.
    Emit(InputEvent),
}

/// A debounced input source.
#[derive(Debug, Clone, Copy, PartialEq, Eq, Structural)]
pub struct DebouncedSource {
    pub kind: SourceKind,
    pub phase: SourcePhase,
}

/// The event a source of kind `k` produces.
pub open spec fn event_of(k: SourceKind) -> InputEvent {
    match k {
        SourceKind::Button(b) => InputEvent::Button(b),
        SourceKind::Motion => InputEvent::Sensor(SensorMessage::MotionSensor),
        SourceKind::Contact => InputEvent::Sensor(SensorMessage::ContactSensor),
    }
}

/// Whether the line of a source of kind `k` is active at the given level.
pub open spec fn is_active(k: SourceKind, line_high: bool) -> bool {
    match k {
        SourceKind::Button(_) => !line_high,
        _ => line_high,
    }
}

/// The configuration item that switches a sensor on and off and holds its
/// re-arm delay; buttons have none.
pub open spec fn setting_of(k: SourceKind) -> Option<DelaySelection> {
    match k {
        SourceKind::Button(_) => None,
        SourceKind::Motion => Some(DelaySelection::Motion),
        SourceKind::Contact => Some(DelaySelection::Contact),
    }
}

/// Whether a source of kind `k` may emit under `cfg`: a button always, a
/// sensor while it is switched on.
pub open spec fn switched_on(k: SourceKind, cfg: ConfigView) -> bool {
    setting_of(k) is None || enabled_in(cfg, setting_of(k)->0)
}

/// A source ready to watch its line: a switched-off sensor sleeps and checks
/// again, anything else waits for an edge.
pub open spec fn ready(k: SourceKind, cfg: ConfigView) -> (DebouncedSource, SourceAction) {
    if !switched_on(k, cfg) {
        (
            DebouncedSource { kind: k, phase: SourcePhase::Sleeping { ms: DISABLED_POLL_MS } },
            SourceAction::Sleep { ms: DISABLED_POLL_MS },
        )
    } else {
        (
            DebouncedSource { kind: k, phase: SourcePhase::AwaitingEdge },
            SourceAction::AwaitEdge { active_high: !(k is Button) },
        )
    }
}

/// The action a source in `phase` waits on.
pub open spec fn pending(k: SourceKind, phase: SourcePhase) -> SourceAction {
    match phase {
        SourcePhase::Sleeping { ms } => SourceAction::Sleep { ms },
        SourcePhase::AwaitingEdge => SourceAction::AwaitEdge { active_high: !(k is Button) },
        SourcePhase::Settling => SourceAction::Settle { ms: DEBOUNCE_MS, active_high: !(k is Button) },
        SourcePhase::Delivering => SourceAction::Emit(event_of(k)),
    }
}

/// Next state and action of source `s` on signal `sig` under `cfg`.
/// An edge is taken only when the line stays active through the debounce
/// window and the source is still switched on at its end. A signal that the phase does not wait for changes nothing and repeats the
/// pending action.
pub open spec fn source_next(s: DebouncedSource, sig: SourceSignal, cfg: ConfigView) -> (DebouncedSource, SourceAction) {
    match (s.phase, sig) {
        (SourcePhase::Sleeping { .. }, SourceSignal::Woke) => ready(s.kind, cfg),
        (SourcePhase::AwaitingEdge, SourceSignal::Edge) => (
            DebouncedSource { phase: SourcePhase::Settling, ..s },
            SourceAction::Settle { ms: DEBOUNCE_MS, active_high: !(s.kind is Button) },
        ),
        (SourcePhase::Settling, SourceSignal::Bounced) => ready(s.kind, cfg),
        (SourcePhase::Settling, SourceSignal::Sampled { line_high }) => if is_active(s.kind, line_high)
            && switched_on(s.kind, cfg) {
            (DebouncedSource { phase: SourcePhase::Delivering, ..s }, SourceAction::Emit(event_of(s.kind)))
        } else {
            ready(s.kind, cfg)
        },
        (SourcePhase::Delivering, SourceSignal::Delivered) => match setting_of(s.kind) {
            Some(setting) => {
                let ms = (1000 * interval_in(cfg, setting)->0) as u64;
                (
                    DebouncedSource { phase: SourcePhase::Sleeping { ms }, ..s },
                    SourceAction::Sleep { ms },
                )
            },
            None => ready(s.kind, cfg),
        },
        _ => (s, pending(s.kind, s.phase)),
    }
}

impl DebouncedSource {
    /// A source of kind `kind`, as at the end of a sleep: its first signal is
    /// `Woke`.
    pub fn new(kind: SourceKind) -> (r: DebouncedSource)
        ensures
            r.kind == kind,
            r.phase == (SourcePhase::Sleeping { ms: 0 }),
    {
        DebouncedSource { kind, phase: SourcePhase::Sleeping { ms: 0 } }
    }

    fn event(&self) -> (r: InputEvent)
        ensures
            r == event_of(self.kind),
    {
        match self.kind {
            SourceKind::Button(b) => InputEvent::Button(b),
            SourceKind::Motion => InputEvent::Sensor(SensorMessage::MotionSensor),
            SourceKind::Contact => InputEvent::Sensor(SensorMessage::ContactSensor),
        }
    }

    fn setting(&self) -> (r: Option<DelaySelection>)
        ensures
            r == setting_of(self.kind),
    {
        match self.kind {
            SourceKind::Button(_) => None,
            SourceKind::Motion => Some(DelaySelection::Motion),
            SourceKind::Contact => Some(DelaySelection::Contact),
        }
    }

    fn make_ready(&mut self, cfg: &SharedConfig) -> (r: SourceAction)
        ensures
            (*final(self), r) == ready(old(self).kind, cfg@),
    {
        if let Some(setting) = self.setting() {
            if !cfg.is_enabled(setting) {
                self.phase = SourcePhase::Sleeping { ms: DISABLED_POLL_MS };
                return SourceAction::Sleep { ms: DISABLED_POLL_MS };
            }
        }
        self.phase = SourcePhase::AwaitingEdge;
        SourceAction::AwaitEdge { active_high: !matches!(self.kind, SourceKind::Button(_)) }
    }

    /// Takes the signal the task observed and returns what it does next.
    pub fn step(&mut self, sig: SourceSignal, cfg: &SharedConfig) -> (r: SourceAction)
        ensures
            (*final(self), r) == source_next(*old(self), sig, cfg@),
    {
        match (self.phase, sig) {
            (SourcePhase::Sleeping { .. }, SourceSignal::Woke) => self.make_ready(cfg),
            (SourcePhase::AwaitingEdge, SourceSignal::Edge) => {
                self.phase = SourcePhase::Settling;
                SourceAction::Settle {
                    ms: DEBOUNCE_MS,
                    active_high: !matches!(self.kind, SourceKind::Button(_)),
                }
            },
            (SourcePhase::Settling, SourceSignal::Bounced) => self.make_ready(cfg),
            (SourcePhase::Settling, SourceSignal::Sampled { line_high }) => {
                let active = match self.kind {
                    SourceKind::Button(_) => !line_high,
                    _ => line_high,
                };
                let on = match self.setting() {
                    Some(setting) => cfg.is_enabled(setting),
                    None => true,
                };
                if active && on {
                    self.phase = SourcePhase::Delivering;
                    SourceAction::Emit(self.event())
                } else {
                    self.make_ready(cfg)
                }
            },
            (SourcePhase::Delivering, SourceSignal::Delivered) => match self.setting() {
                Some(setting) => {
                    let secs = match cfg.interval(setting) {
                        Some(secs) => secs,
                        None => 0,
                    };
                    let ms = 1000 * secs as u64;
                    self.phase = SourcePhase::Sleeping { ms };
                    SourceAction::Sleep { ms }
                },
                None => self.make_ready(cfg),
            },
            (SourcePhase::Sleeping { ms }, _) => SourceAction::Sleep { ms },
            (SourcePhase::AwaitingEdge, _) => SourceAction::AwaitEdge {
                active_high: !matches!(self.kind, SourceKind::Button(_)),
            },
            (SourcePhase::Settling, _) => SourceAction::Settle {
                ms: DEBOUNCE_MS,
                active_high: !matches!(self.kind, SourceKind::Button(_)),
            },
            (SourcePhase::Delivering, _) => SourceAction::Emit(self.event()),
        }
    }
}

/// A source waiting for an edge emits exactly one event, its own, when its
/// line stays active through the debounce window and it is still switched
/// on; it emits none when the line leaves its active level within the
/// window, when the line reads inactive at its end, or when it was switched
/// off meanwhile.
pub proof fn lemma_debounce(s: DebouncedSource, cfg: ConfigView, line_high: bool)
    requires
        s.phase == SourcePhase::AwaitingEdge,
    ensures
        ({
            let (settling, first) = source_next(s, SourceSignal::Edge, cfg);
            let (_, sampled) = source_next(settling, SourceSignal::Sampled { line_high }, cfg);
            let (_, bounced) = source_next(settling, SourceSignal::Bounced, cfg);
            &&& first == (SourceAction::Settle { ms: DEBOUNCE_MS, active_high: !(s.kind is Button) })
            &&& is_active(s.kind, line_high) && switched_on(s.kind, cfg) ==> sampled == SourceAction::Emit(event_of(s.kind))
            &&& !(is_active(s.kind, line_high) && switched_on(s.kind, cfg)) ==> !(sampled is Emit)
            &&& !(bounced is Emit)
        }),
{
}

/// The actions a source in state `s` takes on the signals given, one for each.
pub open spec fn source_actions(s: DebouncedSource, sigs: Seq<SourceSignal>, cfg: ConfigView) -> Seq<SourceAction>
    decreases sigs.len(),
{
    if sigs.len() == 0 {
        Seq::empty()
    } else {
        let (next, action) = source_next(s, sigs[0], cfg);
        seq![action] + source_actions(next, sigs.drop_first(), cfg)
    }
}

/// A switched-off sensor that is not already handing over an event emits
/// nothing, and does not start handing one over, whatever it observes.
pub proof fn lemma_switched_off_step(s: DebouncedSource, sig: SourceSignal, cfg: ConfigView)
    requires
        !switched_on(s.kind, cfg),
        s.phase != SourcePhase::Delivering,
    ensures
        ({
            let (next, action) = source_next(s, sig, cfg);
            &&& !(action is Emit)
            &&& next.phase != SourcePhase::Delivering
            &&& next.kind == s.kind
        }),
{
}

/// While a sensor stays switched off, it emits no event at all, whatever its
/// line does, unless it was already handing one over when switched off.
pub proof fn lemma_switched_off_silent(s: DebouncedSource, sigs: Seq<SourceSignal>, cfg: ConfigView)
    requires
        !switched_on(s.kind, cfg),
        s.phase != SourcePhase::Delivering,
    ensures
        source_actions(s, sigs, cfg).len() == sigs.len(),
        forall|i: int| 0 <= i < sigs.len() ==> !(#[trigger] source_actions(s, sigs, cfg)[i] is Emit),
    decreases sigs.len(),
{
    if sigs.len() > 0 {
        let (next, action) = source_next(s, sigs[0], cfg);
        lemma_switched_off_step(s, sigs[0], cfg);
        lemma_switched_off_silent(next, sigs.drop_first(), cfg);
        assert forall|i: int| 0 <= i < sigs.len() implies !(#[trigger] source_actions(s, sigs, cfg)[i] is Emit) by {
            if i > 0 {
                assert(source_actions(s, sigs, cfg)[i] == source_actions(next, sigs.drop_first(), cfg)[i - 1]);
            }
        }
    }
}

} // verus!
