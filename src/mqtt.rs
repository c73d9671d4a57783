//! The broker session: topics and payloads of published values, the scratch
//! buffers a connection borrows, the mapping of transport errors, and the
//! decisions of the long-lived task that drains the publish mailbox.
use vstd::prelude::*;
use crate::config::{DelaySelection, SharedConfig, enabled_in};

verus! {

/// Capacity of the mailbox of publish requests.
pub const PUBLISH_QUEUE_CAPACITY: usize = 20;

/// Capacity of the mailbox of publish outcomes.
pub const OUTCOME_QUEUE_CAPACITY: usize = 20;

/// Length of each of the socket's receive and transmit buffers.
pub const SOCKET_BUFFER_LEN: usize = 4096;

/// Length of each of the protocol's read and write buffers.
pub const MQTT_BUFFER_LEN: usize = 80;

/// Period of the session task, in milliseconds.
pub const TICK_MS: u64 = 500;

/// Idle time after which a keep-alive is sent, in milliseconds.
pub const KEEP_ALIVE_IDLE_MS: u64 = 5000;

/// Longest wait for a publish request while draining, in milliseconds.
pub const RECEIVE_TIMEOUT_MS: u64 = 5000;

/// Pause after each delivered message while draining, in milliseconds.
pub const DRAIN_PAUSE_MS: u64 = 10;

/// Timeout of the transport connect, in seconds.
pub const CONNECT_TIMEOUT_SECS: u64 = 10;

/// Why a connection attempt or a send failed. Both are recovered from by
/// reconnecting.
#[derive(Debug, Clone, Copy)]
pub enum MqttError {
    /// The transport could not be opened.
    ConnectionFailed,
    /// The broker refused the handshake or did not acknowledge.
    ProtocolError(()),
}

#[verifier::external_type_specification]
#[verifier::external_body]
pub struct ExReasonCode(rust_mqtt::packet::v5::reason_codes::ReasonCode);

#[verifier::external_type_specification]
#[verifier::external_body]
pub struct ExConnectError(embassy_net::tcp::ConnectError);

impl From<rust_mqtt::packet::v5::reason_codes::ReasonCode> for MqttError {
    fn from(_code: rust_mqtt::packet::v5::reason_codes::ReasonCode) -> MqttError {
        MqttError::ProtocolError(())
    }
}

impl vstd::std_specs::convert::FromSpecImpl<rust_mqtt::packet::v5::reason_codes::ReasonCode> for MqttError {
    open spec fn obeys_from_spec() -> bool {
        true
    }

    open spec fn from_spec(v: rust_mqtt::packet::v5::reason_codes::ReasonCode) -> MqttError {
        MqttError::ProtocolError(())
    }
}

impl From<embassy_net::tcp::ConnectError> for MqttError {
    fn from(_err: embassy_net::tcp::ConnectError) -> MqttError {
        MqttError::ConnectionFailed
    }
}

impl vstd::std_specs::convert::FromSpecImpl<embassy_net::tcp::ConnectError> for MqttError {
    open spec fn obeys_from_spec() -> bool {
        true
    }

    open spec fn from_spec(v: embassy_net::tcp::ConnectError) -> MqttError {
        MqttError::ConnectionFailed
    }
}

/// The kinds of value the node publishes.
#[derive(Debug, Clone, Copy, PartialEq, Eq, Structural)]
pub enum ValueType {
    Humidity,
    Temperature,
    Motion,
    Contact,
}

/// The topic each kind of value is published on.
pub open spec fn topic_name(t: ValueType) -> Seq<char> {
    match t {
        ValueType::Contact => "esp32/contact"@,
        ValueType::Humidity => "esp32/humidity"@,
        ValueType::Motion => "esp32/motion"@,
        ValueType::Temperature => "esp32/temperature"@,
    }
}

impl ValueType {
    /// The topic this kind of value is published on.
    pub fn topic(&self) -> (r: &'static str)
        ensures
            r@ == topic_name(*self),
    {
        match self {
            ValueType::Contact => "esp32/contact",
            ValueType::Humidity => "esp32/humidity",
            ValueType::Motion => "esp32/motion",
            ValueType::Temperature => "esp32/temperature",
        }
    }
}

/// Decimal ASCII digits of `n`, most significant first, without leading zeros.
pub open spec fn decimal(n: nat) -> Seq<u8>
    decreases n,
{
    if n < 10 {
        seq![(48 + n) as u8]
    } else {
        decimal(n / 10).push((48 + n % 10) as u8)
    }
}

/// A request to publish `value` on the topic of `topic`.
#[derive(Debug, Clone, Copy, PartialEq, Eq, Structural)]
pub struct MqttMessage {
    pub topic: ValueType,
    pub value: u8,
}

impl MqttMessage {
    /// The topic the message goes to.
    pub fn topic(&self) -> (r: &'static str)
        ensures
            r@ == topic_name(self.topic),
    {
        self.topic.topic()
    }

    /// The payload: the value in decimal ASCII.
    pub fn payload(&self) -> (r: Vec<u8>)
        ensures
            r@ == decimal(self.value as nat),
    {
        let v = self.value;
        let mut out: Vec<u8> = Vec::new();
        if v >= 100 {
            out.push(48 + v / 100);
        }
        if v >= 10 {
            out.push(48 + (v / 10) % 10);
        }
        out.push(48 + v % 10);
        proof {
            let n = v as nat;
            reveal_with_fuel(decimal, 3);
            if n >= 100 {
                assert(n / 10 / 10 == n / 100);
            }
        }
        assert(out@ =~= decimal(v as nat));
        out
    }
}

/// What became of one send attempt.
#[derive(Debug, Clone, Copy)]
pub struct MqttResponse {
    pub status: Result<(), ()>,
    pub topic: ValueType,
}

/// A zero-initialised buffer that a connection borrows and that is wiped
/// before the next connection borrows it again.
pub struct StaticBuffer<const N: usize>([u8; N]);

impl<const N: usize> StaticBuffer<N> {
    /// A buffer of `N` zero bytes.
    pub fn new() -> (r: Self)
        ensures
            r.bytes() == Seq::new(N as nat, |i: int| 0u8),
    {
        let r = StaticBuffer([0u8; N]);
        assert(r.bytes() =~= Seq::new(N as nat, |i: int| 0u8));
        r
    }

    /// The bytes the buffer holds.
    pub closed spec fn bytes(&self) -> Seq<u8> {
        self.0@
    }

    /// Zeroes the buffer and lends it out; the loan ends before the buffer
    /// can be wiped or lent again.
    pub fn exclusive(&mut self) -> (r: &mut [u8; N])
        ensures
            r@ == Seq::new(N as nat, |i: int| 0u8),
            final(self).bytes() == final(r)@,
    {
        self.0 = [0u8; N];
        assert(self.0@ =~= Seq::new(N as nat, |i: int| 0u8));
        &mut self.0
    }
}


/// The four scratch buffers of a connection, owned by the session task.
pub struct SessionBuffers {
    rx: StaticBuffer<SOCKET_BUFFER_LEN>,
    tx: StaticBuffer<SOCKET_BUFFER_LEN>,
    recv: StaticBuffer<MQTT_BUFFER_LEN>,
    write: StaticBuffer<MQTT_BUFFER_LEN>,
}

impl SessionBuffers {
    /// Whether all four buffers hold only zeroes.
    pub closed spec fn zeroed(&self) -> bool {
        &&& self.rx.bytes() == Seq::new(SOCKET_BUFFER_LEN as nat, |i: int| 0u8)
        &&& self.tx.bytes() == Seq::new(SOCKET_BUFFER_LEN as nat, |i: int| 0u8)
        &&& self.recv.bytes() == Seq::new(MQTT_BUFFER_LEN as nat, |i: int| 0u8)
        &&& self.write.bytes() == Seq::new(MQTT_BUFFER_LEN as nat, |i: int| 0u8)
    }

    /// Four zeroed buffers.
    pub fn new() -> (r: SessionBuffers)
        ensures
            r.zeroed(),
    {
        SessionBuffers {
            rx: StaticBuffer::new(),
            tx: StaticBuffer::new(),
            recv: StaticBuffer::new(),
            write: StaticBuffer::new(),
        }
    }

    /// Zeroes all four buffers and lends them to a new connection: socket
    /// receive, socket transmit, protocol read, protocol write. While the
    /// connection holds them, nothing else can reach them.
    pub fn lend(&mut self) -> (r: (
        &mut [u8; SOCKET_BUFFER_LEN],
        &mut [u8; SOCKET_BUFFER_LEN],
        &mut [u8; MQTT_BUFFER_LEN],
        &mut [u8; MQTT_BUFFER_LEN],
    ))
        ensures
            r.0@ == Seq::new(SOCKET_BUFFER_LEN as nat, |i: int| 0u8),
            r.1@ == Seq::new(SOCKET_BUFFER_LEN as nat, |i: int| 0u8),
            r.2@ == Seq::new(MQTT_BUFFER_LEN as nat, |i: int| 0u8),
            r.3@ == Seq::new(MQTT_BUFFER_LEN as nat, |i: int| 0u8),
    {
        (self.rx.exclusive(), self.tx.exclusive(), self.recv.exclusive(), self.write.exclusive())
    }
}

/// Connection state of the session.
#[derive(Debug, Clone, Copy, PartialEq, Eq, Structural)]
pub enum LinkState {
    Disconnected,
    Connecting,
    Connected,
}

/// Where the session task stands: what it waits for.
#[derive(Debug, Clone, Copy)]
pub enum SessionPhase {
    /// Sleeping until the next tick.
    Idle,
    /// Opening the transport and performing the handshake.
    Connecting,
    /// Sending a keep-alive.
    Pinging,
    /// Waiting for a publish request.
    Receiving,
    /// Sending this message.
    Publishing(MqttMessage),
    /// Handing an outcome to its mailbox; then pausing (after a success) or
    /// ending the tick (after a failure).
    Reporting { outcome: MqttResponse, then_pause: bool },
    /// Pausing between two messages of a drain.
    Pausing,
}

/// What the session task observed.
#[derive(Debug, Clone, Copy)]
pub enum SessionEvent {
    /// A sleep ended.
    Woke,
    /// The connection attempt ended.
    ConnectDone(Result<(), MqttError>),
    /// The keep-alive ended.
    PingDone(Result<(), MqttError>),
    /// A publish request arrived.
    Received(MqttMessage),
    /// No publish request arrived in time.
    ReceiveTimedOut,
    /// The send of the message ended.
    PublishDone(Result<(), MqttError>),
    /// The outcome was taken by its mailbox.
    Reported,
}

/// What the session task does next.
#[derive(Debug, Clone, Copy)]
pub enum SessionAction {
    /// Sleep `ms` milliseconds, then signal `Woke`.
    Sleep { ms: u64 },
    /// Drop any connection, wipe and lend the buffers to a new one, connect
    /// with a timeout of `CONNECT_TIMEOUT_SECS`, then signal `ConnectDone`.
    Connect,
    /// Send a keep-alive, then signal `PingDone`.
    Ping,
    /// Wait up to `timeout_ms` for a publish request, then signal `Received`
    /// or `ReceiveTimedOut`.
    Receive { timeout_ms: u64 },
    /// Send the message at least once and not retained, then signal `PublishDone`.
    Publish(MqttMessage),
    /// Hand the outcome to its mailbox, waiting while it is full, then signal `Reported`.
    Report(MqttResponse),
}

/// The session manager's state.
pub struct Session {
    phase: SessionPhase,
    connected: bool,
    cached: Option<MqttMessage>,
    error_reported: bool,
    last_activity_ms: u64,
}

/// What a session holds.
pub struct SessionView {
    pub phase: SessionPhase,
    /// A connection is up.
    pub connected: bool,
    /// A message whose send failed, to be sent before any other.
    pub cached: Option<MqttMessage>,
    /// A failure was already reported for the current failure episode.
    pub error_reported: bool,
    /// When the last send or keep-alive succeeded, or the connection opened.
    pub last_activity_ms: u64,
}

/// Connection state of a session.
pub open spec fn link_of(v: SessionView) -> LinkState {
    if v.phase is Connecting {
        LinkState::Connecting
    } else if v.connected {
        LinkState::Connected
    } else {
        LinkState::Disconnected
    }
}

/// The outcome reported for a send of `m`.
pub open spec fn outcome_of(m: MqttMessage, ok: bool) -> MqttResponse {
    MqttResponse { status: if ok { Ok(()) } else { Err(()) }, topic: m.topic }
}

/// Time since the last activity; zero when the clock reads earlier.
pub open spec fn idle_ms(v: SessionView, now_ms: u64) -> int {
    if now_ms >= v.last_activity_ms { now_ms - v.last_activity_ms } else { 0 }
}

/// Ends the tick: sleep until the next one.
pub open spec fn end_tick(v: SessionView) -> (SessionView, SessionAction) {
    (SessionView { phase: SessionPhase::Idle, ..v }, SessionAction::Sleep { ms: TICK_MS })
}

/// Next step of a drain: the cached message first, else a new request.
pub open spec fn drain_next(v: SessionView) -> (SessionView, SessionAction) {
    match v.cached {
        Some(m) => (
            SessionView { phase: SessionPhase::Publishing(m), cached: None, ..v },
            SessionAction::Publish(m),
        ),
        None => (
            SessionView { phase: SessionPhase::Receiving, ..v },
            SessionAction::Receive { timeout_ms: RECEIVE_TIMEOUT_MS },
        ),
    }
}

/// After the keep-alive stage: drain when publishing is on, else end the tick.
pub open spec fn after_keep_alive(v: SessionView, publishing: bool) -> (SessionView, SessionAction) {
    if publishing { drain_next(v) } else { end_tick(v) }
}

/// With a connection up: a keep-alive when idle too long, else go on.
pub open spec fn when_connected(v: SessionView, now_ms: u64, publishing: bool) -> (SessionView, SessionAction) {
    if idle_ms(v, now_ms) > KEEP_ALIVE_IDLE_MS {
        (SessionView { phase: SessionPhase::Pinging, ..v }, SessionAction::Ping)
    } else {
        after_keep_alive(v, publishing)
    }
}

/// The action a session in phase `p` waits on.
pub open spec fn pending_of(p: SessionPhase) -> SessionAction {
    match p {
        SessionPhase::Idle => SessionAction::Sleep { ms: TICK_MS },
        SessionPhase::Connecting => SessionAction::Connect,
        SessionPhase::Pinging => SessionAction::Ping,
        SessionPhase::Receiving => SessionAction::Receive { timeout_ms: RECEIVE_TIMEOUT_MS },
        SessionPhase::Publishing(m) => SessionAction::Publish(m),
        SessionPhase::Reporting { outcome, .. } => SessionAction::Report(outcome),
        SessionPhase::Pausing => SessionAction::Sleep { ms: DRAIN_PAUSE_MS },
    }
}

/// Next state and action of session `v` on event `e` observed at `now_ms`,
/// with publishing switched on or off. An event the phase does not wait for
/// changes nothing and repeats the pending action.
pub open spec fn session_next(v: SessionView, e: SessionEvent, now_ms: u64, publishing: bool) -> (SessionView, SessionAction) {
    match (v.phase, e) {
        (SessionPhase::Idle, SessionEvent::Woke) => if !v.connected {
            (SessionView { phase: SessionPhase::Connecting, ..v }, SessionAction::Connect)
        } else {
            when_connected(v, now_ms, publishing)
        },
        (SessionPhase::Connecting, SessionEvent::ConnectDone(res)) => match res {
            Ok(_) => when_connected(
                SessionView { connected: true, last_activity_ms: now_ms, ..v },
                now_ms,
                publishing,
            ),
            Err(_) => end_tick(v),
        },
        (SessionPhase::Pinging, SessionEvent::PingDone(res)) => match res {
            Ok(_) => after_keep_alive(SessionView { last_activity_ms: now_ms, ..v }, publishing),
            Err(_) => end_tick(SessionView { connected: false, ..v }),
        },
        (SessionPhase::Receiving, SessionEvent::Received(m)) => (
            SessionView { phase: SessionPhase::Publishing(m), ..v },
            SessionAction::Publish(m),
        ),
        (SessionPhase::Receiving, SessionEvent::ReceiveTimedOut) => end_tick(v),
        (SessionPhase::Publishing(m), SessionEvent::PublishDone(res)) => match res {
            Ok(_) => (
                SessionView {
                    phase: SessionPhase::Reporting { outcome: outcome_of(m, true), then_pause: true },
                    error_reported: false,
                    last_activity_ms: now_ms,
                    ..v
                },
                SessionAction::Report(outcome_of(m, true)),
            ),
            Err(_) => if !v.error_reported {
                (
                    SessionView {
                        phase: SessionPhase::Reporting { outcome: outcome_of(m, false), then_pause: false },
                        connected: false,
                        cached: Some(m),
                        error_reported: true,
                        ..v
                    },
                    SessionAction::Report(outcome_of(m, false)),
                )
            } else {
                end_tick(SessionView { connected: false, cached: Some(m), ..v })
            },
        },
        (SessionPhase::Reporting { then_pause, .. }, SessionEvent::Reported) => if then_pause {
            (SessionView { phase: SessionPhase::Pausing, ..v }, SessionAction::Sleep { ms: DRAIN_PAUSE_MS })
        } else {
            end_tick(v)
        },
        (SessionPhase::Pausing, SessionEvent::Woke) => drain_next(v),
        _ => (v, pending_of(v.phase)),
    }
}

/// A session's state is consistent: a cached message is never held while a
/// drain is under way, and a connection is up whenever one is used.
pub open spec fn session_wf(v: SessionView) -> bool {
    match v.phase {
        SessionPhase::Idle => true,
        SessionPhase::Connecting => !v.connected,
        SessionPhase::Pinging => v.connected,
        SessionPhase::Receiving => v.connected && v.cached is None,
        SessionPhase::Publishing(_) => v.connected && v.cached is None,
        SessionPhase::Reporting { then_pause, .. } => if then_pause {
            v.connected && v.cached is None
        } else {
            !v.connected && v.cached is Some
        },
        SessionPhase::Pausing => v.connected && v.cached is None,
    }
}

impl View for Session {
    type V = SessionView;

    closed spec fn view(&self) -> SessionView {
        SessionView {
            phase: self.phase,
            connected: self.connected,
            cached: self.cached,
            error_reported: self.error_reported,
            last_activity_ms: self.last_activity_ms,
        }
    }
}

impl Session {
    /// A disconnected session at the start of a tick, with nothing cached.
    pub fn new(now_ms: u64) -> (r: Session)
        ensures
            session_wf(r@),
            r@.phase is Idle,
            !r@.connected,
            r@.cached is None,
            !r@.error_reported,
            r@.last_activity_ms == now_ms,
    {
        Session { phase: SessionPhase::Idle, connected: false, cached: None, error_reported: false, last_activity_ms: now_ms }
    }

    /// Connection state.
    pub fn link(&self) -> (r: LinkState)
        ensures
            r == link_of(self@),
    {
        if let SessionPhase::Connecting = self.phase {
            LinkState::Connecting
        } else if self.connected {
            LinkState::Connected
        } else {
            LinkState::Disconnected
        }
    }

    /// The action the session waits on.
    pub fn pending(&self) -> (r: SessionAction)
        ensures
            r == pending_of(self@.phase),
    {
        match self.phase {
            SessionPhase::Idle => SessionAction::Sleep { ms: TICK_MS },
            SessionPhase::Connecting => SessionAction::Connect,
            SessionPhase::Pinging => SessionAction::Ping,
            SessionPhase::Receiving => SessionAction::Receive { timeout_ms: RECEIVE_TIMEOUT_MS },
            SessionPhase::Publishing(m) => SessionAction::Publish(m),
            SessionPhase::Reporting { outcome, .. } => SessionAction::Report(outcome),
            SessionPhase::Pausing => SessionAction::Sleep { ms: DRAIN_PAUSE_MS },
        }
    }

    fn end_tick(&mut self) -> (r: SessionAction)
        ensures
            (final(self)@, r) == end_tick(old(self)@),
    {
        self.phase = SessionPhase::Idle;
        SessionAction::Sleep { ms: TICK_MS }
    }

    fn drain_next(&mut self) -> (r: SessionAction)
        ensures
            (final(self)@, r) == drain_next(old(self)@),
    {
        match self.cached.take() {
            Some(m) => {
                self.phase = SessionPhase::Publishing(m);
                SessionAction::Publish(m)
            },
            None => {
                self.phase = SessionPhase::Receiving;
                SessionAction::Receive { timeout_ms: RECEIVE_TIMEOUT_MS }
            },
        }
    }

    fn after_keep_alive(&mut self, publishing: bool) -> (r: SessionAction)
        ensures
            (final(self)@, r) == after_keep_alive(old(self)@, publishing),
    {
        if publishing { self.drain_next() } else { self.end_tick() }
    }

    fn when_connected(&mut self, now_ms: u64, publishing: bool) -> (r: SessionAction)
        ensures
            (final(self)@, r) == when_connected(old(self)@, now_ms, publishing),
    {
        let idle: u64 = if now_ms >= self.last_activity_ms { now_ms - self.last_activity_ms } else { 0 };
        if idle > KEEP_ALIVE_IDLE_MS {
            self.phase = SessionPhase::Pinging;
            SessionAction::Ping
        } else {
            self.after_keep_alive(publishing)
        }
    }

    /// Takes the event the task observed at `now_ms` and returns what it does
    /// next; whether publishing is on is read from `cfg`.
    pub fn step(&mut self, event: SessionEvent, now_ms: u64, cfg: &SharedConfig) -> (r: SessionAction)
        requires
            session_wf(old(self)@),
        ensures
            session_wf(final(self)@),
            (final(self)@, r) == session_next(old(self)@, event, now_ms, enabled_in(cfg@, DelaySelection::MQTT)),
    {
        let publishing = cfg.is_enabled(DelaySelection::MQTT);
        match (self.phase, event) {
            (SessionPhase::Idle, SessionEvent::Woke) => if !self.connected {
                self.phase = SessionPhase::Connecting;
                SessionAction::Connect
            } else {
                self.when_connected(now_ms, publishing)
            },
            (SessionPhase::Connecting, SessionEvent::ConnectDone(res)) => match res {
                Ok(_) => {
                    self.connected = true;
                    self.last_activity_ms = now_ms;
                    self.when_connected(now_ms, publishing)
                },
                Err(_) => self.end_tick(),
            },
            (SessionPhase::Pinging, SessionEvent::PingDone(res)) => match res {
                Ok(_) => {
                    self.last_activity_ms = now_ms;
                    self.after_keep_alive(publishing)
                },
                Err(_) => {
                    self.connected = false;
                    self.end_tick()
                },
            },
            (SessionPhase::Receiving, SessionEvent::Received(m)) => {
                self.phase = SessionPhase::Publishing(m);
                SessionAction::Publish(m)
            },
            (SessionPhase::Receiving, SessionEvent::ReceiveTimedOut) => self.end_tick(),
            (SessionPhase::Publishing(m), SessionEvent::PublishDone(res)) => match res {
                Ok(_) => {
                    let outcome = MqttResponse { status: Ok(()), topic: m.topic };
                    self.phase = SessionPhase::Reporting { outcome, then_pause: true };
                    self.error_reported = false;
                    self.last_activity_ms = now_ms;
                    SessionAction::Report(outcome)
                },
                Err(_) => {
                    self.connected = false;
                    self.cached = Some(m);
                    if !self.error_reported {
                        let outcome = MqttResponse { status: Err(()), topic: m.topic };
                        self.phase = SessionPhase::Reporting { outcome, then_pause: false };
                        self.error_reported = true;
                        SessionAction::Report(outcome)
                    } else {
                        self.end_tick()
                    }
                },
            },
            (SessionPhase::Reporting { then_pause, .. }, SessionEvent::Reported) => if then_pause {
                self.phase = SessionPhase::Pausing;
                SessionAction::Sleep { ms: DRAIN_PAUSE_MS }
            } else {
                self.end_tick()
            },
            (SessionPhase::Pausing, SessionEvent::Woke) => self.drain_next(),
            _ => self.pending(),
        }
    }
}

/// A message whose send failed is sent again before any new request is
/// taken: while it is cached the session never waits for a request, the only
/// message it sends is that one, and it stays cached until it is sent.
pub proof fn lemma_failed_message_first(v: SessionView, e: SessionEvent, now_ms: u64, publishing: bool, m: MqttMessage)
    requires
        session_wf(v),
        v.cached == Some(m),
    ensures
        ({
            let (next, action) = session_next(v, e, now_ms, publishing);
            &&& !(action is Receive)
            &&& action is Publish ==> action == SessionAction::Publish(m)
            &&& action != SessionAction::Publish(m) ==> next.cached == Some(m)
            &&& session_wf(next)
        }),
{
}

/// A send that fails again within a failure episode reports nothing; the
/// first failure of an episode reports one failure outcome for its topic;
/// a success reports one success outcome and ends the episode.
pub proof fn lemma_failure_reported_once(v: SessionView, m: MqttMessage, res: Result<(), MqttError>, now_ms: u64, publishing: bool)
    requires
        session_wf(v),
        v.phase == SessionPhase::Publishing(m),
    ensures
        ({
            let (next, action) = session_next(v, SessionEvent::PublishDone(res), now_ms, publishing);
            &&& res is Err && v.error_reported ==> action == SessionAction::Sleep { ms: TICK_MS }
            &&& res is Err && !v.error_reported ==> action == SessionAction::Report(outcome_of(m, false))
            &&& res is Err ==> next.error_reported && next.cached == Some(m) && !next.connected
            &&& res is Ok ==> action == SessionAction::Report(outcome_of(m, true)) && !next.error_reported
        }),
{
}

/// A message whose first send fails and whose retry succeeds gets exactly one
/// failure outcome and one success outcome, and the retry is sent before the
/// session waits for any other request: from the failed send, through the
/// reconnect, to the next wait for a request.
pub proof fn lemma_retry_after_failure(
    v: SessionView,
    m: MqttMessage,
    err: MqttError,
    t_fail: u64,
    t_tick: u64,
    t_connect: u64,
    t_sent: u64,
    t_resume: u64,
)
    requires
        session_wf(v),
        v.phase == SessionPhase::Publishing(m),
        !v.error_reported,
    ensures
        ({
            let (s1, a1) = session_next(v, SessionEvent::PublishDone(Err(err)), t_fail, true);
            let (s2, a2) = session_next(s1, SessionEvent::Reported, t_fail, true);
            let (s3, a3) = session_next(s2, SessionEvent::Woke, t_tick, true);
            let (s4, a4) = session_next(s3, SessionEvent::ConnectDone(Ok(())), t_connect, true);
            let (s5, a5) = session_next(s4, SessionEvent::PublishDone(Ok(())), t_sent, true);
            let (s6, a6) = session_next(s5, SessionEvent::Reported, t_sent, true);
            let (s7, a7) = session_next(s6, SessionEvent::Woke, t_resume, true);
            &&& a1 == SessionAction::Report(outcome_of(m, false))
            &&& a2 == SessionAction::Sleep { ms: TICK_MS }
            &&& a3 == SessionAction::Connect
            &&& a4 == SessionAction::Publish(m)
            &&& a5 == SessionAction::Report(outcome_of(m, true))
            &&& a6 == SessionAction::Sleep { ms: DRAIN_PAUSE_MS }
            &&& a7 == SessionAction::Receive { timeout_ms: RECEIVE_TIMEOUT_MS }
            &&& s7.cached is None && !s7.error_reported && s7.connected
        }),
{
}

} // verus!
