//! Single-wire temperature/humidity sensor: frame validation, bit timing and
//! the decoding steps that run inside the no-preemption window.
use vstd::prelude::*;
use vstd::arithmetic::div_mod::{lemma_add_mod_noop, lemma_div_denominator, lemma_small_mod, lemma_mod_twice};
use vstd::arithmetic::power2::{pow2, lemma_pow2_pos, lemma_pow2_unfold, lemma2_to64};

verus! {

/// Why a read of the sensor failed.
#[derive(Debug, Clone, Copy, PartialEq, Eq, Structural)]
pub enum DhtError {
    /// The sensor did not pull the line low after the start signal.
    NoResponse,
    /// The handshake or a bit start came too late.
    InvalidResponse,
    /// The fifth byte is not the wrapped sum of the first four.
    ChecksumMismatch,
}

/// Number of bytes in one frame sent by the sensor.
pub const FRAME_LEN: usize = 5;

/// A high pulse longer than this many microseconds encodes a one bit.
pub const ONE_BIT_THRESHOLD_US: u64 = 40;

/// The checksum a frame must carry: the sum of its first four bytes, modulo 256.
pub open spec fn frame_checksum(frame: Seq<u8>) -> int {
    (frame[0] + frame[1] + frame[2] + frame[3]) % 256
}

/// What a frame decodes to: (temperature, humidity) when its checksum holds.
pub open spec fn decoded(frame: Seq<u8>) -> Result<(u8, u8), DhtError> {
    if frame[4] as int == frame_checksum(frame) {
        Ok((frame[2], frame[0]))
    } else {
        Err(DhtError::ChecksumMismatch)
    }
}

proof fn lemma_wrapped_sum(a: int, b: int, c: int, d: int)
    requires
        0 <= a < 256,
        0 <= b < 256,
        0 <= c < 256,
        0 <= d < 256,
    ensures
        (((a + b) % 256 + c) % 256 + d) % 256 == (a + b + c + d) % 256,
{
    lemma_add_mod_noop(a + b, c, 256);
    lemma_small_mod(c as nat, 256);
    lemma_add_mod_noop(a + b + c, d, 256);
    lemma_small_mod(d as nat, 256);
    lemma_mod_twice(a + b + c, 256);
}

/// Wrapped sum of the first four bytes of a frame.
pub fn checksum(frame: &[u8; FRAME_LEN]) -> (r: u8)
    ensures
        r as int == frame_checksum(frame@),
{
    let s = frame[0].wrapping_add(frame[1]).wrapping_add(frame[2]).wrapping_add(frame[3]);
    proof {
        lemma_wrapped_sum(frame@[0] as int, frame@[1] as int, frame@[2] as int, frame@[3] as int);
    }
    s
}

/// Validates a frame and returns (temperature, humidity): bytes 2 and 0.
pub fn decode(frame: &[u8; FRAME_LEN]) -> (r: Result<(u8, u8), DhtError>)
    ensures
        frame[4] as int == (frame[0] + frame[1] + frame[2] + frame[3]) % 256 ==> r == Ok::<(u8, u8), DhtError>((frame[2], frame[0])),
        frame[4] as int != (frame[0] + frame[1] + frame[2] + frame[3]) % 256 ==> r == Err::<(u8, u8), DhtError>(DhtError::ChecksumMismatch),
{
    if frame[4] != checksum(frame) {
        Err(DhtError::ChecksumMismatch)
    } else {
        Ok((frame[2], frame[0]))
    }
}

/// Classifies one data bit by the length of its high pulse.
pub fn bit_from_pulse(high_us: u64) -> (r: bool)
    ensures
        r == (high_us > ONE_BIT_THRESHOLD_US),
{
    high_us > ONE_BIT_THRESHOLD_US
}


/// Number of data bits in one frame.
pub const FRAME_BITS: usize = 40;

/// Longest wait for the sensor to answer the start signal by pulling low.
pub const RESPONSE_TIMEOUT_US: u64 = 50;

/// Longest wait for each of the two halves of the sensor's handshake.
pub const HANDSHAKE_TIMEOUT_US: u64 = 100;

/// Longest wait for the high edge that starts each data bit.
pub const BIT_START_TIMEOUT_US: u64 = 60;

/// Cap on the measurement of one high pulse.
pub const PULSE_CAP_US: u64 = 100;

/// How long the sensor holds the line low after the last bit.
pub const TRAILER_US: u64 = 50;

/// How long the line is driven low to reset the sensor (at least 18 ms).
pub const RESET_MS: u64 = 20;

/// Value of a sequence of bits, most significant first.
pub open spec fn bits_value(bits: Seq<bool>) -> nat
    decreases bits.len(),
{
    if bits.len() == 0 {
        0
    } else {
        2 * bits_value(bits.drop_last()) + if bits.last() { 1nat } else { 0nat }
    }
}

/// The five bytes that forty bits make, eight bits to a byte.
pub open spec fn frame_of(bits: Seq<bool>) -> Seq<u8> {
    Seq::new(5, |i: int| bits_value(bits.subrange(8 * i, 8 * i + 8)) as u8)
}

proof fn lemma_bits_value_bound(bits: Seq<bool>)
    ensures
        bits_value(bits) < pow2(bits.len()),
    decreases bits.len(),
{
    lemma2_to64();
    if bits.len() > 0 {
        lemma_bits_value_bound(bits.drop_last());
        lemma_pow2_unfold(bits.len());
    }
}

/// Packs the eight bits at `start` into a byte, most significant first.
fn pack_byte(bits: &Vec<bool>, start: usize) -> (r: u8)
    requires
        start <= 32,
        start + 8 <= bits@.len(),
    ensures
        r as nat == bits_value(bits@.subrange(start as int, start + 8)),
{
    let mut acc: u32 = 0;
    let mut j: usize = 0;
    while j < 8
        invariant
            j <= 8,
            start <= 32,
            start + 8 <= bits@.len(),
            acc as nat == bits_value(bits@.subrange(start as int, start + j)),
        decreases 8 - j,
    {
        proof {
            lemma_bits_value_bound(bits@.subrange(start as int, start + j));
            lemma2_to64();
            assert(bits@.subrange(start as int, start + j + 1).drop_last()
                =~= bits@.subrange(start as int, start + j));
        }
        acc = acc * 2 + if bits[start + j] { 1 } else { 0 };
        j = j + 1;
    }
    proof {
        lemma_bits_value_bound(bits@.subrange(start as int, start + 8));
        lemma2_to64();
    }
    acc as u8
}

/// What the reader asks of the line next.
#[derive(Debug, Clone, Copy)]
pub enum LineStep {
    /// Wait until the line reads `high`, giving up after `timeout_us`.
    AwaitLevel { high: bool, timeout_us: u64 },
    /// Measure how long the line stays high, giving up after `cap_us`.
    MeasureHigh { cap_us: u64 },
    /// Busy-wait `micros` while the sensor ends its transmission.
    Settle { micros: u64 },
    /// The read is over, with this result.
    Done(Result<(u8, u8), DhtError>),
}

/// Decoding state of one read, from the start signal to the checksum.
///
/// The caller drives the line: it performs the step that `next_step` names
/// and reports the observation back. The reader takes every decision.
pub struct FrameReader {
    handshake: u8,
    bits: Vec<bool>,
    pulse_due: bool,
    settled: bool,
    failure: Option<DhtError>,
}

/// What a reader has observed so far.
pub struct ReaderView {
    /// Handshake waits passed, 0 to 3.
    pub handshake: nat,
    /// Data bits received, in order.
    pub bits: Seq<bool>,
    /// The start of a bit was seen and its pulse is still to be measured.
    pub pulse_due: bool,
    /// The trailing low state was waited out.
    pub settled: bool,
    /// The error that ended the read, if any.
    pub failure: Option<DhtError>,
}

/// The step that a reader in state `v` asks for.
pub open spec fn step_of(v: ReaderView) -> LineStep {
    if v.failure is Some {
        LineStep::Done(Err(v.failure->0))
    } else if v.handshake == 0 {
        LineStep::AwaitLevel { high: false, timeout_us: RESPONSE_TIMEOUT_US }
    } else if v.handshake == 1 {
        LineStep::AwaitLevel { high: true, timeout_us: HANDSHAKE_TIMEOUT_US }
    } else if v.handshake == 2 {
        LineStep::AwaitLevel { high: false, timeout_us: HANDSHAKE_TIMEOUT_US }
    } else if v.pulse_due {
        LineStep::MeasureHigh { cap_us: PULSE_CAP_US }
    } else if v.bits.len() < FRAME_BITS {
        LineStep::AwaitLevel { high: true, timeout_us: BIT_START_TIMEOUT_US }
    } else if !v.settled {
        LineStep::Settle { micros: TRAILER_US }
    } else {
        LineStep::Done(decoded(frame_of(v.bits)))
    }
}

/// State after the awaited level was reached (or not) in state `v`.
pub open spec fn after_level(v: ReaderView, reached: bool) -> ReaderView {
    if !(step_of(v) is AwaitLevel) {
        v
    } else if !reached {
        ReaderView {
            failure: Some(
                if v.handshake == 0 { DhtError::NoResponse } else { DhtError::InvalidResponse },
            ),
            ..v
        }
    } else if v.handshake < 3 {
        ReaderView { handshake: v.handshake + 1, ..v }
    } else {
        ReaderView { pulse_due: true, ..v }
    }
}

/// State after a high pulse of `high_us` was measured in state `v`.
pub open spec fn after_pulse(v: ReaderView, high_us: u64) -> ReaderView {
    if !(step_of(v) is MeasureHigh) {
        v
    } else {
        ReaderView { bits: v.bits.push(high_us > ONE_BIT_THRESHOLD_US), pulse_due: false, ..v }
    }
}

/// State after the trailing low state was waited out in state `v`.
pub open spec fn after_settle(v: ReaderView) -> ReaderView {
    if !(step_of(v) is Settle) {
        v
    } else {
        ReaderView { settled: true, ..v }
    }
}

impl View for FrameReader {
    type V = ReaderView;

    closed spec fn view(&self) -> ReaderView {
        ReaderView {
            handshake: self.handshake as nat,
            bits: self.bits@,
            pulse_due: self.pulse_due,
            settled: self.settled,
            failure: self.failure,
        }
    }
}

impl FrameReader {
    /// The reader's state is consistent: the handshake precedes the bits,
    /// and no more than one frame of bits is taken.
    pub closed spec fn wf(&self) -> bool {
        &&& self.handshake <= 3
        &&& self.bits@.len() <= FRAME_BITS
        &&& (self.bits@.len() > 0 || self.pulse_due) ==> self.handshake == 3
        &&& self.pulse_due ==> self.bits@.len() < FRAME_BITS
        &&& self.settled ==> self.bits@.len() == FRAME_BITS && !self.pulse_due
    }

    /// A reader at the start signal, before the sensor has answered.
    pub fn new() -> (r: FrameReader)
        ensures
            r.wf(),
            r@.handshake == 0,
            r@.bits.len() == 0,
            !r@.pulse_due,
            !r@.settled,
            r@.failure is None,
    {
        FrameReader {
            handshake: 0,
            bits: Vec::with_capacity(FRAME_BITS),
            pulse_due: false,
            settled: false,
            failure: None,
        }
    }

    /// The step the caller performs next.
    pub fn next_step(&self) -> (r: LineStep)
        requires
            self.wf(),
        ensures
            r == step_of(self@),
    {
        if let Some(e) = self.failure {
            LineStep::Done(Err(e))
        } else if self.handshake == 0 {
            LineStep::AwaitLevel { high: false, timeout_us: RESPONSE_TIMEOUT_US }
        } else if self.handshake == 1 {
            LineStep::AwaitLevel { high: true, timeout_us: HANDSHAKE_TIMEOUT_US }
        } else if self.handshake == 2 {
            LineStep::AwaitLevel { high: false, timeout_us: HANDSHAKE_TIMEOUT_US }
        } else if self.pulse_due {
            LineStep::MeasureHigh { cap_us: PULSE_CAP_US }
        } else if self.bits.len() < FRAME_BITS {
            LineStep::AwaitLevel { high: true, timeout_us: BIT_START_TIMEOUT_US }
        } else if !self.settled {
            LineStep::Settle { micros: TRAILER_US }
        } else {
            let frame: [u8; FRAME_LEN] = [
                pack_byte(&self.bits, 0),
                pack_byte(&self.bits, 8),
                pack_byte(&self.bits, 16),
                pack_byte(&self.bits, 24),
                pack_byte(&self.bits, 32),
            ];
            assert(frame@ =~= frame_of(self.bits@));
            LineStep::Done(decode(&frame))
        }
    }

    /// Records whether the level asked for by an `AwaitLevel` step was reached
    /// in time. Any other step leaves the reader unchanged.
    pub fn level_reached(&mut self, reached: bool)
        requires
            old(self).wf(),
        ensures
            final(self).wf(),
            final(self)@ == after_level(old(self)@, reached),
    {
        if let LineStep::AwaitLevel { .. } = self.next_step() {
            if !reached {
                self.failure = Some(
                    if self.handshake == 0 { DhtError::NoResponse } else { DhtError::InvalidResponse },
                );
            } else if self.handshake < 3 {
                self.handshake = self.handshake + 1;
            } else {
                self.pulse_due = true;
            }
        }
    }

    /// Records the length of the high pulse asked for by a `MeasureHigh` step.
    /// Any other step leaves the reader unchanged.
    pub fn pulse_measured(&mut self, high_us: u64)
        requires
            old(self).wf(),
        ensures
            final(self).wf(),
            final(self)@ == after_pulse(old(self)@, high_us),
    {
        if let LineStep::MeasureHigh { .. } = self.next_step() {
            let bit = bit_from_pulse(high_us);
            self.bits.push(bit);
            self.pulse_due = false;
        }
    }

    /// Records that the `Settle` step was carried out.
    /// Any other step leaves the reader unchanged.
    pub fn settle_done(&mut self)
        requires
            old(self).wf(),
        ensures
            final(self).wf(),
            final(self)@ == after_settle(old(self)@),
    {
        if let LineStep::Settle { .. } = self.next_step() {
            self.settled = true;
        }
    }
}

/// Whether a wait that started `elapsed_us` ago has run past `limit_us`.
pub fn deadline_passed(elapsed_us: u64, limit_us: u64) -> (r: bool)
    ensures
        r == (elapsed_us > limit_us),
{
    elapsed_us > limit_us
}


/// The reader after a bit start was seen and a pulse of each of the given
/// lengths was measured, in order.
pub open spec fn after_pulses(v: ReaderView, pulses_us: Seq<u64>) -> ReaderView
    decreases pulses_us.len(),
{
    if pulses_us.len() == 0 {
        v
    } else {
        after_pulses(after_pulse(after_level(v, true), pulses_us[0]), pulses_us.drop_first())
    }
}

proof fn lemma_after_pulses(v: ReaderView, pulses_us: Seq<u64>)
    requires
        v.failure is None,
        v.handshake == 3,
        !v.pulse_due,
        !v.settled,
        v.bits.len() + pulses_us.len() <= FRAME_BITS,
    ensures
        after_pulses(v, pulses_us) == (ReaderView {
            bits: v.bits + Seq::new(pulses_us.len(), |k: int| pulses_us[k] > ONE_BIT_THRESHOLD_US),
            ..v
        }),
    decreases pulses_us.len(),
{
    if pulses_us.len() > 0 {
        let next = after_pulse(after_level(v, true), pulses_us[0]);
        lemma_after_pulses(next, pulses_us.drop_first());
        assert(next.bits + Seq::new((pulses_us.len() - 1) as nat, |k: int| pulses_us.drop_first()[k] > ONE_BIT_THRESHOLD_US)
            =~= v.bits + Seq::new(pulses_us.len(), |k: int| pulses_us[k] > ONE_BIT_THRESHOLD_US));
    } else {
        assert(v.bits + Seq::new(0, |k: int| pulses_us[k] > ONE_BIT_THRESHOLD_US) =~= v.bits);
    }
}

proof fn lemma_bits_value_bit(bits: Seq<bool>, j: nat)
    requires
        j < bits.len(),
    ensures
        (bits_value(bits) as int / pow2(j) as int) % 2 == 1 <==> bits[bits.len() - 1 - j],
    decreases j,
{
    let x = bits_value(bits.drop_last()) as int;
    let b: int = if bits.last() { 1 } else { 0 };
    assert(bits_value(bits) == 2 * x + b);
    lemma2_to64();
    if j == 0 {
        assert((2 * x + b) / 1 == 2 * x + b);
        assert((2 * x + b) % 2 == b);
    } else {
        let p = pow2((j - 1) as nat) as int;
        lemma_pow2_unfold(j);
        lemma_pow2_pos((j - 1) as nat);
        lemma_div_denominator(2 * x + b, 2, p);
        assert((2 * x + b) / 2 == x);
        assert(pow2(j) as int == 2 * p);
        lemma_bits_value_bit(bits.drop_last(), (j - 1) as nat);
        assert(bits.drop_last()[bits.drop_last().len() - 1 - (j - 1)] == bits[bits.len() - 1 - j]);
    }
}

/// Each data bit of a frame is a one exactly when its high pulse lasted more
/// than `ONE_BIT_THRESHOLD_US`: after the handshake, forty bit starts and
/// pulses and the trailing wait, the reader returns the decoding of the
/// frame whose bit `j` of byte `i` (0 the least significant) comes from
/// pulse `8 * i + 7 - j`.
pub proof fn lemma_frame_from_pulses(v: ReaderView, pulses_us: Seq<u64>)
    requires
        v.failure is None,
        v.handshake == 3,
        v.bits.len() == 0,
        !v.pulse_due,
        !v.settled,
        pulses_us.len() == FRAME_BITS,
    ensures
        ({
            let bits = after_pulses(v, pulses_us).bits;
            let frame = frame_of(bits);
            &&& step_of(after_pulses(v, pulses_us)) == (LineStep::Settle { micros: TRAILER_US })
            &&& step_of(after_settle(after_pulses(v, pulses_us))) == LineStep::Done(decoded(frame))
            &&& forall|i: int, j: nat| #![trigger frame[i], pow2(j)] 0 <= i < 5 && j < 8 ==>
                ((frame[i] as int / pow2(j) as int) % 2 == 1 <==> pulses_us[8 * i + 7 - j] > ONE_BIT_THRESHOLD_US)
        }),
{
    lemma_after_pulses(v, pulses_us);
    let bits = after_pulses(v, pulses_us).bits;
    assert(bits =~= Seq::new(pulses_us.len(), |k: int| pulses_us[k] > ONE_BIT_THRESHOLD_US));
    assert forall|i: int, j: nat| #![trigger frame_of(bits)[i], pow2(j)] 0 <= i < 5 && j < 8 implies
        ((frame_of(bits)[i] as int / pow2(j) as int) % 2 == 1 <==> pulses_us[8 * i + 7 - j] > ONE_BIT_THRESHOLD_US) by {
        let byte_bits = bits.subrange(8 * i, 8 * i + 8);
        lemma_bits_value_bound(byte_bits);
        lemma2_to64();
        lemma_bits_value_bit(byte_bits, j);
        assert(byte_bits[8 - 1 - j] == bits[8 * i + 7 - j]);
    }
}

/// Pause between a failed read and the next attempt.
pub const RETRY_PAUSE_MS: u64 = 100;

/// What the caller of a retried read does next.
#[derive(Debug, Clone, Copy)]
pub enum RetryStep {
    /// Read the sensor once.
    Attempt,
    /// Sleep `ms` milliseconds with scheduling enabled, then read once more.
    PauseThenAttempt { ms: u64 },
    /// No more reads: this is the result.
    Finished(Result<(u8, u8), DhtError>),
}

/// Bookkeeping of a read that is tried up to a fixed number of times.
pub struct ReadRetry {
    limit: u8,
    attempts: u8,
    result: Option<Result<(u8, u8), DhtError>>,
}

/// What a retried read has seen: the attempts allowed, those made, and the
/// final result once there is one.
pub struct RetryView {
    pub limit: nat,
    pub attempts: nat,
    pub result: Option<Result<(u8, u8), DhtError>>,
}

/// A retried read of at most `limit` attempts, before the first one.
/// With no attempt allowed the result is `NoResponse` at once.
pub open spec fn retry_start(limit: u8) -> RetryView {
    RetryView {
        limit: limit as nat,
        attempts: 0,
        result: if limit == 0 { Some(Err(DhtError::NoResponse)) } else { None },
    }
}

/// State and next step after an attempt in state `v` gave `outcome`.
/// A failure is followed by a pause and another attempt while attempts are
/// left; the last failure is the result.
pub open spec fn retry_after(v: RetryView, outcome: Result<(u8, u8), DhtError>) -> (RetryView, RetryStep) {
    if v.result is Some {
        (v, RetryStep::Finished(v.result->0))
    } else {
        match outcome {
            Ok(reading) => (RetryView { result: Some(Ok(reading)), ..v }, RetryStep::Finished(Ok(reading))),
            Err(e) => if v.attempts + 1 < v.limit {
                (
                    RetryView { attempts: v.attempts + 1, ..v },
                    RetryStep::PauseThenAttempt { ms: RETRY_PAUSE_MS },
                )
            } else {
                (
                    RetryView { attempts: v.attempts + 1, result: Some(Err(e)), ..v },
                    RetryStep::Finished(Err(e)),
                )
            },
        }
    }
}

/// The steps that a retried read in state `v` takes on the outcomes given,
/// one step for each outcome.
pub open spec fn retry_steps(v: RetryView, outcomes: Seq<Result<(u8, u8), DhtError>>) -> Seq<RetryStep>
    decreases outcomes.len(),
{
    if outcomes.len() == 0 {
        Seq::empty()
    } else {
        let (next, step) = retry_after(v, outcomes[0]);
        seq![step] + retry_steps(next, outcomes.drop_first())
    }
}

impl View for ReadRetry {
    type V = RetryView;

    closed spec fn view(&self) -> RetryView {
        RetryView { limit: self.limit as nat, attempts: self.attempts as nat, result: self.result }
    }
}

impl ReadRetry {
    /// Attempts are counted within the limit until a result is reached.
    pub closed spec fn wf(&self) -> bool {
        &&& self.attempts <= self.limit
        &&& self.result is None ==> self.attempts < self.limit
    }

    /// A retried read of at most `retry_count` attempts.
    pub fn new(retry_count: u8) -> (r: ReadRetry)
        ensures
            r.wf(),
            r@ == retry_start(retry_count),
    {
        ReadRetry {
            limit: retry_count,
            attempts: 0,
            result: if retry_count == 0 { Some(Err(DhtError::NoResponse)) } else { None },
        }
    }

    /// The first step: an attempt, or the result when no attempt is allowed.
    pub fn first_step(&self) -> (r: RetryStep)
        requires
            self.wf(),
        ensures
            r == (match self@.result {
                Some(res) => RetryStep::Finished(res),
                None => RetryStep::Attempt,
            }),
    {
        match self.result {
            Some(res) => RetryStep::Finished(res),
            None => RetryStep::Attempt,
        }
    }

    /// Records the outcome of an attempt and returns the next step.
    pub fn record(&mut self, outcome: Result<(u8, u8), DhtError>) -> (r: RetryStep)
        requires
            old(self).wf(),
        ensures
            final(self).wf(),
            (final(self)@, r) == retry_after(old(self)@, outcome),
    {
        if let Some(res) = self.result {
            return RetryStep::Finished(res);
        }
        match outcome {
            Ok(reading) => {
                self.result = Some(Ok(reading));
                RetryStep::Finished(Ok(reading))
            },
            Err(e) => {
                self.attempts = self.attempts + 1;
                if self.attempts < self.limit {
                    RetryStep::PauseThenAttempt { ms: RETRY_PAUSE_MS }
                } else {
                    self.result = Some(Err(e));
                    RetryStep::Finished(Err(e))
                }
            },
        }
    }
}

proof fn lemma_retry_from(v: RetryView, outcomes: Seq<Result<(u8, u8), DhtError>>, k: nat)
    requires
        v.result is None,
        v.attempts + k < v.limit,
        outcomes.len() == k + 1,
        forall|i: int| 0 <= i < k ==> outcomes[i] is Err,
        outcomes[k as int] is Ok,
    ensures
        retry_steps(v, outcomes).len() == k + 1,
        forall|i: int| 0 <= i < k ==> retry_steps(v, outcomes)[i] == (RetryStep::PauseThenAttempt { ms: RETRY_PAUSE_MS }),
        retry_steps(v, outcomes)[k as int] == RetryStep::Finished(outcomes[k as int]),
    decreases k,
{
    let (next, step) = retry_after(v, outcomes[0]);
    let rest = outcomes.drop_first();
    reveal_with_fuel(retry_steps, 2);
    if k > 0 {
        lemma_retry_from(next, rest, (k - 1) as nat);
        assert forall|i: int| 0 <= i < k implies retry_steps(v, outcomes)[i] == (RetryStep::PauseThenAttempt { ms: RETRY_PAUSE_MS }) by {
            if i > 0 {
                assert(rest[i - 1] == outcomes[i]);
            }
        }
        assert(rest[k - 1] == outcomes[k as int]);
    } else {
        assert(retry_steps(next, rest) =~= Seq::empty());
    }
}

/// A read retried up to `retry_count` times whose first `k` attempts fail and
/// whose next one succeeds returns that reading, after exactly `k` pauses of
/// `RETRY_PAUSE_MS`: one after each failure, none after the success.
pub proof fn lemma_retry_recovers(retry_count: u8, outcomes: Seq<Result<(u8, u8), DhtError>>, k: nat)
    requires
        k < retry_count,
        outcomes.len() == k + 1,
        forall|i: int| 0 <= i < k ==> outcomes[i] is Err,
        outcomes[k as int] is Ok,
    ensures
        retry_steps(retry_start(retry_count), outcomes).len() == k + 1,
        forall|i: int| 0 <= i < k ==> retry_steps(retry_start(retry_count), outcomes)[i] == (RetryStep::PauseThenAttempt { ms: RETRY_PAUSE_MS }),
        retry_steps(retry_start(retry_count), outcomes)[k as int] == RetryStep::Finished(outcomes[k as int]),
{
    lemma_retry_from(retry_start(retry_count), outcomes, k);
}

} // verus!
