use iiot::dht::{
    bit_from_pulse, checksum, deadline_passed, decode, DhtError, FrameReader, LineStep, ReadRetry,
    RetryStep, BIT_START_TIMEOUT_US, HANDSHAKE_TIMEOUT_US, PULSE_CAP_US, RESPONSE_TIMEOUT_US,
    TRAILER_US,
};

/// Pulse lengths that encode `frame`, most significant bit first.
fn pulses_for(frame: [u8; 5]) -> Vec<u64> {
    let mut out = Vec::new();
    for byte in frame {
        for bit in (0..8).rev() {
            out.push(if byte & (1 << bit) != 0 { 70 } else { 27 });
        }
    }
    out
}

/// Drives a reader against a line that answers the handshake (`handshake`
/// tells which of its three waits succeed) and then sends `pulses`.
fn run_reader(handshake: [bool; 3], pulses: &[u64]) -> (Result<(u8, u8), DhtError>, Vec<LineStep>) {
    let mut reader = FrameReader::new();
    let mut steps = Vec::new();
    let mut waits = 0usize;
    let mut next_pulse = 0usize;
    loop {
        let step = reader.next_step();
        steps.push(step);
        match step {
            LineStep::AwaitLevel { .. } => {
                let ok = if waits < 3 { handshake[waits] } else { next_pulse < pulses.len() };
                waits += 1;
                reader.level_reached(ok);
            }
            LineStep::MeasureHigh { .. } => {
                reader.pulse_measured(pulses[next_pulse]);
                next_pulse += 1;
            }
            LineStep::Settle { .. } => reader.settle_done(),
            LineStep::Done(r) => return (r, steps),
        }
    }
}

#[test]
fn valid_frame_decodes_to_temperature_and_humidity() {
    assert_eq!(decode(&[35, 0, 24, 0, 59]).unwrap(), (24, 35));
}

#[test]
fn checksum_wraps_modulo_256() {
    assert_eq!(checksum(&[200, 100, 0, 0, 0]), 44);
    assert_eq!(decode(&[200, 100, 30, 0, 74]).unwrap(), (30, 200));
    assert_eq!(checksum(&[255, 255, 255, 255, 0]), 252);
}

#[test]
fn checksum_mismatch_is_rejected() {
    assert!(matches!(decode(&[35, 0, 24, 0, 60]), Err(DhtError::ChecksumMismatch)));
    assert!(matches!(decode(&[0, 0, 0, 0, 1]), Err(DhtError::ChecksumMismatch)));
}

#[test]
fn all_zero_frame_is_valid() {
    assert_eq!(decode(&[0, 0, 0, 0, 0]).unwrap(), (0, 0));
}

#[test]
fn pulse_boundary_is_strictly_above_forty() {
    assert!(!bit_from_pulse(40));
    assert!(bit_from_pulse(41));
    assert!(!bit_from_pulse(0));
    assert!(bit_from_pulse(100));
}

#[test]
fn deadline_is_passed_only_beyond_the_limit() {
    assert!(!deadline_passed(50, 50));
    assert!(deadline_passed(51, 50));
}

#[test]
fn reader_decodes_a_whole_frame() {
    let frame = [45, 0, 22, 0, 67];
    let (r, steps) = run_reader([true, true, true], &pulses_for(frame));
    assert_eq!(r.unwrap(), (22, 45));
    // three handshake waits, forty bit starts and pulses, one settle, done
    assert_eq!(steps.len(), 3 + 80 + 1 + 1);
    assert!(matches!(steps[0], LineStep::AwaitLevel { high: false, timeout_us: RESPONSE_TIMEOUT_US }));
    assert!(matches!(steps[1], LineStep::AwaitLevel { high: true, timeout_us: HANDSHAKE_TIMEOUT_US }));
    assert!(matches!(steps[2], LineStep::AwaitLevel { high: false, timeout_us: HANDSHAKE_TIMEOUT_US }));
    assert!(matches!(steps[3], LineStep::AwaitLevel { high: true, timeout_us: BIT_START_TIMEOUT_US }));
    assert!(matches!(steps[4], LineStep::MeasureHigh { cap_us: PULSE_CAP_US }));
    assert!(matches!(steps[83], LineStep::Settle { micros: TRAILER_US }));
}

#[test]
fn reader_reports_checksum_mismatch() {
    let (r, _) = run_reader([true, true, true], &pulses_for([45, 0, 22, 0, 68]));
    assert!(matches!(r, Err(DhtError::ChecksumMismatch)));
}

#[test]
fn reader_reports_no_response() {
    let (r, steps) = run_reader([false, true, true], &[]);
    assert!(matches!(r, Err(DhtError::NoResponse)));
    assert_eq!(steps.len(), 2);
}

#[test]
fn reader_reports_invalid_handshake() {
    let (r, _) = run_reader([true, false, true], &[]);
    assert!(matches!(r, Err(DhtError::InvalidResponse)));
    let (r, _) = run_reader([true, true, false], &[]);
    assert!(matches!(r, Err(DhtError::InvalidResponse)));
}

#[test]
fn reader_reports_missing_bit_start() {
    let pulses = pulses_for([1, 2, 3, 4, 10]);
    let (r, _) = run_reader([true, true, true], &pulses[..17]);
    assert!(matches!(r, Err(DhtError::InvalidResponse)));
}

#[test]
fn reader_ignores_observations_out_of_turn() {
    let mut reader = FrameReader::new();
    reader.pulse_measured(70);
    reader.settle_done();
    assert!(matches!(reader.next_step(), LineStep::AwaitLevel { high: false, timeout_us: RESPONSE_TIMEOUT_US }));
}

#[test]
fn retry_returns_the_success_after_two_failures() {
    let mut retry = ReadRetry::new(3);
    assert!(matches!(retry.first_step(), RetryStep::Attempt));
    let outcomes = [Err(DhtError::NoResponse), Err(DhtError::InvalidResponse), Ok((21, 40))];
    let mut pauses = 0;
    let mut result = None;
    for o in outcomes {
        match retry.record(o) {
            RetryStep::PauseThenAttempt { ms } => {
                assert_eq!(ms, 100);
                pauses += 1;
            }
            RetryStep::Finished(r) => {
                result = Some(r);
                break;
            }
            RetryStep::Attempt => panic!("an attempt is never returned after an outcome"),
        }
    }
    assert_eq!(pauses, 2);
    assert_eq!(result.unwrap().unwrap(), (21, 40));
}

#[test]
fn retry_returns_the_last_error_when_all_fail() {
    let mut retry = ReadRetry::new(3);
    assert!(matches!(retry.record(Err(DhtError::NoResponse)), RetryStep::PauseThenAttempt { ms: 100 }));
    assert!(matches!(retry.record(Err(DhtError::NoResponse)), RetryStep::PauseThenAttempt { ms: 100 }));
    assert!(matches!(retry.record(Err(DhtError::ChecksumMismatch)), RetryStep::Finished(Err(DhtError::ChecksumMismatch))));
    // once finished, it stays finished
    assert!(matches!(retry.record(Ok((1, 2))), RetryStep::Finished(Err(DhtError::ChecksumMismatch))));
}

#[test]
fn retry_with_no_attempts_fails_at_once() {
    let retry = ReadRetry::new(0);
    assert!(matches!(retry.first_step(), RetryStep::Finished(Err(DhtError::NoResponse))));
}

#[test]
fn retry_success_on_first_attempt_has_no_pause() {
    let mut retry = ReadRetry::new(1);
    assert!(matches!(retry.record(Ok((5, 6))), RetryStep::Finished(Ok((5, 6)))));
}
