use laravel_rust_server::frame::{FrameCodec, FrameError, u32_from_be, u32_to_be};
use laravel_rust_server::retry::{Retry, RetryDecision, RetryPolicy};

#[test]
fn frame_round_trip_keeps_payload() {
    let codec = FrameCodec::new(64);
    let payload = b"{\"hello\":\"world\"}".to_vec();
    let frame = codec.write_frame(&payload).unwrap();
    assert_eq!(&frame[..4], &[0, 0, 0, 17]);
    let mut stream = frame.clone();
    stream.extend_from_slice(b"trailing");
    let (back, used) = codec.read_frame(&stream).unwrap();
    assert_eq!(back, payload);
    assert_eq!(used, 21);
}

#[test]
fn frame_round_trip_empty_and_at_bound() {
    let codec = FrameCodec::new(5);
    for payload in [Vec::new(), vec![1u8, 2, 3, 4, 5]] {
        let frame = codec.write_frame(&payload).unwrap();
        let (back, used) = codec.read_frame(&frame).unwrap();
        assert_eq!(back, payload);
        assert_eq!(used, payload.len() + 4);
    }
}

#[test]
fn oversized_declared_length_is_protocol_error() {
    let codec = FrameCodec::new(1024);
    let stream = [0u8, 0, 4, 1];
    let err = codec.read_frame(&stream).unwrap_err();
    assert_eq!(err, FrameError::TooLarge { declared: 1025, max: 1024 });
    assert!(err.is_protocol_error());
    assert_eq!(codec.payload_len([0xff, 0xff, 0xff, 0xff]), Err(FrameError::TooLarge { declared: 0xffff_ffff, max: 1024 }));
}

#[test]
fn oversized_payload_is_not_written() {
    let codec = FrameCodec::new(3);
    assert_eq!(codec.write_frame(&[1, 2, 3, 4]), Err(FrameError::TooLarge { declared: 4, max: 3 }));
}

#[test]
fn short_stream_is_unexpected_end() {
    let codec = FrameCodec::with_default_bound();
    assert_eq!(codec.read_frame(&[0, 0]), Err(FrameError::UnexpectedEnd));
    assert_eq!(codec.read_frame(&[0, 0, 0, 3, 1, 2]), Err(FrameError::UnexpectedEnd));
    assert!(!FrameError::UnexpectedEnd.is_protocol_error());
}

#[test]
fn big_endian_helpers() {
    assert_eq!(u32_to_be(0x0102_0304), [1, 2, 3, 4]);
    assert_eq!(u32_from_be([0xde, 0xad, 0xbe, 0xef]), 0xdead_beef);
}

#[test]
fn retry_fails_twice_then_succeeds() {
    let policy = RetryPolicy { max_attempts: 3, base_delay_ms: 100, max_delay_ms: 10_000 };
    let mut retry = Retry::new(policy);
    let outcomes = [false, false, true];
    let mut waits = Vec::new();
    let mut invocations = 0;
    let mut result = None;
    for ok in outcomes {
        assert!(retry.may_attempt());
        invocations += 1;
        match retry.record(ok) {
            RetryDecision::WaitThenRetry(ms) => waits.push(ms),
            other => {
                result = Some(other);
                break;
            }
        }
    }
    assert_eq!(result, Some(RetryDecision::Succeeded));
    assert_eq!(waits, vec![100, 200]);
    assert_eq!(invocations, 3);
}

#[test]
fn retry_gives_up_with_attempt_count() {
    let mut retry = Retry::new(RetryPolicy { max_attempts: 2, base_delay_ms: 50, max_delay_ms: 1000 });
    assert_eq!(retry.record(false), RetryDecision::WaitThenRetry(50));
    assert_eq!(retry.record(false), RetryDecision::GaveUp { attempts: 2 });
    assert!(!retry.may_attempt());
}

#[test]
fn backoff_respects_cap() {
    let policy = RetryPolicy { max_attempts: 10, base_delay_ms: 100, max_delay_ms: 350 };
    assert_eq!(policy.backoff_delay(1), 100);
    assert_eq!(policy.backoff_delay(2), 200);
    assert_eq!(policy.backoff_delay(3), 350);
    assert_eq!(policy.backoff_delay(9), 350);
    let huge = RetryPolicy { max_attempts: 100, base_delay_ms: u64::MAX / 2, max_delay_ms: u64::MAX };
    assert_eq!(huge.backoff_delay(60), u64::MAX);
}
