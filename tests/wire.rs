use sembas::api::{MessagePlan, RequestPlan, SessionState};
use sembas::error::SamplingError;
use sembas::sampling::{Sample, WithinMode};
use sembas::wire::{
    decimal_bytes, decode_class, decode_config, encode_point, end_message, frame_message,
    handshake_reply, parse_message, read_message, BUFFER_CONFIG_SIZE,
};

#[test]
fn config_is_big_endian() {
    assert_eq!(decode_config(&7u64.to_be_bytes()), 7);
    assert_eq!(decode_config(&[0, 0, 0, 0, 0, 0, 1, 2]), 258);
    assert_eq!(decode_config(&u64::MAX.to_be_bytes()), u64::MAX);
    assert_eq!(decode_config(&[1, 0, 0, 0, 0, 0, 0, 0]), 1u64 << 56);
}

#[test]
fn handshake_accepts_matching_dimensions() {
    assert_eq!(BUFFER_CONFIG_SIZE, 8);
    assert_eq!(handshake_reply(7, &7u64.to_be_bytes()), Ok(b"OK\n".to_vec()));
}

#[test]
fn handshake_rejects_other_dimensions() {
    assert_eq!(handshake_reply(7, &5u64.to_be_bytes()), Err(b"7\n".to_vec()));
    assert_eq!(handshake_reply(10, &7u64.to_be_bytes()), Err(b"10\n".to_vec()));
    // little-endian bytes of 7 spell another number
    assert_eq!(handshake_reply(7, &7u64.to_le_bytes()), Err(b"7\n".to_vec()));
}

#[test]
fn decimal_digits() {
    assert_eq!(decimal_bytes(0), b"0".to_vec());
    assert_eq!(decimal_bytes(9), b"9".to_vec());
    assert_eq!(decimal_bytes(1234), b"1234".to_vec());
    assert_eq!(decimal_bytes(u64::MAX), u64::MAX.to_string().into_bytes());
}

#[test]
fn messages_end_with_newline() {
    assert_eq!(frame_message("GLOBAL_SEARCH"), b"GLOBAL_SEARCH\n".to_vec());
    assert_eq!(frame_message(""), b"\n".to_vec());
    assert_eq!(end_message(), b"end\n".to_vec());
}

#[test]
fn point_bytes_are_little_endian() {
    let p = [0.5f64, -1.25, 3.0];
    let bits: Vec<u64> = p.iter().map(|x| x.to_bits()).collect();
    let bytes = encode_point(&bits);
    let mut expected = vec![];
    for x in p.iter() {
        expected.extend_from_slice(&x.to_le_bytes());
    }
    assert_eq!(bytes, expected);
    assert_eq!(encode_point(&[0x0102030405060708]), vec![8, 7, 6, 5, 4, 3, 2, 1]);
    assert_eq!(encode_point(&[]), Vec::<u8>::new());
}

#[test]
fn class_byte_decoding() {
    assert_eq!(decode_class(0), Ok(false));
    assert_eq!(decode_class(1), Ok(true));
    assert!(matches!(decode_class(2), Err(SamplingError::InvalidClassifierResponse(_))));
    assert!(matches!(decode_class(255), Err(SamplingError::InvalidClassifierResponse(_))));
}

#[test]
fn continue_signal_and_messages() {
    assert_eq!(parse_message("CONT\n"), None);
    assert_eq!(parse_message("  CONT \r\n"), None);
    assert_eq!(parse_message("STOP\n"), Some("STOP".to_string()));
    assert_eq!(parse_message("CONTINUE\n"), Some("CONTINUE".to_string()));
    assert_eq!(read_message("  hello world \n"), "hello world".to_string());
}

#[test]
fn session_request_plans() {
    assert_eq!(SessionState::Messaging.request_plan(), RequestPlan::AwaitContinue);
    assert_eq!(SessionState::Requesting.request_plan(), RequestPlan::Classify);
    assert_eq!(SessionState::Incomplete.request_plan(), RequestPlan::Retry);
    assert_eq!(SessionState::Messaging.message_plan(), MessagePlan::Receive);
    assert_eq!(SessionState::Incomplete.message_plan(), MessagePlan::Nothing);
}

#[test]
fn session_transitions() {
    let oob: Result<Sample<[f64; 2]>, SamplingError> = Err(SamplingError::OutOfBounds);
    let ok: Result<Sample<[f64; 2]>, SamplingError> = Ok(Sample::from_class([0.5, 0.5], true));
    let bad: Result<Sample<[f64; 2]>, SamplingError> =
        Err(SamplingError::InvalidClassifierResponse("x".to_string()));
    assert_eq!(SessionState::Requesting.after_classify(&oob), SessionState::Incomplete);
    assert_eq!(SessionState::Incomplete.after_classify(&oob), SessionState::Incomplete);
    assert_eq!(SessionState::Incomplete.after_classify(&ok), SessionState::Messaging);
    assert_eq!(SessionState::Requesting.after_classify(&bad), SessionState::Messaging);
    assert_eq!(SessionState::Messaging.after_message(&None), SessionState::Requesting);
    assert_eq!(
        SessionState::Messaging.after_message(&Some("PHASE".to_string())),
        SessionState::Messaging
    );
}

#[test]
fn remote_round_trip_seven_dimensions() {
    // the client announces 7 dimensions as 8 big-endian bytes
    let config = 7u64.to_be_bytes();
    let reply = handshake_reply(7, &config).expect("matching dimensions");
    assert_eq!(reply, b"OK\n".to_vec());
    // the server sends a 56-byte little-endian point
    let p = [0.1f64, 0.2, 0.3, 0.4, 0.5, 0.6, 0.7];
    let bits: Vec<u64> = p.iter().map(|x| x.to_bits()).collect();
    let request = encode_point(&bits);
    assert_eq!(request.len(), 56);
    assert_eq!(&request[8..16], &0.2f64.to_le_bytes());
    // the client answers 0x01: the caller sees a target sample
    let cls = decode_class(0x01).expect("valid answer");
    assert_eq!(Sample::from_class(p, cls), Sample::WithinMode(WithinMode(p)));
    // on teardown the client reads `end`
    assert_eq!(end_message(), b"end\n".to_vec());
}
