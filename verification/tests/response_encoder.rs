use fanotify::abi::FAN_ALLOW;
use fanotify::abi::FAN_DENY;
use fanotify::response::build_response;
use fanotify::response::encode_response;
use fanotify::response::FanotifyResponse;

#[test]
fn allow_serializes_to_eight_bytes_descriptor_first() {
    let bytes = encode_response(3, FanotifyResponse::Allow);
    assert_eq!(bytes, vec![3, 0, 0, 0, 0x01, 0, 0, 0]);
}

#[test]
fn deny_serializes_with_code_two() {
    let bytes = encode_response(3, FanotifyResponse::Deny);
    assert_eq!(bytes, vec![3, 0, 0, 0, 0x02, 0, 0, 0]);
}

#[test]
fn response_codes_match_the_abi() {
    assert_eq!(FanotifyResponse::Allow.code(), FAN_ALLOW);
    assert_eq!(FanotifyResponse::Deny.code(), FAN_DENY);
    assert_eq!(FAN_ALLOW, 0x01);
    assert_eq!(FAN_DENY, 0x02);
}

#[test]
fn descriptor_field_is_little_endian() {
    let bytes = encode_response(0x0102_0304, FanotifyResponse::Allow);
    assert_eq!(&bytes[0..4], &[0x04, 0x03, 0x02, 0x01]);
    assert_eq!(&bytes[4..8], &[0x01, 0, 0, 0]);
}

#[test]
fn negative_descriptor_round_trips_in_twos_complement() {
    let bytes = encode_response(-2, FanotifyResponse::Deny);
    assert_eq!(&bytes[0..4], &[0xfe, 0xff, 0xff, 0xff]);
    assert_eq!(&bytes[4..8], &[0x02, 0, 0, 0]);
}

#[test]
fn build_response_pairs_descriptor_and_code() {
    let record = build_response(12, FanotifyResponse::Deny);
    assert_eq!(record.fd, 12);
    assert_eq!(record.response, FAN_DENY);
    let record = build_response(12, FanotifyResponse::Allow);
    assert_eq!(record.response, FAN_ALLOW);
}
