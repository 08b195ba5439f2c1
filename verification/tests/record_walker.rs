use fanotify::abi::FANOTIFY_METADATA_VERSION;
use fanotify::abi::FAN_MODIFY;
use fanotify::abi::FAN_NOFD;
use fanotify::abi::FAN_OPEN;
use fanotify::errors::FanotifyError;
use fanotify::records::parse_additional_records;
use fanotify::records::parse_event_buffer;
use fanotify::wire::encode_header;
use fanotify::wire::fanotify_event_metadata;
use fanotify::wire::parse_header;

fn header(event_len: u32, metadata_len: u16, mask: u64, fd: i32, pid: i32) -> fanotify_event_metadata {
    fanotify_event_metadata {
        event_len,
        vers: FANOTIFY_METADATA_VERSION,
        reserved: 0,
        metadata_len,
        mask,
        fd,
        pid,
    }
}

fn info_record(info_type: u8, payload: &[u8]) -> Vec<u8> {
    let total = (payload.len() + 4) as u16;
    let mut bytes = vec![info_type, 0];
    bytes.extend_from_slice(&total.to_le_bytes());
    bytes.extend_from_slice(payload);
    bytes
}

#[test]
fn header_round_trip_reproduces_mask_fd_pid() {
    let metadata = header(24, 24, FAN_OPEN | FAN_MODIFY, 7, 4242);
    let bytes = encode_header(&metadata);
    assert_eq!(bytes.len(), 24);
    let parsed = parse_header(&bytes, 0);
    assert_eq!(parsed, metadata);
}

#[test]
fn header_round_trip_keeps_negative_descriptor() {
    let metadata = header(24, 24, 0x4000, FAN_NOFD, -1);
    let parsed = parse_header(&encode_header(&metadata), 0);
    assert_eq!(parsed.fd, FAN_NOFD);
    assert_eq!(parsed.pid, -1);
}

#[test]
fn header_layout_is_little_endian_and_field_ordered() {
    let metadata = header(0x0102_0304, 0x0506, 0x1122_3344_5566_7788, 0x0a0b_0c0d, 0x1a1b_1c1d);
    let bytes = encode_header(&metadata);
    assert_eq!(&bytes[0..4], &[0x04, 0x03, 0x02, 0x01]);
    assert_eq!(bytes[4], FANOTIFY_METADATA_VERSION);
    assert_eq!(bytes[5], 0);
    assert_eq!(&bytes[6..8], &[0x06, 0x05]);
    assert_eq!(
        &bytes[8..16],
        &[0x88, 0x77, 0x66, 0x55, 0x44, 0x33, 0x22, 0x11]
    );
    assert_eq!(&bytes[16..20], &[0x0d, 0x0c, 0x0b, 0x0a]);
    assert_eq!(&bytes[20..24], &[0x1d, 0x1c, 0x1b, 0x1a]);
}

#[test]
fn empty_buffer_yields_no_records() {
    let parsed = parse_event_buffer(&Vec::new()).unwrap();
    assert_eq!(parsed.len(), 0);
}

#[test]
fn single_record_decodes() {
    let buffer = encode_header(&header(24, 24, FAN_OPEN, 5, 100));
    let parsed = parse_event_buffer(&buffer).unwrap();
    assert_eq!(parsed.len(), 1);
    assert_eq!(parsed[0].metadata.mask, FAN_OPEN);
    assert_eq!(parsed[0].metadata.fd, 5);
    assert_eq!(parsed[0].metadata.pid, 100);
    assert_eq!(parsed[0].additional_records.len(), 0);
}

#[test]
fn two_records_decode_in_delivery_order() {
    let mut buffer = encode_header(&header(24, 24, FAN_OPEN, 5, 100));
    buffer.extend_from_slice(&encode_header(&header(24, 24, FAN_MODIFY, 6, 200)));
    let parsed = parse_event_buffer(&buffer).unwrap();
    assert_eq!(parsed.len(), 2);
    assert_eq!(parsed[0].metadata.mask, FAN_OPEN);
    assert_eq!(parsed[0].metadata.fd, 5);
    assert_eq!(parsed[1].metadata.mask, FAN_MODIFY);
    assert_eq!(parsed[1].metadata.fd, 6);
}

#[test]
fn truncated_tail_yields_no_extra_record_and_no_error() {
    let mut buffer = encode_header(&header(24, 24, FAN_OPEN, 5, 100));
    // A second record that claims 48 bytes but is cut off after its header.
    buffer.extend_from_slice(&encode_header(&header(48, 24, FAN_MODIFY, 6, 200)));
    let parsed = parse_event_buffer(&buffer).unwrap();
    assert_eq!(parsed.len(), 1);
    assert_eq!(parsed[0].metadata.fd, 5);
}

#[test]
fn short_remainder_yields_no_record_and_no_error() {
    let mut buffer = encode_header(&header(24, 24, FAN_OPEN, 5, 100));
    buffer.extend_from_slice(&[1, 2, 3]);
    let parsed = parse_event_buffer(&buffer).unwrap();
    assert_eq!(parsed.len(), 1);
}

#[test]
fn version_mismatch_is_fatal() {
    let mut metadata = header(24, 24, FAN_OPEN, 5, 100);
    metadata.vers = FANOTIFY_METADATA_VERSION + 1;
    let buffer = encode_header(&metadata);
    assert_eq!(
        parse_event_buffer(&buffer).unwrap_err(),
        FanotifyError::StreamVersionMismatch
    );
}

#[test]
fn version_mismatch_discards_earlier_records_of_the_buffer() {
    let mut buffer = encode_header(&header(24, 24, FAN_OPEN, 5, 100));
    let mut bad = header(24, 24, FAN_MODIFY, 6, 200);
    bad.vers = 0;
    buffer.extend_from_slice(&encode_header(&bad));
    assert_eq!(
        parse_event_buffer(&buffer).unwrap_err(),
        FanotifyError::StreamVersionMismatch
    );
}

#[test]
fn header_length_below_native_size_is_corruption() {
    let buffer = encode_header(&header(24, 20, FAN_OPEN, 5, 100));
    assert_eq!(
        parse_event_buffer(&buffer).unwrap_err(),
        FanotifyError::StreamCorruption
    );
}

#[test]
fn total_length_below_header_length_is_corruption() {
    let mut buffer = encode_header(&header(24, 32, FAN_OPEN, 5, 100));
    buffer.extend_from_slice(&[0u8; 8]);
    // event_len 24 < metadata_len 32 although the bytes are all there.
    assert_eq!(
        parse_event_buffer(&buffer).unwrap_err(),
        FanotifyError::StreamCorruption
    );
}

#[test]
fn record_with_additional_records_decodes() {
    let info = info_record(1, &[0xde, 0xad, 0xbe, 0xef]);
    let mut buffer = encode_header(&header(24 + info.len() as u32, 24, FAN_OPEN, 5, 100));
    buffer.extend_from_slice(&info);
    let parsed = parse_event_buffer(&buffer).unwrap();
    assert_eq!(parsed.len(), 1);
    assert_eq!(parsed[0].additional_records.len(), 1);
    assert_eq!(parsed[0].additional_records[0].info_type, 1);
    assert_eq!(parsed[0].additional_records[0].payload, vec![0xde, 0xad, 0xbe, 0xef]);
}

#[test]
fn unrecognized_additional_records_are_skipped_by_length() {
    let mut span = info_record(200, &[1, 2, 3]);
    span.extend_from_slice(&info_record(7, &[]));
    let mut buffer = encode_header(&header(24 + span.len() as u32, 24, FAN_OPEN, 5, 100));
    buffer.extend_from_slice(&span);
    let parsed = parse_event_buffer(&buffer).unwrap();
    let records = &parsed[0].additional_records;
    assert_eq!(records.len(), 2);
    assert_eq!(records[0].info_type, 200);
    assert_eq!(records[0].payload, vec![1, 2, 3]);
    assert_eq!(records[1].info_type, 7);
    assert_eq!(records[1].payload.len(), 0);
}

#[test]
fn additional_record_overrunning_its_span_is_corruption() {
    // The sub-record claims 12 bytes but the record leaves it only 8.
    let mut span = info_record(1, &[1, 2, 3, 4]);
    span[2] = 12;
    let mut buffer = encode_header(&header(24 + span.len() as u32, 24, FAN_OPEN, 5, 100));
    buffer.extend_from_slice(&span);
    assert_eq!(
        parse_event_buffer(&buffer).unwrap_err(),
        FanotifyError::StreamCorruption
    );
}

#[test]
fn additional_record_length_below_its_prefix_is_corruption() {
    let mut span = info_record(1, &[1, 2, 3, 4]);
    span[2] = 3;
    let mut buffer = encode_header(&header(24 + span.len() as u32, 24, FAN_OPEN, 5, 100));
    buffer.extend_from_slice(&span);
    assert_eq!(
        parse_event_buffer(&buffer).unwrap_err(),
        FanotifyError::StreamCorruption
    );
}

#[test]
fn additional_record_span_parses_alone() {
    let mut span = info_record(3, &[9, 9]);
    span.extend_from_slice(&info_record(4, &[8]));
    let parsed = parse_additional_records(&span, 0, span.len()).unwrap();
    assert_eq!(parsed.len(), 2);
    assert_eq!(parsed[0].info_type, 3);
    assert_eq!(parsed[0].payload, vec![9, 9]);
    assert_eq!(parsed[1].info_type, 4);
    assert_eq!(parsed[1].payload, vec![8]);
}

#[test]
fn dangling_info_header_bytes_are_corruption() {
    let span = vec![1u8, 0, 0];
    assert!(parse_additional_records(&span, 0, span.len()).is_none());
}
