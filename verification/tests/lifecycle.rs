use fanotify::abi::FANOTIFY_METADATA_VERSION;
use fanotify::abi::FAN_MODIFY;
use fanotify::abi::FAN_NOFD;
use fanotify::abi::FAN_OPEN;
use fanotify::event::Event;
use fanotify::mask::FanEvent;
use fanotify::records::FanAdditionalRecords;
use fanotify::wire::fanotify_event_metadata;

fn metadata(mask: u64, fd: i32, pid: i32) -> fanotify_event_metadata {
    fanotify_event_metadata {
        event_len: 24,
        vers: FANOTIFY_METADATA_VERSION,
        reserved: 0,
        metadata_len: 24,
        mask,
        fd,
        pid,
    }
}

#[test]
fn event_takes_descriptor_path_kinds_and_pid() {
    let event = Event::from_metadata(
        &metadata(FAN_OPEN | FAN_MODIFY, 9, 321),
        String::from("/tmp/watched"),
        Vec::new(),
    );
    assert_eq!(event.fd, 9);
    assert_eq!(event.path, "/tmp/watched");
    assert_eq!(event.events, vec![FanEvent::Modify, FanEvent::Open]);
    assert_eq!(event.pid, 321);
    assert!(event.has_descriptor());
}

#[test]
fn event_keeps_additional_records() {
    let records = vec![FanAdditionalRecords {
        info_type: 1,
        payload: vec![1, 2, 3],
    }];
    let event = Event::from_metadata(&metadata(FAN_OPEN, 4, 1), String::new(), records);
    assert_eq!(event.additional_records.len(), 1);
    assert_eq!(event.additional_records[0].info_type, 1);
    assert_eq!(event.additional_records[0].payload, vec![1, 2, 3]);
}

#[test]
fn sentinel_event_exposes_no_descriptor() {
    let event = Event::from_metadata(&metadata(0x4000, FAN_NOFD, 0), String::new(), Vec::new());
    assert!(!event.has_descriptor());
    assert_eq!(event.fd, FAN_NOFD);
}

#[test]
fn empty_path_stands_for_failed_resolution() {
    let event = Event::from_metadata(&metadata(FAN_OPEN, 3, 7), String::new(), Vec::new());
    assert_eq!(event.path, "");
    assert!(event.has_descriptor());
}

#[test]
fn duplicate_carries_identical_metadata_under_new_descriptor() {
    let original = Event::from_metadata(
        &metadata(FAN_OPEN | FAN_MODIFY, 5, 77),
        String::from("/tmp/file"),
        vec![FanAdditionalRecords {
            info_type: 2,
            payload: vec![9],
        }],
    );
    let duplicate = original.duplicate_with(11);
    assert_eq!(duplicate.fd, 11);
    assert_ne!(duplicate.fd, original.fd);
    assert_eq!(duplicate.path, original.path);
    assert_eq!(duplicate.events, original.events);
    assert_eq!(duplicate.pid, original.pid);
    assert_eq!(duplicate.additional_records.len(), 1);
    assert_eq!(duplicate.additional_records[0].info_type, 2);
    assert_eq!(duplicate.additional_records[0].payload, vec![9]);
    // Releasing the original leaves the duplicate intact: the descriptors
    // are distinct numbers.
    let released = original.release();
    assert_eq!(released, 5);
    assert_eq!(duplicate.fd, 11);
    assert!(duplicate.has_descriptor());
}

#[test]
fn release_hands_the_descriptor_out_exactly_once() {
    let event = Event::from_metadata(&metadata(FAN_OPEN, 8, 1), String::new(), Vec::new());
    let fd = event.release();
    assert_eq!(fd, 8);
    // The event is consumed: ownership of descriptor 8 has moved to the
    // caller, and no second release can happen.
}
