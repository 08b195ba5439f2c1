use fanotify::abi::FAN_ACCESS;
use fanotify::abi::FAN_ACCESS_PERM;
use fanotify::abi::FAN_CLOSE;
use fanotify::abi::FAN_CLOSE_NOWRITE;
use fanotify::abi::FAN_CLOSE_WRITE;
use fanotify::abi::FAN_MODIFY;
use fanotify::abi::FAN_MOVE;
use fanotify::abi::FAN_MOVED_FROM;
use fanotify::abi::FAN_MOVED_TO;
use fanotify::abi::FAN_ONDIR;
use fanotify::abi::FAN_OPEN;
use fanotify::abi::FAN_OPEN_PERM;
use fanotify::mask::all_events;
use fanotify::mask::events_from_mask;
use fanotify::mask::mask_from_events;
use fanotify::mask::FanEvent;

#[test]
fn decode_zero_is_empty() {
    assert_eq!(events_from_mask(0).len(), 0);
}

#[test]
fn decode_open_modify_in_declaration_order() {
    let decoded = events_from_mask(FAN_OPEN | FAN_MODIFY);
    assert_eq!(decoded, vec![FanEvent::Modify, FanEvent::Open]);
}

#[test]
fn decode_ignores_unrelated_bits() {
    // The same two kinds come out even when bits elsewhere in the word are
    // set that no kind claims.
    let decoded = events_from_mask(FAN_OPEN | FAN_MODIFY | 0x8000_0000_0000_0000);
    assert_eq!(decoded, vec![FanEvent::Modify, FanEvent::Open]);
}

#[test]
fn decode_reports_composite_and_components() {
    let decoded = events_from_mask(FAN_CLOSE_WRITE | FAN_CLOSE_NOWRITE);
    assert_eq!(
        decoded,
        vec![FanEvent::Close, FanEvent::CloseNowrite, FanEvent::CloseWrite]
    );
}

#[test]
fn decode_single_component_still_selects_composite() {
    // Policy: a composite kind is reported whenever the mask intersects its
    // bit value, so one component alone already selects it.
    let decoded = events_from_mask(FAN_CLOSE_WRITE);
    assert_eq!(decoded, vec![FanEvent::Close, FanEvent::CloseWrite]);
}

#[test]
fn decode_move_composite() {
    let decoded = events_from_mask(FAN_MOVED_FROM | FAN_MOVED_TO);
    assert_eq!(
        decoded,
        vec![FanEvent::Move, FanEvent::MovedFrom, FanEvent::MovedTo]
    );
}

#[test]
fn mask_bit_values_match_the_abi() {
    assert_eq!(FanEvent::Access.mask_bit(), FAN_ACCESS);
    assert_eq!(FanEvent::Modify.mask_bit(), FAN_MODIFY);
    assert_eq!(FanEvent::Open.mask_bit(), FAN_OPEN);
    assert_eq!(FanEvent::Close.mask_bit(), FAN_CLOSE_WRITE | FAN_CLOSE_NOWRITE);
    assert_eq!(FanEvent::Move.mask_bit(), FAN_MOVE);
    assert_eq!(FanEvent::Ondir.mask_bit(), FAN_ONDIR);
    assert_eq!(FanEvent::OpenPerm.mask_bit(), FAN_OPEN_PERM);
    assert_eq!(FanEvent::AccessPerm.mask_bit(), FAN_ACCESS_PERM);
}

#[test]
fn all_events_lists_twenty_kinds_in_order() {
    let all = all_events();
    assert_eq!(all.len(), 20);
    assert_eq!(all[0], FanEvent::Access);
    assert_eq!(all[19], FanEvent::OpenPerm);
}

#[test]
fn encode_unions_bit_values() {
    let mask = mask_from_events(&vec![FanEvent::Open, FanEvent::Modify]);
    assert_eq!(mask, FAN_OPEN | FAN_MODIFY);
}

#[test]
fn encode_of_nothing_is_zero() {
    let mask = mask_from_events(&vec![]);
    assert_eq!(mask, 0);
}

#[test]
fn encode_then_decode_reports_the_kinds() {
    let mask = mask_from_events(&vec![FanEvent::Create, FanEvent::Delete]);
    let decoded = events_from_mask(mask);
    assert_eq!(decoded, vec![FanEvent::Create, FanEvent::Delete]);
}
