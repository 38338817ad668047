use ble_copter::xbox::{decode_hid_report, is_xbox_controller};

const VENDOR: [u8; 5] = [4, 0xFF, 0x06, 0x00, 0x03];
const HID_COMPLETE: [u8; 4] = [3, 0x03, 0x12, 0x18];

fn join(parts: &[&[u8]]) -> Vec<u8> {
    let mut v = Vec::new();
    for p in parts {
        v.extend_from_slice(p);
    }
    v
}

#[test]
fn candidate_with_vendor_and_hid_entries() {
    let flags: [u8; 3] = [2, 0x01, 0x06];
    let p = join(&[&flags, &VENDOR, &HID_COMPLETE]);
    assert!(is_xbox_controller(&p));
}

#[test]
fn candidate_with_partial_uuid_list_in_any_order() {
    let hid_partial: [u8; 6] = [5, 0x02, 0x0f, 0x18, 0x12, 0x18];
    let p = join(&[&hid_partial, &VENDOR]);
    assert!(is_xbox_controller(&p));
}

#[test]
fn no_vendor_entry_is_rejected() {
    let other_vendor: [u8; 4] = [3, 0xFF, 0x4c, 0x00];
    let p = join(&[&other_vendor, &HID_COMPLETE]);
    assert!(!is_xbox_controller(&p));
}

#[test]
fn no_hid_entry_is_rejected() {
    let battery_uuid: [u8; 4] = [3, 0x03, 0x0f, 0x18];
    let p = join(&[&VENDOR, &battery_uuid]);
    assert!(!is_xbox_controller(&p));
    assert!(!is_xbox_controller(&VENDOR));
}

#[test]
fn hid_uuid_in_other_entry_type_is_ignored() {
    let wrong_type: [u8; 4] = [3, 0x16, 0x12, 0x18];
    let p = join(&[&VENDOR, &wrong_type]);
    assert!(!is_xbox_controller(&p));
}

#[test]
fn misaligned_uuid_bytes_do_not_count() {
    let misaligned: [u8; 6] = [5, 0x03, 0x00, 0x12, 0x18, 0x00];
    let p = join(&[&VENDOR, &misaligned]);
    assert!(!is_xbox_controller(&p));
}

#[test]
fn entry_running_past_the_end_stops_parsing() {
    let truncated: [u8; 3] = [9, 0x03, 0x12];
    let p = join(&[&VENDOR, &truncated]);
    assert!(!is_xbox_controller(&p));
    let p = join(&[&VENDOR, &HID_COMPLETE, &truncated]);
    assert!(is_xbox_controller(&p));
}

#[test]
fn zero_length_entry_stops_parsing() {
    let zero: [u8; 2] = [0, 0];
    let p = join(&[&VENDOR, &zero, &HID_COMPLETE]);
    assert!(!is_xbox_controller(&p));
}

#[test]
fn empty_and_tiny_payloads_are_rejected() {
    assert!(!is_xbox_controller(&[]));
    assert!(!is_xbox_controller(&[3]));
    assert!(!is_xbox_controller(&[0xff, 0xff]));
}

#[test]
fn half_scale_report_is_centred_with_no_buttons() {
    let mut p = [0u8; 16];
    for k in 0..4 {
        p[2 * k] = 0xFF;
        p[2 * k + 1] = 0x7F;
    }
    let j = decode_hid_report(&p);
    assert_eq!(j.j1, (0, 0));
    assert_eq!(j.j2, (0, 0));
    assert_eq!(j.t1, 0);
    assert_eq!(j.t2, 0);
    assert!(j.buttons.is_empty());
}

#[test]
fn report_fields_are_little_endian() {
    let p: [u8; 16] = [
        0x00, 0x00, 0x00, 0x00, 0xFF, 0xFF, 0x34, 0x12, 0x01, 0x02, 0xFF, 0x03, 0x00, 0x85, 0x04,
        0x01,
    ];
    let j = decode_hid_report(&p);
    assert_eq!(j.j1, (-32767, 32767));
    assert_eq!(j.j2, (32768, 32767 - 0x1234));
    assert_eq!(j.t1, 0x0201);
    assert_eq!(j.t2, 0x03FF);
    // bit 2 is not a named button and is dropped
    assert_eq!(j.buttons.bits(), 0x1_0481);
    assert!(j.buttons.contains(ble_copter::types::BUTTON_RB));
}
