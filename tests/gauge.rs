use ble_copter::gauge::{
    configure_state_block, configure_thresholds_block, read_u16, state_block_needs_update,
    thresholds_block_needs_update, write_u16, BATTERY_CAPACITY, BATTERY_QMAX, CAPACITY_AT,
    TAPER_RATE_AT,
};

#[test]
fn fields_are_big_endian() {
    let mut b = [0u8; 32];
    write_u16(&mut b, 6, 0x1234);
    assert_eq!(b[6], 0x12);
    assert_eq!(b[7], 0x34);
    assert_eq!(read_u16(&b, 6), 0x1234);
    assert_eq!(read_u16(&b, 5), 0x0012);
}

#[test]
fn blank_state_block_is_configured_in_place() {
    let mut b = [0xAAu8; 32];
    assert!(state_block_needs_update(&b));
    configure_state_block(&mut b);
    assert!(!state_block_needs_update(&b));
    assert_eq!(read_u16(&b, CAPACITY_AT), BATTERY_CAPACITY);
    assert_eq!(read_u16(&b, 0), BATTERY_QMAX);
    assert_eq!(read_u16(&b, 8), 740);
    assert_eq!(read_u16(&b, 10), 3200);
    assert_eq!(read_u16(&b, TAPER_RATE_AT), 75);
    // bytes outside the fields are kept
    assert_eq!(b[2], 0xAA);
    assert_eq!(b[12], 0xAA);
    assert_eq!(b[31], 0xAA);
}

#[test]
fn one_wrong_field_asks_for_update() {
    let mut b = [0u8; 32];
    configure_state_block(&mut b);
    write_u16(&mut b, TAPER_RATE_AT, 227);
    assert!(state_block_needs_update(&b));
}

#[test]
fn thresholds_block() {
    let mut b = [0u8; 32];
    assert!(thresholds_block_needs_update(&b));
    configure_thresholds_block(&mut b);
    assert!(!thresholds_block_needs_update(&b));
    assert_eq!(read_u16(&b, 0), 400);
    assert_eq!(read_u16(&b, 4), 200);
    assert_eq!(b[2], 0);
}
