use ble_copter::types::{ChargerState, PeriodicUpdate, PidUpdate};

#[test]
fn periodic_update_round_trip() {
    let u = PeriodicUpdate { voltage: 3712, current: -245, temperature: 2981 };
    let b = u.to_bytes();
    assert_eq!(b, [0x80, 0x0e, 0x0b, 0xff, 0xa5, 0x0b]);
    assert_eq!(PeriodicUpdate::from_bytes(&b), Some(u));
}

#[test]
fn periodic_update_extremes_round_trip() {
    let u = PeriodicUpdate { voltage: u16::MAX, current: i16::MIN, temperature: 0 };
    assert_eq!(PeriodicUpdate::from_bytes(&u.to_bytes()), Some(u));
}

#[test]
fn charger_state_round_trip() {
    for (charging, failure) in [(false, false), (true, false), (false, true), (true, true)] {
        let c = ChargerState { charging, failure };
        assert_eq!(ChargerState::from_bytes(&c.to_bytes()), Some(c));
    }
    assert_eq!(ChargerState { charging: true, failure: false }.to_bytes(), [1, 0]);
}

#[test]
fn pid_update_round_trip() {
    let u = PidUpdate { unscaled_p: 200, unscaled_i: 0x1234, unscaled_d: 65535 };
    let b = u.to_bytes();
    assert_eq!(b, [0xc8, 0x00, 0x34, 0x12, 0xff, 0xff]);
    assert_eq!(PidUpdate::from_bytes(&b), Some(u));
}

#[test]
fn wrong_lengths_decode_to_nothing() {
    assert_eq!(PidUpdate::from_bytes(&[1, 2, 3, 4, 5]), None);
    assert_eq!(PeriodicUpdate::from_bytes(&[1, 2, 3, 4, 5, 6, 7]), None);
    assert_eq!(ChargerState::from_bytes(&[1]), None);
}
