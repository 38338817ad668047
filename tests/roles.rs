use ble_copter::central::{
    Bonder, CentralEvent, CentralOp, CentralState, EncryptFailure, PeerAddress, SCAN_TIMEOUT_MS,
};
use ble_copter::control::{fresh_input, motor_outputs, pid_engaged, stick_commands};
use ble_copter::errors::BleError;
use ble_copter::gate::{GateAction, GateEvent, GateState};
use ble_copter::indications::IndicationStyle;
use ble_copter::peripheral::{
    handle_gatt_event, GattServer, GattServerEvent, Notification, PeripheralEvent, PeripheralOp,
    PeripheralState,
};
use ble_copter::state::{Facts, Request, SystemState, UpdateType};
use ble_copter::types::{ButtonFlags, JoystickData, PeriodicUpdate, PidUpdate, BUTTON_A, BUTTON_RB};

#[test]
fn gate_waits_while_condition_false_then_starts() {
    let (s, a) = GateState::begin(false);
    assert_eq!((s, a), (GateState::Waiting, GateAction::Wait));
    let (s, a) = s.step(GateEvent::Changed, false);
    assert_eq!((s, a), (GateState::Waiting, GateAction::Wait));
    let (s, a) = s.step(GateEvent::Changed, true);
    assert_eq!((s, a), (GateState::Running, GateAction::Start));
    let (s, a) = s.step(GateEvent::Changed, true);
    assert_eq!((s, a), (GateState::Running, GateAction::Continue));
    let (s, a) = s.step(GateEvent::Changed, false);
    assert_eq!((s, a), (GateState::Waiting, GateAction::Cancel));
}

#[test]
fn gate_restarts_work_that_ended() {
    let (s, _) = GateState::begin(true);
    assert_eq!(s.step(GateEvent::WorkEnded, true), (GateState::Running, GateAction::Start));
    assert_eq!(s.step(GateEvent::WorkEnded, false), (GateState::Waiting, GateAction::Wait));
}

#[test]
fn bonder_accepts_every_peer() {
    let b = Bonder::default();
    assert!(b.can_bond());
    b.on_bonded();
}

#[test]
fn scan_times_out_and_restarts() {
    let s = CentralState::Idle;
    let r = s.step(CentralEvent::Start, 1_000);
    assert_eq!(r.state, CentralState::Scanning { deadline_ms: 1_000 + SCAN_TIMEOUT_MS });
    assert_eq!(r.op, CentralOp::Scan { until_ms: 11_000 });
    assert_eq!(r.indication, Some(IndicationStyle::BlinkFast));
    // a timer firing early changes nothing
    let early = r.state.step(CentralEvent::ScanTimedOut, 10_999);
    assert_eq!(early.state, r.state);
    assert_eq!(early.op, CentralOp::Continue);
    let again = r.state.step(CentralEvent::ScanTimedOut, 11_000);
    assert_eq!(again.state, CentralState::Scanning { deadline_ms: 21_000 });
    assert_eq!(again.op, CentralOp::Scan { until_ms: 21_000 });
    let third = again.state.step(CentralEvent::ScanTimedOut, 21_005);
    assert_eq!(third.op, CentralOp::Scan { until_ms: 31_005 });
}

#[test]
fn scan_error_retries_within_the_same_deadline() {
    let s = CentralState::Scanning { deadline_ms: 5_000 };
    let r = s.step(CentralEvent::ScanFailed, 1_000);
    assert_eq!(r.state, CentralState::ScanBackoff { deadline_ms: 5_000 });
    assert_eq!(r.op, CentralOp::Wait { ms: 100 });
    let r = r.state.step(CentralEvent::BackoffElapsed, 1_100);
    assert_eq!(r.state, CentralState::Scanning { deadline_ms: 5_000 });
    assert_eq!(r.op, CentralOp::Scan { until_ms: 5_000 });
}

#[test]
fn deadline_saturates() {
    let r = CentralState::Idle.step(CentralEvent::Start, u64::MAX - 1);
    assert_eq!(r.state, CentralState::Scanning { deadline_ms: u64::MAX });
}

#[test]
fn central_link_lifecycle() {
    let addr = PeerAddress { addr: [1, 2, 3, 4, 5, 6] };
    let s = CentralState::Scanning { deadline_ms: 10_000 };
    let r = s.step(CentralEvent::ScanFound(addr), 10);
    assert_eq!(r.op, CentralOp::Connect(addr));
    assert_eq!(r.indication, Some(IndicationStyle::BlinkSlow));
    let r = r.state.step(CentralEvent::Connected, 20);
    assert_eq!(r.op, CentralOp::Encrypt);
    let r = r.state.step(CentralEvent::EncryptFailed(EncryptFailure::PeerKeysNotFound), 30);
    assert_eq!(r.op, CentralOp::RequestPairing);
    let r = r.state.step(CentralEvent::PairingDone, 40);
    assert_eq!(r.op, CentralOp::Discover);
    assert_eq!(r.link_present, Some(true));
    let r = r.state.step(CentralEvent::Discovered, 50);
    assert_eq!(r.op, CentralOp::EnableNotifications);
    let r = r.state.step(CentralEvent::NotificationsEnabled, 60);
    assert_eq!(r.state, CentralState::Subscribed);
    assert_eq!(r.indication, Some(IndicationStyle::Disabled));
    let sample = JoystickData {
        j1: (1, 2),
        j2: (3, 4),
        t1: 5,
        t2: 6,
        buttons: ButtonFlags::from_bits_truncate(BUTTON_A),
    };
    let r = r.state.step(CentralEvent::Report(sample), 70);
    assert_eq!(r.sample, Some(sample));
    assert_eq!(r.op, CentralOp::Receive);
    let r = r.state.step(CentralEvent::Disconnected, 80);
    assert_eq!(r.link_present, Some(false));
    assert_eq!(r.state, CentralState::Scanning { deadline_ms: 10_080 });
    assert_eq!(r.error, None);
}

#[test]
fn panic_button_resets() {
    let sample = JoystickData {
        j1: (0, 0),
        j2: (0, 0),
        t1: 0,
        t2: 0,
        buttons: ButtonFlags::from_bits_truncate(BUTTON_RB | BUTTON_A),
    };
    let r = CentralState::Subscribed.step(CentralEvent::Report(sample), 0);
    assert_eq!(r.op, CentralOp::Reset);
    assert_eq!(r.sample, None);
}

#[test]
fn central_errors_restart_scanning() {
    let r = CentralState::Connecting.step(CentralEvent::ConnectFailed, 0);
    assert_eq!(r.error, Some(BleError::ConnectError));
    assert_eq!(r.link_present, None);
    assert!(matches!(r.op, CentralOp::Scan { .. }));
    let r = CentralState::Encrypting.step(CentralEvent::EncryptFailed(EncryptFailure::Other), 0);
    assert_eq!(r.error, Some(BleError::Encryption));
    let r = CentralState::Discovering.step(CentralEvent::DiscoverFailed, 0);
    assert_eq!(r.error, Some(BleError::DiscoveryError));
    assert_eq!(r.link_present, Some(false));
    let r = CentralState::EnablingNotifications.step(CentralEvent::EnableNotificationsFailed, 0);
    assert_eq!(r.error, Some(BleError::WriteError));
    assert!(BleError::ConnectError.is_link_error());
    assert!(!BleError::NotifyValueError.is_link_error());
}

#[test]
fn reboot_write_publishes_one_request() {
    let mut server = GattServer::new();
    let mut state = SystemState::new();
    handle_gatt_event(&mut server, &mut state, GattServerEvent::RebootRequestWrite(true));
    assert_eq!(state.published(), 1);
    assert_eq!(state.current(), Some(UpdateType::Request(Request::Reboot)));
    assert!(server.control.reboot_request);
    handle_gatt_event(&mut server, &mut state, GattServerEvent::RebootRequestWrite(false));
    assert_eq!(state.published(), 1);
    handle_gatt_event(
        &mut server,
        &mut state,
        GattServerEvent::BatteryLevelCccdWrite { notifications: true },
    );
    assert_eq!(state.published(), 1);
}

#[test]
fn tuning_and_sensor_reset_writes() {
    let mut server = GattServer::new();
    let mut state = SystemState::new();
    let gains = PidUpdate { unscaled_p: 250, unscaled_i: 10, unscaled_d: 1 };
    handle_gatt_event(&mut server, &mut state, GattServerEvent::PidUpdateRequestWrite(gains.to_bytes()));
    assert_eq!(state.current(), Some(UpdateType::Request(Request::TuningUpdate(gains))));
    assert_eq!(server.control.pid_update_request, gains);
    handle_gatt_event(&mut server, &mut state, GattServerEvent::SensorResetRequestWrite(true));
    assert_eq!(state.current(), Some(UpdateType::Request(Request::SensorReset)));
    handle_gatt_event(&mut server, &mut state, GattServerEvent::SensorResetRequestWrite(false));
    assert_eq!(state.published(), 2);
}

#[test]
fn bus_changes_become_notifications() {
    let mut server = GattServer::new();
    assert_eq!(server.apply_update(UpdateType::Soc(80)), Some(Notification::BatteryLevel(80)));
    assert_eq!(server.bas.battery_level, 80);
    let u = PeriodicUpdate { voltage: 4000, current: 12, temperature: 2950 };
    assert_eq!(server.apply_update(UpdateType::PeriodicUpdate(u)), Some(Notification::PeriodicUpdate(u)));
    assert_eq!(server.apply_update(UpdateType::GyroSample(-9)), Some(Notification::Gyro(-9)));
    assert_eq!(
        server.apply_update(UpdateType::ChargingStatus(true)),
        Some(Notification::ChargerConnected(true))
    );
    assert_eq!(
        server.apply_update(UpdateType::ChargingFailure(true)),
        Some(Notification::ChargerFailure(true))
    );
    assert_eq!(server.apply_update(UpdateType::ControllerConnection(true)), None);
    server.sync(Facts { soc: 33, charging: false, charger_failure: false, controller_connected: true });
    assert_eq!(server.bas.battery_level, 33);
    assert!(!server.power.charger_connected);
    assert_eq!(server.power.gyro, -9);
}

#[test]
fn advertise_loop_retries_after_failure() {
    let r = PeripheralState::Advertising.step(PeripheralEvent::AdvertiseFailed);
    assert_eq!(r.state, PeripheralState::Backoff);
    assert_eq!(r.op, PeripheralOp::Wait { ms: 1000 });
    assert_eq!(r.error, Some(BleError::AdvertiseError));
    let r = r.state.step(PeripheralEvent::BackoffElapsed);
    assert_eq!(r.op, PeripheralOp::Advertise);
    let r = r.state.step(PeripheralEvent::Connected);
    assert_eq!(r.op, PeripheralOp::Serve);
    let r = r.state.step(PeripheralEvent::ConnectionEnded);
    assert_eq!((r.state, r.op), (PeripheralState::Advertising, PeripheralOp::Advertise));
}

#[test]
fn sticks_to_motor_outputs() {
    let j = JoystickData {
        j1: (0, 6400),
        j2: (-640, -3200),
        t1: 0,
        t2: 0,
        buttons: ButtonFlags::empty(),
    };
    let c = stick_commands(&j);
    assert_eq!((c.throttle, c.yaw, c.elevator), (100, -10, -50));
    assert!(pid_engaged(c.throttle));
    assert!(!pid_engaged(50));
    let m = motor_outputs(c.throttle, 30, c.elevator);
    assert_eq!((m.rotor1, m.rotor2, m.tail, m.tail_forward), (130, 70, 50, false));
    let m = motor_outputs(500, 100, 12);
    assert_eq!((m.rotor1, m.rotor2, m.tail, m.tail_forward), (512, 400, 500, true));
    let m = motor_outputs(i32::MAX, i32::MAX, i32::MIN);
    assert_eq!((m.rotor1, m.rotor2, m.tail), (512, 0, 512));
    let down = JoystickData { j1: (0, -6400), ..j };
    assert_eq!(stick_commands(&down).throttle, 0);
}

#[test]
fn stale_input_is_dropped() {
    let j = JoystickData { j1: (5, 5), j2: (5, 5), t1: 1, t2: 1, buttons: ButtonFlags::empty() };
    assert_eq!(fresh_input(j, 1000, 2000), j);
    assert_eq!(fresh_input(j, 1000, 2001), JoystickData::default());
    assert_eq!(IndicationStyle::BlinkSlow.blink_period_ms(), Some(2000));
    assert_eq!(IndicationStyle::Disabled.blink_period_ms(), None);
}

#[test]
fn abandoning_a_live_link_takes_it_down() {
    assert_eq!(CentralState::Subscribed.on_abandon(), Some(false));
    assert_eq!(CentralState::Discovering.on_abandon(), Some(false));
    assert_eq!(CentralState::Encrypting.on_abandon(), None);
    assert_eq!(CentralState::Scanning { deadline_ms: 3 }.on_abandon(), None);
}
