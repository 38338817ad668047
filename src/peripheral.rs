//! The peripheral role: the GATT profile this device serves to a companion
//! host, what host writes turn into, what bus changes are pushed as
//! notifications, and the advertise loop.

use crate::errors::BleError;
use crate::state::{Facts, Request, SystemState, UpdateType};
use crate::types::{pid_update_of, PeriodicUpdate, PidUpdate};
use vstd::prelude::*;

verus! {

/// How long to wait after a failed advertisement before advertising again.
pub const ADVERTISE_RETRY_DELAY_MS: u64 = 1000;

/// The power service UUID 38924a07-23d7-43fe-af5d-9c887a089cf1, least
/// significant byte first, as advertised.
pub const POWER_SERVICE_UUID_BYTES: [u8; 16] = [
    0xf1, 0x9c, 0x08, 0x7a, 0x88, 0x9c, 0x5d, 0xaf, 0xfe, 0x43, 0xd7, 0x23, 0x07, 0x4a, 0x92, 0x38,
];

/// Battery service: the state of charge in percent (read, notify).
#[derive(Clone, Copy, Debug, PartialEq, Eq)]
pub struct BatteryService {
    pub battery_level: u8,
}

/// Power service: charger state (read, notify), telemetry and gyro samples
/// (notify).
#[derive(Clone, Copy, Debug, PartialEq, Eq)]
pub struct PowerService {
    pub charger_connected: bool,
    pub charger_failure: bool,
    pub periodic_update: PeriodicUpdate,
    pub gyro: i16,
}

/// Control service: the host's requests (write).
#[derive(Clone, Copy, Debug, PartialEq, Eq)]
pub struct ControlService {
    pub reboot_request: bool,
    pub pid_update_request: PidUpdate,
    pub sensor_reset_request: bool,
}

/// The values of every characteristic this device serves.
#[derive(Clone, Copy, Debug, PartialEq, Eq)]
pub struct GattServer {
    pub bas: BatteryService,
    pub power: PowerService,
    pub control: ControlService,
}

/// An event of the GATT server: a host write to a characteristic, or to the
/// notification switch of one.
#[derive(Clone, Copy, Debug, PartialEq, Eq)]
pub enum GattServerEvent {
    BatteryLevelCccdWrite { notifications: bool },
    ChargerConnectedCccdWrite { notifications: bool },
    ChargerFailureCccdWrite { notifications: bool },
    PeriodicUpdateCccdWrite { notifications: bool },
    GyroCccdWrite { notifications: bool },
    RebootRequestWrite(bool),
    /// The wire form of a `PidUpdate`.
    PidUpdateRequestWrite([u8; 6]),
    SensorResetRequestWrite(bool),
}

/// A notification to push to the host.
#[derive(Clone, Copy, Debug, PartialEq, Eq)]
pub enum Notification {
    BatteryLevel(u8),
    ChargerConnected(bool),
    ChargerFailure(bool),
    PeriodicUpdate(PeriodicUpdate),
    Gyro(i16),
}

/// The request a host write stands for: a reboot or sensor reset for a
/// write of true, new gains for a write of the tuning block; nothing for a
/// write of false or to a notification switch.
pub open spec fn request_for(ev: GattServerEvent) -> Option<Request> {
    match ev {
        GattServerEvent::RebootRequestWrite(v) => if v {
            Some(Request::Reboot)
        } else {
            None
        },
        GattServerEvent::PidUpdateRequestWrite(b) => Some(
            Request::TuningUpdate(pid_update_of(b@).unwrap()),
        ),
        GattServerEvent::SensorResetRequestWrite(v) => if v {
            Some(Request::SensorReset)
        } else {
            None
        },
        _ => None,
    }
}

/// What a host write publishes on the bus.
pub open spec fn published_by(ev: GattServerEvent) -> Seq<UpdateType> {
    match request_for(ev) {
        Some(r) => seq![UpdateType::Request(r)],
        None => seq![],
    }
}

/// The notification a bus change is pushed as, if any.
pub open spec fn notification_for(u: UpdateType) -> Option<Notification> {
    match u {
        UpdateType::Soc(v) => Some(Notification::BatteryLevel(v)),
        UpdateType::ChargingStatus(v) => Some(Notification::ChargerConnected(v)),
        UpdateType::ChargingFailure(v) => Some(Notification::ChargerFailure(v)),
        UpdateType::PeriodicUpdate(v) => Some(Notification::PeriodicUpdate(v)),
        UpdateType::GyroSample(v) => Some(Notification::Gyro(v)),
        _ => None,
    }
}

impl GattServer {
    /// Every value zero or false.
    pub fn new() -> (r: GattServer)
        ensures
            r.bas.battery_level == 0,
            !r.power.charger_connected && !r.power.charger_failure,
            r.power.periodic_update == (PeriodicUpdate { voltage: 0, current: 0, temperature: 0 }),
            r.power.gyro == 0,
            !r.control.reboot_request && !r.control.sensor_reset_request,
            r.control.pid_update_request == (PidUpdate {
                unscaled_p: 0,
                unscaled_i: 0,
                unscaled_d: 0,
            }),
    {
        GattServer {
            bas: BatteryService { battery_level: 0 },
            power: PowerService {
                charger_connected: false,
                charger_failure: false,
                periodic_update: PeriodicUpdate { voltage: 0, current: 0, temperature: 0 },
                gyro: 0,
            },
            control: ControlService {
                reboot_request: false,
                pid_update_request: PidUpdate { unscaled_p: 0, unscaled_i: 0, unscaled_d: 0 },
                sensor_reset_request: false,
            },
        }
    }

    /// Sets the readable values from the latest facts, as done once when a
    /// host connects.
    pub fn sync(&mut self, facts: Facts)
        ensures
            *final(self) == (GattServer {
                bas: BatteryService { battery_level: facts.soc },
                power: PowerService {
                    charger_connected: facts.charging,
                    charger_failure: facts.charger_failure,
                    ..old(self).power
                },
                ..*old(self)
            }),
    {
        self.bas.battery_level = facts.soc;
        self.power.charger_connected = facts.charging;
        self.power.charger_failure = facts.charger_failure;
    }

    /// Takes a bus change: stores the value it carries and returns the
    /// notification to push, if the change is one the host is told of.
    pub fn apply_update(&mut self, u: UpdateType) -> (r: Option<Notification>)
        ensures
            r == notification_for(u),
            *final(self) == match u {
                UpdateType::Soc(v) => GattServer {
                    bas: BatteryService { battery_level: v },
                    ..*old(self)
                },
                UpdateType::ChargingStatus(v) => GattServer {
                    power: PowerService { charger_connected: v, ..old(self).power },
                    ..*old(self)
                },
                UpdateType::ChargingFailure(v) => GattServer {
                    power: PowerService { charger_failure: v, ..old(self).power },
                    ..*old(self)
                },
                UpdateType::PeriodicUpdate(v) => GattServer {
                    power: PowerService { periodic_update: v, ..old(self).power },
                    ..*old(self)
                },
                UpdateType::GyroSample(v) => GattServer {
                    power: PowerService { gyro: v, ..old(self).power },
                    ..*old(self)
                },
                _ => *old(self),
            },
    {
        match u {
            UpdateType::Soc(v) => {
                self.bas.battery_level = v;
                Some(Notification::BatteryLevel(v))
            },
            UpdateType::ChargingStatus(v) => {
                self.power.charger_connected = v;
                Some(Notification::ChargerConnected(v))
            },
            UpdateType::ChargingFailure(v) => {
                self.power.charger_failure = v;
                Some(Notification::ChargerFailure(v))
            },
            UpdateType::PeriodicUpdate(v) => {
                self.power.periodic_update = v;
                Some(Notification::PeriodicUpdate(v))
            },
            UpdateType::GyroSample(v) => {
                self.power.gyro = v;
                Some(Notification::Gyro(v))
            },
            _ => None,
        }
    }

    /// Takes a host write: stores what was written to a request
    /// characteristic and returns the request it stands for.
    pub fn on_write(&mut self, ev: GattServerEvent) -> (r: Option<Request>)
        ensures
            r == request_for(ev),
            *final(self) == match ev {
                GattServerEvent::RebootRequestWrite(v) => GattServer {
                    control: ControlService { reboot_request: v, ..old(self).control },
                    ..*old(self)
                },
                GattServerEvent::PidUpdateRequestWrite(b) => GattServer {
                    control: ControlService {
                        pid_update_request: pid_update_of(b@).unwrap(),
                        ..old(self).control
                    },
                    ..*old(self)
                },
                GattServerEvent::SensorResetRequestWrite(v) => GattServer {
                    control: ControlService { sensor_reset_request: v, ..old(self).control },
                    ..*old(self)
                },
                _ => *old(self),
            },
    {
        match ev {
            GattServerEvent::RebootRequestWrite(v) => {
                self.control.reboot_request = v;
                if v {
                    Some(Request::Reboot)
                } else {
                    None
                }
            },
            GattServerEvent::PidUpdateRequestWrite(b) => {
                match PidUpdate::from_bytes(b.as_slice()) {
                    Some(p) => {
                        self.control.pid_update_request = p;
                        Some(Request::TuningUpdate(p))
                    },
                    None => None,
                }
            },
            GattServerEvent::SensorResetRequestWrite(v) => {
                self.control.sensor_reset_request = v;
                if v {
                    Some(Request::SensorReset)
                } else {
                    None
                }
            },
            _ => None,
        }
    }
}

/// Serves a host write: stores it and publishes the request it stands for,
/// if any, on the bus.
pub fn handle_gatt_event(server: &mut GattServer, state: &mut SystemState, ev: GattServerEvent)
    requires
        old(state).can_publish(),
    ensures
        final(state).updates() == old(state).updates() + published_by(ev),
        final(state).facts() == old(state).facts(),
{
    match server.on_write(ev) {
        Some(r) => {
            state.add_request(r);
            assert(state.updates() =~= old(state).updates() + published_by(ev));
        },
        None => {
            assert(state.updates() =~= old(state).updates() + published_by(ev));
        },
    }
}

/// A host write of true to the reboot characteristic publishes exactly one
/// reboot request; a write of false publishes nothing.
pub proof fn lemma_reboot_write_publishes_once(v: bool)
    ensures
        published_by(GattServerEvent::RebootRequestWrite(v)) == if v {
            seq![UpdateType::Request(Request::Reboot)]
        } else {
            Seq::<UpdateType>::empty()
        },
{
}

/// Where the advertise loop stands.
#[derive(Clone, Copy, Debug, PartialEq, Eq, Structural)]
pub enum PeripheralState {
    Advertising,
    /// Pausing after a failed advertisement.
    Backoff,
    /// A host is connected.
    Serving,
}

/// A result of the radio work, or a timer.
#[derive(Clone, Copy, Debug, PartialEq, Eq, Structural)]
pub enum PeripheralEvent {
    Connected,
    AdvertiseFailed,
    BackoffElapsed,
    /// Serving the host ended: its link dropped, or the GATT server or the
    /// notification dispatcher returned.
    ConnectionEnded,
}

/// The radio work to do next.
#[derive(Clone, Copy, Debug, PartialEq, Eq, Structural)]
pub enum PeripheralOp {
    /// Advertise, connectable and undirected, until a host connects.
    Advertise,
    /// Sleep for `ms`, then report `BackoffElapsed`.
    Wait { ms: u64 },
    /// Serve the connected host: the GATT server and the notification
    /// dispatcher, until either returns.
    Serve,
    /// Keep waiting on the work in progress.
    Continue,
}

/// One decision of the advertise loop.
#[derive(Clone, Copy, Debug, PartialEq, Eq, Structural)]
pub struct PeripheralStep {
    pub state: PeripheralState,
    pub op: PeripheralOp,
    pub error: Option<BleError>,
}

/// The decision of the advertise loop on event `e` in state `s`.
pub open spec fn peripheral_next(s: PeripheralState, e: PeripheralEvent) -> PeripheralStep {
    match (s, e) {
        (PeripheralState::Advertising, PeripheralEvent::Connected) => PeripheralStep {
            state: PeripheralState::Serving,
            op: PeripheralOp::Serve,
            error: None,
        },
        (PeripheralState::Advertising, PeripheralEvent::AdvertiseFailed) => PeripheralStep {
            state: PeripheralState::Backoff,
            op: PeripheralOp::Wait { ms: ADVERTISE_RETRY_DELAY_MS },
            error: Some(BleError::AdvertiseError),
        },
        (PeripheralState::Backoff, PeripheralEvent::BackoffElapsed) | (
            PeripheralState::Serving,
            PeripheralEvent::ConnectionEnded,
        ) => PeripheralStep { state: PeripheralState::Advertising, op: PeripheralOp::Advertise, error: None },
        _ => PeripheralStep { state: s, op: PeripheralOp::Continue, error: None },
    }
}

impl PeripheralState {
    /// What to do on event `e`: serve a host that connected, pause
    /// `ADVERTISE_RETRY_DELAY_MS` after a failed advertisement, and advertise
    /// again after the pause or once the host is gone.
    pub fn step(&self, e: PeripheralEvent) -> (r: PeripheralStep)
        ensures
            r == peripheral_next(*self, e),
    {
        match (*self, e) {
            (PeripheralState::Advertising, PeripheralEvent::Connected) => PeripheralStep {
                state: PeripheralState::Serving,
                op: PeripheralOp::Serve,
                error: None,
            },
            (PeripheralState::Advertising, PeripheralEvent::AdvertiseFailed) => PeripheralStep {
                state: PeripheralState::Backoff,
                op: PeripheralOp::Wait { ms: ADVERTISE_RETRY_DELAY_MS },
                error: Some(BleError::AdvertiseError),
            },
            (PeripheralState::Backoff, PeripheralEvent::BackoffElapsed) | (
                PeripheralState::Serving,
                PeripheralEvent::ConnectionEnded,
            ) => PeripheralStep {
                state: PeripheralState::Advertising,
                op: PeripheralOp::Advertise,
                error: None,
            },
            _ => PeripheralStep { state: *self, op: PeripheralOp::Continue, error: None },
        }
    }
}

} // verus!
