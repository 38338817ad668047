//! The system's tracked facts and the bus on which every change of them is
//! published.

use crate::bus::{Channel, Subscriber};
use crate::types::{JoystickData, PeriodicUpdate, PidUpdate};
use vstd::prelude::*;

verus! {

/// State of charge at or below which the battery is critically low.
pub const SOC_FATAL: u8 = 5;
/// State of charge at or below which the battery is low.
pub const SOC_LOW: u8 = 15;

/// A request from the companion host.
#[derive(Clone, Copy, Debug, PartialEq, Eq)]
pub enum Request {
    Reboot,
    TuningUpdate(PidUpdate),
    SensorReset,
}

/// One change published on the bus.
#[derive(Clone, Copy, Debug, PartialEq, Eq)]
pub enum UpdateType {
    Soc(u8),
    ChargingStatus(bool),
    ChargingFailure(bool),
    PeriodicUpdate(PeriodicUpdate),
    GyroSample(i16),
    ControllerConnection(bool),
    ControllerData(JoystickData),
    Request(Request),
}

/// The latest value of each tracked fact.
#[derive(Clone, Copy, Debug, PartialEq, Eq)]
pub struct Facts {
    pub soc: u8,
    pub charging: bool,
    pub charger_failure: bool,
    pub controller_connected: bool,
}

/// Battery at or below the critical level.
pub open spec fn soc_fatal(f: Facts) -> bool {
    f.soc <= SOC_FATAL
}

/// The radio roles may run: the battery is not critically low, or it is
/// being charged.
pub open spec fn link_allowed(f: Facts) -> bool {
    !soc_fatal(f) || f.charging
}

/// The control loop may run: a controller is linked, the battery is not
/// being charged, and it is not critically low.
pub open spec fn control_allowed(f: Facts) -> bool {
    f.controller_connected && !f.charging && !soc_fatal(f)
}

/// Tracked facts, and the bus of their changes.
pub struct SystemState {
    facts: Facts,
    bus: Channel<UpdateType>,
}

impl SystemState {
    #[verifier::type_invariant]
    spec fn inv(self) -> bool {
        self.bus.is_retained()
    }

    /// The latest value of each fact.
    pub closed spec fn facts(&self) -> Facts {
        self.facts
    }

    /// The bus.
    pub closed spec fn bus(&self) -> Channel<UpdateType> {
        self.bus
    }

    /// Every change published so far, oldest first.
    pub open spec fn updates(&self) -> Seq<UpdateType> {
        self.bus().history()
    }

    /// Room for one more publish.
    pub open spec fn can_publish(&self) -> bool {
        self.updates().len() < u64::MAX
    }

    /// All facts zero or false, nothing published yet; the bus retains its
    /// latest change for late readers.
    pub fn new() -> (r: SystemState)
        ensures
            r.facts() == (Facts {
                soc: 0,
                charging: false,
                charger_failure: false,
                controller_connected: false,
            }),
            r.updates() == Seq::<UpdateType>::empty(),
    {
        SystemState {
            facts: Facts { soc: 0, charging: false, charger_failure: false, controller_connected: false },
            bus: Channel::new(true),
        }
    }

    /// The latest value of each fact.
    pub fn snapshot(&self) -> (r: Facts)
        ensures
            r == self.facts(),
    {
        self.facts
    }

    /// A new reader of the bus; it sees the latest change first, if any.
    pub fn event_receiver(&self) -> (r: Subscriber)
        ensures
            r.seen() == 0,
            r.observed() == Seq::<int>::empty(),
    {
        proof {
            use_type_invariant(self);
        }
        self.bus.subscribe()
    }

    /// The next change for `sub`, without waiting (see `Channel::try_changed`).
    pub fn try_changed(&self, sub: &mut Subscriber) -> (r: Option<UpdateType>)
        requires
            old(sub).seen() <= self.updates().len(),
        ensures
            old(sub).seen() < self.updates().len() ==> {
                &&& r == Some(self.updates().last())
                &&& final(sub).seen() == self.updates().len()
                &&& final(sub).observed() == old(sub).observed().push(self.updates().len() - 1)
            },
            old(sub).seen() == self.updates().len() ==> r.is_none() && *final(sub) == *old(sub),
            final(sub).in_publish_order(),
    {
        self.bus.try_changed(sub)
    }

    /// The latest change published, if any.
    pub fn current(&self) -> (r: Option<UpdateType>)
        ensures
            r == if self.updates().len() > 0 {
                Some(self.updates().last())
            } else {
                None
            },
    {
        proof {
            use_type_invariant(self);
        }
        self.bus.current()
    }

    /// How many changes have been published.
    pub fn published(&self) -> (r: u64)
        ensures
            r == self.updates().len(),
    {
        self.bus.published()
    }

    pub fn is_charging(&self) -> (r: bool)
        ensures
            r == self.facts().charging,
    {
        self.facts.charging
    }

    pub fn is_charging_failure(&self) -> (r: bool)
        ensures
            r == self.facts().charger_failure,
    {
        self.facts.charger_failure
    }

    pub fn soc(&self) -> (r: u8)
        ensures
            r == self.facts().soc,
    {
        self.facts.soc
    }

    pub fn is_soc_fatal(&self) -> (r: bool)
        ensures
            r == soc_fatal(self.facts()),
    {
        self.facts.soc <= SOC_FATAL
    }

    pub fn is_soc_low(&self) -> (r: bool)
        ensures
            r == (self.facts().soc <= SOC_LOW),
    {
        self.facts.soc <= SOC_LOW
    }

    pub fn is_controller_connected(&self) -> (r: bool)
        ensures
            r == self.facts().controller_connected,
    {
        self.facts.controller_connected
    }

    /// Whether the radio roles may run now.
    pub fn link_may_run(&self) -> (r: bool)
        ensures
            r == link_allowed(self.facts()),
    {
        !self.is_soc_fatal() || self.facts.charging
    }

    /// Whether the control loop may run now.
    pub fn control_may_run(&self) -> (r: bool)
        ensures
            r == control_allowed(self.facts()),
    {
        self.facts.controller_connected && !self.facts.charging && !self.is_soc_fatal()
    }

    fn notify(&mut self, t: UpdateType)
        requires
            old(self).can_publish(),
        ensures
            final(self).updates() == old(self).updates().push(t),
            final(self).facts() == old(self).facts(),
    {
        proof {
            use_type_invariant(&*self);
        }
        let mut bus = Channel::new(true);
        std::mem::swap(&mut bus, &mut self.bus);
        bus.publish(t);
        std::mem::swap(&mut bus, &mut self.bus);
    }

    /// Records a new state of charge and publishes it.
    pub fn add_soc(&mut self, soc: u8)
        requires
            old(self).can_publish(),
        ensures
            final(self).facts() == (Facts { soc, ..old(self).facts() }),
            final(self).updates() == old(self).updates().push(UpdateType::Soc(soc)),
    {
        proof {
            use_type_invariant(&*self);
        }
        self.facts.soc = soc;
        self.notify(UpdateType::Soc(soc));
    }

    /// Publishes a telemetry sample.
    pub fn add_periodic_update(&mut self, u: PeriodicUpdate)
        requires
            old(self).can_publish(),
        ensures
            final(self).facts() == old(self).facts(),
            final(self).updates() == old(self).updates().push(UpdateType::PeriodicUpdate(u)),
    {
        self.notify(UpdateType::PeriodicUpdate(u));
    }

    /// Publishes a gyro sample.
    pub fn add_gyro_sample(&mut self, s: i16)
        requires
            old(self).can_publish(),
        ensures
            final(self).facts() == old(self).facts(),
            final(self).updates() == old(self).updates().push(UpdateType::GyroSample(s)),
    {
        self.notify(UpdateType::GyroSample(s));
    }

    /// Records whether the battery is being charged and publishes it.
    pub fn set_charging(&mut self, charging: bool)
        requires
            old(self).can_publish(),
        ensures
            final(self).facts() == (Facts { charging, ..old(self).facts() }),
            final(self).updates() == old(self).updates().push(UpdateType::ChargingStatus(charging)),
    {
        proof {
            use_type_invariant(&*self);
        }
        self.facts.charging = charging;
        self.notify(UpdateType::ChargingStatus(charging));
    }

    /// Records whether the charger reports a failure and publishes it.
    pub fn set_charger_failure(&mut self, failure: bool)
        requires
            old(self).can_publish(),
        ensures
            final(self).facts() == (Facts { charger_failure: failure, ..old(self).facts() }),
            final(self).updates() == old(self).updates().push(UpdateType::ChargingFailure(failure)),
    {
        proof {
            use_type_invariant(&*self);
        }
        self.facts.charger_failure = failure;
        self.notify(UpdateType::ChargingFailure(failure));
    }

    /// Publishes new tuning gains for the control loop.
    pub fn update_controller_pid(&mut self, p: PidUpdate)
        requires
            old(self).can_publish(),
        ensures
            final(self).facts() == old(self).facts(),
            final(self).updates() == old(self).updates().push(
                UpdateType::Request(Request::TuningUpdate(p)),
            ),
    {
        self.notify(UpdateType::Request(Request::TuningUpdate(p)));
    }

    /// Publishes a request of the companion host.
    pub fn add_request(&mut self, r: Request)
        requires
            old(self).can_publish(),
        ensures
            final(self).facts() == old(self).facts(),
            final(self).updates() == old(self).updates().push(UpdateType::Request(r)),
    {
        self.notify(UpdateType::Request(r));
    }

    /// Records whether the controller link is up and publishes it.
    pub fn set_controller_connected(&mut self, connected: bool)
        requires
            old(self).can_publish(),
        ensures
            final(self).facts() == (Facts { controller_connected: connected, ..old(self).facts() }),
            final(self).updates() == old(self).updates().push(
                UpdateType::ControllerConnection(connected),
            ),
    {
        proof {
            use_type_invariant(&*self);
        }
        self.facts.controller_connected = connected;
        self.notify(UpdateType::ControllerConnection(connected));
    }

    /// Publishes a controller input sample.
    pub fn add_controller_sample(&mut self, j: JoystickData)
        requires
            old(self).can_publish(),
        ensures
            final(self).facts() == old(self).facts(),
            final(self).updates() == old(self).updates().push(UpdateType::ControllerData(j)),
    {
        self.notify(UpdateType::ControllerData(j));
    }
}

} // verus!
