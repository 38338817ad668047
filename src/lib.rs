//! Concurrency and state-coordination core of a small BLE-controlled flying toy:
//! the advertisement filter and HID report decoding of the controller link, the
//! wire layout of the exposed GATT values, the state bus, the gating of
//! subsystems on system conditions, the decisions of both BLE roles, the
//! integer side of the control loop, and the fuel-gauge configuration blocks.

pub mod bus;
pub mod central;
pub mod codec;
pub mod control;
pub mod errors;
pub mod gate;
pub mod gauge;
pub mod indications;
pub mod peripheral;
pub mod state;
pub mod types;
pub mod xbox;
