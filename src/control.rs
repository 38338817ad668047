//! The integer side of the flight control loop: stick positions to rotor
//! and tail commands, and dropping stale input.

use crate::types::JoystickData;
use vstd::prelude::*;

verus! {

/// Full duty of a motor output.
pub const PWM_MAX_DUTY: u16 = 512;
/// Input older than this is dropped.
pub const RECEIVE_TIMEOUT_MS: u64 = 1000;
/// Control loop iterations per second.
pub const CONTROL_LOOP_FREQUENCY_HZ: u64 = 200;
/// Throttle above which the yaw controller is engaged.
pub const PID_THROTTLE_THRESHOLD: i32 = 50;

/// Stick positions scaled to motor units.
#[derive(Clone, Copy, Debug, PartialEq, Eq, Structural)]
pub struct StickCommands {
    /// Left stick up, never negative.
    pub throttle: i32,
    /// Right stick sideways.
    pub yaw: i32,
    /// Right stick up and down.
    pub elevator: i32,
}

/// Duties and tail direction for the motor outputs.
#[derive(Clone, Copy, Debug, PartialEq, Eq, Structural)]
pub struct MotorOutputs {
    pub rotor1: u16,
    pub rotor2: u16,
    pub tail: u16,
    /// The tail motor's direction pin is driven high.
    pub tail_forward: bool,
}

/// `x` limited to the duty range.
pub open spec fn clamp_duty(x: int) -> u16 {
    if x < 0 {
        0
    } else if x > PWM_MAX_DUTY as int {
        PWM_MAX_DUTY
    } else {
        x as u16
    }
}

/// Tail duty for elevator command `v`: forward `PWM_MAX_DUTY - v` when `v` is
/// positive, else reverse `-v`.
pub open spec fn tail_duty(v: int) -> int {
    if v > 0 {
        PWM_MAX_DUTY as int - v
    } else {
        -v
    }
}

/// Scales the sticks to motor units (a 64th of the axis value); the throttle
/// is never negative.
pub fn stick_commands(j: &JoystickData) -> (r: StickCommands)
    ensures
        r.throttle == if j.j1.1 >> 6i32 > 0 {
            j.j1.1 >> 6i32
        } else {
            0
        },
        r.yaw == j.j2.0 >> 6i32,
        r.elevator == j.j2.1 >> 6i32,
{
    let t = j.j1.1 >> 6;
    StickCommands { throttle: if t > 0 { t } else { 0 }, yaw: j.j2.0 >> 6, elevator: j.j2.1 >> 6 }
}

/// Whether the yaw controller runs at this throttle.
pub fn pid_engaged(throttle: i32) -> (r: bool)
    ensures
        r == (throttle > PID_THROTTLE_THRESHOLD),
{
    throttle > PID_THROTTLE_THRESHOLD
}

fn clamp_to_pwm(x: i64) -> (r: u16)
    ensures
        r == clamp_duty(x as int),
{
    if x < 0 {
        0
    } else if x > PWM_MAX_DUTY as i64 {
        PWM_MAX_DUTY
    } else {
        x as u16
    }
}

/// Motor outputs for a throttle, a yaw correction and an elevator command:
/// the rotors get throttle plus and minus the correction, the tail the
/// elevator command, each limited to the duty range.
pub fn motor_outputs(throttle: i32, control: i32, elevator: i32) -> (r: MotorOutputs)
    ensures
        r.rotor1 == clamp_duty(throttle + control),
        r.rotor2 == clamp_duty(throttle - control),
        r.tail == clamp_duty(tail_duty(elevator as int)),
        r.tail_forward == (elevator > 0),
{
    let v = elevator as i64;
    let tail = if v > 0 {
        PWM_MAX_DUTY as i64 - v
    } else {
        -v
    };
    MotorOutputs {
        rotor1: clamp_to_pwm(throttle as i64 + control as i64),
        rotor2: clamp_to_pwm(throttle as i64 - control as i64),
        tail: clamp_to_pwm(tail),
        tail_forward: elevator > 0,
    }
}

/// The input to fly on: the latest sample, or neutral sticks once it is more
/// than `RECEIVE_TIMEOUT_MS` old.
pub fn fresh_input(latest: JoystickData, received_ms: u64, now_ms: u64) -> (r: JoystickData)
    ensures
        now_ms as int - received_ms as int > RECEIVE_TIMEOUT_MS as int ==> r.is_neutral(),
        now_ms as int - received_ms as int <= RECEIVE_TIMEOUT_MS as int ==> r == latest,
{
    if now_ms.saturating_sub(received_ms) > RECEIVE_TIMEOUT_MS {
        JoystickData::default()
    } else {
        latest
    }
}

} // verus!
