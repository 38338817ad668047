//! Values carried on the state bus, and the wire layout of those exposed
//! over GATT: little-endian fields, packed in declaration order.

use crate::codec::{le16, read_u16_at};
use vstd::prelude::*;

verus! {

/// Controller button bits that the decoder keeps.
pub const BUTTON_A: u32 = 0x1;
pub const BUTTON_B: u32 = 0x2;
pub const BUTTON_X: u32 = 0x8;
pub const BUTTON_Y: u32 = 0x10;
pub const BUTTON_LB: u32 = 0x40;
pub const BUTTON_RB: u32 = 0x80;
pub const BUTTON_ACTION_1: u32 = 0x400;
pub const BUTTON_MENU: u32 = 0x800;
pub const BUTTON_XBOX: u32 = 0x1000;
pub const BUTTON_LEFT_STICK: u32 = 0x2000;
pub const BUTTON_RIGHT_STICK: u32 = 0x4000;
pub const BUTTON_ACTION_2: u32 = 0x10000;
/// Every named button bit.
pub const BUTTONS_ALL: u32 = 0x17cdb;

/// A set of controller buttons, held as a bit mask of the named bits.
#[derive(Clone, Copy, Debug, PartialEq, Eq, Structural)]
pub struct ButtonFlags {
    bits: u32,
}

impl ButtonFlags {
    pub closed spec fn spec_bits(&self) -> u32 {
        self.bits
    }

    /// Only named bits are ever set.
    pub open spec fn wf(&self) -> bool {
        self.spec_bits() & !BUTTONS_ALL == 0
    }

    /// The empty set.
    pub fn empty() -> (r: ButtonFlags)
        ensures
            r.spec_bits() == 0,
            r.wf(),
    {
        proof {
            assert(0u32 & !BUTTONS_ALL == 0) by (bit_vector);
        }
        ButtonFlags { bits: 0 }
    }

    /// Keeps the named bits of `bits` and drops the others.
    pub fn from_bits_truncate(bits: u32) -> (r: ButtonFlags)
        ensures
            r.spec_bits() == bits & BUTTONS_ALL,
            r.wf(),
    {
        proof {
            assert((bits & 0x17cdbu32) & !0x17cdbu32 == 0) by (bit_vector);
        }
        ButtonFlags { bits: bits & BUTTONS_ALL }
    }

    /// The mask.
    pub fn bits(&self) -> (r: u32)
        ensures
            r == self.spec_bits(),
    {
        self.bits
    }

    /// No button is set.
    pub fn is_empty(&self) -> (r: bool)
        ensures
            r == (self.spec_bits() == 0),
    {
        self.bits == 0
    }

    /// Every bit of `mask` is set.
    pub fn contains(&self, mask: u32) -> (r: bool)
        ensures
            r == (self.spec_bits() & mask == mask),
    {
        self.bits & mask == mask
    }
}

/// One controller input sample: two sticks as signed (x, y) pairs centred on
/// zero, two triggers, and the buttons held.
#[derive(Clone, Copy, Debug, PartialEq, Eq)]
pub struct JoystickData {
    pub j1: (i32, i32),
    pub j2: (i32, i32),
    pub t1: u16,
    pub t2: u16,
    pub buttons: ButtonFlags,
}

impl JoystickData {
    /// Sticks centred, triggers released, no button held.
    pub open spec fn is_neutral(&self) -> bool {
        self.j1 == (0i32, 0i32) && self.j2 == (0i32, 0i32) && self.t1 == 0 && self.t2 == 0
            && self.buttons.spec_bits() == 0
    }
}

impl Default for JoystickData {
    fn default() -> (r: JoystickData)
        ensures
            r.is_neutral(),
    {
        JoystickData { j1: (0, 0), j2: (0, 0), t1: 0, t2: 0, buttons: ButtonFlags::empty() }
    }
}

/// The two bytes of `v`, least significant first.
pub open spec fn le16_bytes(v: u16) -> Seq<u8> {
    seq![(v % 256) as u8, (v / 256) as u8]
}

/// Splits `v` into its bytes, least significant first.
fn u16_le(v: u16) -> (r: (u8, u8))
    ensures
        seq![r.0, r.1] == le16_bytes(v),
{
    ((v % 256) as u8, (v / 256) as u8)
}

proof fn lemma_le16_round_trip(v: u16)
    ensures
        le16(le16_bytes(v)[0], le16_bytes(v)[1]) == v as int,
{
}

proof fn lemma_i16_through_u16(v: i16)
    ensures
        ((v as u16) as int) as u16 as i16 == v,
{
    assert((v as u16) as i16 == v) by (bit_vector);
}

/// Telemetry from the fuel gauge: millivolts, average milliamps (negative
/// while discharging), and temperature in tenths of a kelvin.
#[derive(Clone, Copy, Debug, PartialEq, Eq, Structural)]
pub struct PeriodicUpdate {
    pub voltage: u16,
    pub current: i16,
    pub temperature: u16,
}

/// Wire form of a `PeriodicUpdate`.
pub open spec fn periodic_update_bytes(u: PeriodicUpdate) -> Seq<u8> {
    le16_bytes(u.voltage) + le16_bytes(u.current as u16) + le16_bytes(u.temperature)
}

/// The `PeriodicUpdate` that six bytes hold; nothing for another length.
pub open spec fn periodic_update_of(b: Seq<u8>) -> Option<PeriodicUpdate> {
    if b.len() == 6 {
        Some(
            PeriodicUpdate {
                voltage: le16(b[0], b[1]) as u16,
                current: le16(b[2], b[3]) as u16 as i16,
                temperature: le16(b[4], b[5]) as u16,
            },
        )
    } else {
        None
    }
}

impl PeriodicUpdate {
    /// Its wire form.
    pub fn to_bytes(&self) -> (r: [u8; 6])
        ensures
            r@ == periodic_update_bytes(*self),
    {
        let (a0, a1) = u16_le(self.voltage);
        let (b0, b1) = u16_le(self.current as u16);
        let (c0, c1) = u16_le(self.temperature);
        let r = [a0, a1, b0, b1, c0, c1];
        assert(r@ =~= periodic_update_bytes(*self));
        r
    }

    /// Reads the wire form; `None` unless `b` has exactly six bytes.
    pub fn from_bytes(b: &[u8]) -> (r: Option<PeriodicUpdate>)
        ensures
            r == periodic_update_of(b@),
    {
        if b.len() != 6 {
            return None;
        }
        let voltage = read_u16_at(b, 0);
        let current = read_u16_at(b, 2) as i16;
        let temperature = read_u16_at(b, 4);
        Some(PeriodicUpdate { voltage, current, temperature })
    }
}

/// Charger status as exposed over GATT.
#[derive(Clone, Copy, Debug, PartialEq, Eq, Structural)]
pub struct ChargerState {
    pub charging: bool,
    pub failure: bool,
}

/// A flag on the wire: 1 for true, 0 for false.
pub open spec fn flag_byte(b: bool) -> u8 {
    if b {
        1
    } else {
        0
    }
}

/// Wire form of a `ChargerState`.
pub open spec fn charger_state_bytes(c: ChargerState) -> Seq<u8> {
    seq![flag_byte(c.charging), flag_byte(c.failure)]
}

/// The `ChargerState` that two bytes hold (any nonzero byte reads as true);
/// nothing for another length.
pub open spec fn charger_state_of(b: Seq<u8>) -> Option<ChargerState> {
    if b.len() == 2 {
        Some(ChargerState { charging: b[0] != 0, failure: b[1] != 0 })
    } else {
        None
    }
}

impl ChargerState {
    /// Its wire form.
    pub fn to_bytes(&self) -> (r: [u8; 2])
        ensures
            r@ == charger_state_bytes(*self),
    {
        let c: u8 = if self.charging {
            1
        } else {
            0
        };
        let f: u8 = if self.failure {
            1
        } else {
            0
        };
        let r = [c, f];
        assert(r@ =~= charger_state_bytes(*self));
        r
    }

    /// Reads the wire form; `None` unless `b` has exactly two bytes.
    pub fn from_bytes(b: &[u8]) -> (r: Option<ChargerState>)
        ensures
            r == charger_state_of(b@),
    {
        if b.len() != 2 {
            return None;
        }
        Some(ChargerState { charging: b[0] != 0, failure: b[1] != 0 })
    }
}

/// Control-loop tuning gains in fixed point: each gain times 100.
#[derive(Clone, Copy, Debug, PartialEq, Eq, Structural)]
pub struct PidUpdate {
    pub unscaled_p: u16,
    pub unscaled_i: u16,
    pub unscaled_d: u16,
}

/// Wire form of a `PidUpdate`.
pub open spec fn pid_update_bytes(u: PidUpdate) -> Seq<u8> {
    le16_bytes(u.unscaled_p) + le16_bytes(u.unscaled_i) + le16_bytes(u.unscaled_d)
}

/// The `PidUpdate` that six bytes hold; nothing for another length.
pub open spec fn pid_update_of(b: Seq<u8>) -> Option<PidUpdate> {
    if b.len() == 6 {
        Some(
            PidUpdate {
                unscaled_p: le16(b[0], b[1]) as u16,
                unscaled_i: le16(b[2], b[3]) as u16,
                unscaled_d: le16(b[4], b[5]) as u16,
            },
        )
    } else {
        None
    }
}

impl PidUpdate {
    /// Its wire form.
    pub fn to_bytes(&self) -> (r: [u8; 6])
        ensures
            r@ == pid_update_bytes(*self),
    {
        let (a0, a1) = u16_le(self.unscaled_p);
        let (b0, b1) = u16_le(self.unscaled_i);
        let (c0, c1) = u16_le(self.unscaled_d);
        let r = [a0, a1, b0, b1, c0, c1];
        assert(r@ =~= pid_update_bytes(*self));
        r
    }

    /// Reads the wire form; `None` unless `b` has exactly six bytes.
    pub fn from_bytes(b: &[u8]) -> (r: Option<PidUpdate>)
        ensures
            r == pid_update_of(b@),
    {
        if b.len() != 6 {
            return None;
        }
        let unscaled_p = read_u16_at(b, 0);
        let unscaled_i = read_u16_at(b, 2);
        let unscaled_d = read_u16_at(b, 4);
        Some(PidUpdate { unscaled_p, unscaled_i, unscaled_d })
    }
}

/// Decoding the wire form of a `PeriodicUpdate` gives back every field.
pub proof fn lemma_periodic_update_round_trip(u: PeriodicUpdate)
    ensures
        periodic_update_of(periodic_update_bytes(u)) == Some(u),
{
    let b = periodic_update_bytes(u);
    lemma_le16_round_trip(u.voltage);
    lemma_le16_round_trip(u.current as u16);
    lemma_le16_round_trip(u.temperature);
    lemma_i16_through_u16(u.current);
    assert(b[2] == le16_bytes(u.current as u16)[0]);
    assert(b[3] == le16_bytes(u.current as u16)[1]);
}

/// Decoding the wire form of a `ChargerState` gives back both flags.
pub proof fn lemma_charger_state_round_trip(c: ChargerState)
    ensures
        charger_state_of(charger_state_bytes(c)) == Some(c),
{
}

/// Decoding the wire form of a `PidUpdate` gives back every gain.
pub proof fn lemma_pid_update_round_trip(u: PidUpdate)
    ensures
        pid_update_of(pid_update_bytes(u)) == Some(u),
{
    lemma_le16_round_trip(u.unscaled_p);
    lemma_le16_round_trip(u.unscaled_i);
    lemma_le16_round_trip(u.unscaled_d);
}

} // verus!
