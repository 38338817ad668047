//! Fuel-gauge configuration held in its data-memory blocks: big-endian
//! 16-bit fields at fixed offsets of a 32-byte block.

use vstd::prelude::*;

verus! {

/// Size of a data-memory block.
pub const MEMBLOCK_SIZE: usize = 32;
/// Subclass of the current thresholds block.
pub const CURRENT_THRESHOLDS_CLASS: u8 = 81;
/// Subclass of the battery state block.
pub const STATE_CLASS: u8 = 82;

/// Field offsets in the state block.
pub const QMAX_AT: usize = 0;
pub const CAPACITY_AT: usize = 6;
pub const ENERGY_AT: usize = 8;
pub const TERMINATE_VOLTAGE_AT: usize = 10;
pub const TAPER_RATE_AT: usize = 21;
/// Field offsets in the current thresholds block.
pub const DISCHARGE_THRESHOLD_AT: usize = 0;
pub const QUIT_THRESHOLD_AT: usize = 4;

/// Design capacity, mAh.
pub const BATTERY_CAPACITY: u16 = 200;
/// Design energy, mWh: capacity times 3.7 V.
pub const BATTERY_ENERGY: u16 = 740;
/// Terminate voltage, mV.
pub const BATTERY_TERMINATE_VOLTAGE: u16 = 3200;
/// Taper rate, 0.1 h: capacity over a tenth of the taper current.
pub const BATTERY_TAPER_RATE: u16 = 75;
/// Maximum chemical capacity, as learned on this battery.
pub const BATTERY_QMAX: u16 = 17449;
/// Discharge current threshold, 0.1 h: capacity over a tenth of the current.
pub const DISCHARGE_THRESHOLD: u16 = 400;
/// Quit current threshold, 0.1 h.
pub const QUIT_THRESHOLD: u16 = 200;

/// The big-endian 16-bit field at `at`.
pub open spec fn be16_at(b: Seq<u8>, at: int) -> int {
    256 * b[at] as int + b[at + 1] as int
}

/// `b` with `value` written big-endian at `at`.
pub open spec fn with_be16(b: Seq<u8>, at: int, value: u16) -> Seq<u8> {
    b.update(at, (value / 256) as u8).update(at + 1, (value % 256) as u8)
}

/// The state block describes this battery.
pub open spec fn state_block_configured(b: Seq<u8>) -> bool {
    &&& be16_at(b, CAPACITY_AT as int) == BATTERY_CAPACITY
    &&& be16_at(b, ENERGY_AT as int) == BATTERY_ENERGY
    &&& be16_at(b, TERMINATE_VOLTAGE_AT as int) == BATTERY_TERMINATE_VOLTAGE
    &&& be16_at(b, TAPER_RATE_AT as int) == BATTERY_TAPER_RATE
}

/// The thresholds block holds this battery's current thresholds.
pub open spec fn thresholds_block_configured(b: Seq<u8>) -> bool {
    &&& be16_at(b, DISCHARGE_THRESHOLD_AT as int) == DISCHARGE_THRESHOLD
    &&& be16_at(b, QUIT_THRESHOLD_AT as int) == QUIT_THRESHOLD
}

/// Reads the big-endian field at `at`.
pub fn read_u16(block: &[u8; 32], at: usize) -> (r: u16)
    requires
        at + 2 <= MEMBLOCK_SIZE,
    ensures
        r as int == be16_at(block@, at as int),
{
    (block[at] as u16) * 256 + block[at + 1] as u16
}

/// Writes `value` big-endian at `at`.
pub fn write_u16(block: &mut [u8; 32], at: usize, value: u16)
    requires
        at + 2 <= MEMBLOCK_SIZE,
    ensures
        final(block)@ == with_be16(old(block)@, at as int, value),
{
    block[at] = (value / 256) as u8;
    block[at + 1] = (value % 256) as u8;
    assert(block@ =~= with_be16(old(block)@, at as int, value));
}

proof fn lemma_be16_written(b: Seq<u8>, at: int, value: u16)
    requires
        0 <= at,
        at + 2 <= b.len(),
    ensures
        be16_at(with_be16(b, at, value), at) == value,
        with_be16(b, at, value).len() == b.len(),
        forall|k: int| 0 <= k < b.len() && k != at && k != at + 1 ==> with_be16(b, at, value)[k] == b[k],
{
}

/// Whether the state block must be rewritten for this battery.
pub fn state_block_needs_update(block: &[u8; 32]) -> (r: bool)
    ensures
        r == !state_block_configured(block@),
{
    read_u16(block, CAPACITY_AT) != BATTERY_CAPACITY || read_u16(block, ENERGY_AT) != BATTERY_ENERGY
        || read_u16(block, TERMINATE_VOLTAGE_AT) != BATTERY_TERMINATE_VOLTAGE || read_u16(
        block,
        TAPER_RATE_AT,
    ) != BATTERY_TAPER_RATE
}

/// Writes this battery's design values, and its learned maximum capacity,
/// into the state block; every other byte is kept.
pub fn configure_state_block(block: &mut [u8; 32])
    ensures
        final(block)@ == with_be16(
            with_be16(
                with_be16(
                    with_be16(
                        with_be16(old(block)@, QMAX_AT as int, BATTERY_QMAX),
                        CAPACITY_AT as int,
                        BATTERY_CAPACITY,
                    ),
                    ENERGY_AT as int,
                    BATTERY_ENERGY,
                ),
                TERMINATE_VOLTAGE_AT as int,
                BATTERY_TERMINATE_VOLTAGE,
            ),
            TAPER_RATE_AT as int,
            BATTERY_TAPER_RATE,
        ),
        state_block_configured(final(block)@),
        be16_at(final(block)@, QMAX_AT as int) == BATTERY_QMAX,
{
    let ghost b0 = block@;
    write_u16(block, QMAX_AT, BATTERY_QMAX);
    let ghost b1 = block@;
    write_u16(block, CAPACITY_AT, BATTERY_CAPACITY);
    let ghost b2 = block@;
    write_u16(block, ENERGY_AT, BATTERY_ENERGY);
    let ghost b3 = block@;
    write_u16(block, TERMINATE_VOLTAGE_AT, BATTERY_TERMINATE_VOLTAGE);
    let ghost b4 = block@;
    write_u16(block, TAPER_RATE_AT, BATTERY_TAPER_RATE);
    proof {
        lemma_be16_written(b0, QMAX_AT as int, BATTERY_QMAX);
        lemma_be16_written(b1, CAPACITY_AT as int, BATTERY_CAPACITY);
        lemma_be16_written(b2, ENERGY_AT as int, BATTERY_ENERGY);
        lemma_be16_written(b3, TERMINATE_VOLTAGE_AT as int, BATTERY_TERMINATE_VOLTAGE);
        lemma_be16_written(b4, TAPER_RATE_AT as int, BATTERY_TAPER_RATE);
    }
}

/// Whether the current thresholds block must be rewritten.
pub fn thresholds_block_needs_update(block: &[u8; 32]) -> (r: bool)
    ensures
        r == !thresholds_block_configured(block@),
{
    read_u16(block, DISCHARGE_THRESHOLD_AT) != DISCHARGE_THRESHOLD || read_u16(
        block,
        QUIT_THRESHOLD_AT,
    ) != QUIT_THRESHOLD
}

/// Writes this battery's current thresholds; every other byte is kept.
pub fn configure_thresholds_block(block: &mut [u8; 32])
    ensures
        final(block)@ == with_be16(
            with_be16(old(block)@, DISCHARGE_THRESHOLD_AT as int, DISCHARGE_THRESHOLD),
            QUIT_THRESHOLD_AT as int,
            QUIT_THRESHOLD,
        ),
        thresholds_block_configured(final(block)@),
{
    let ghost b0 = block@;
    write_u16(block, DISCHARGE_THRESHOLD_AT, DISCHARGE_THRESHOLD);
    let ghost b1 = block@;
    write_u16(block, QUIT_THRESHOLD_AT, QUIT_THRESHOLD);
    proof {
        lemma_be16_written(b0, DISCHARGE_THRESHOLD_AT as int, DISCHARGE_THRESHOLD);
        lemma_be16_written(b1, QUIT_THRESHOLD_AT as int, QUIT_THRESHOLD);
    }
}

} // verus!
