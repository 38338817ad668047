//! LED indication styles.

use vstd::prelude::*;

verus! {

/// How long the LED stays lit in each blink.
pub const BLINK_ON_MS: u64 = 50;

/// What the LED shows.
#[derive(Clone, Copy, Debug, PartialEq, Eq, Structural)]
pub enum IndicationStyle {
    /// Dark.
    Disabled,
    /// One blink a second: scanning for the controller.
    BlinkFast,
    /// One blink every two seconds: connecting to it.
    BlinkSlow,
}

impl IndicationStyle {
    /// The blink period in milliseconds; `None` when the LED stays dark.
    pub fn blink_period_ms(&self) -> (r: Option<u64>)
        ensures
            r == match self {
                IndicationStyle::Disabled => None,
                IndicationStyle::BlinkFast => Some(1000u64),
                IndicationStyle::BlinkSlow => Some(2000u64),
            },
    {
        match self {
            IndicationStyle::Disabled => None,
            IndicationStyle::BlinkFast => Some(1000),
            IndicationStyle::BlinkSlow => Some(2000),
        }
    }
}

} // verus!
