//! Maximum and minimum values producible by the controllable power supplies.
use vstd::prelude::*;

verus! {

pub const HEATER_MAX_VOLTAGE_MILLIVOLTS: u16 = 12000;
pub const HEATER_MIN_VOLTAGE_MILLIVOLTS: u16 = 1400;

pub const CATHODE_OFFSET_MAX_VOLTAGE_MILLIVOLTS: u32 = 255000;
pub const CATHODE_OFFSET_MIN_VOLTAGE_MILLIVOLTS: u32 = 0;

pub const TETHER_BIAS_MAX_VOLTAGE_MILLIVOLTS: u32 = 255000;
pub const TETHER_BIAS_MIN_VOLTAGE_MILLIVOLTS: u32 = 0;

} // verus!
