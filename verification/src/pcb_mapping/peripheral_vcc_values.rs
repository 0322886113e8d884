//! Supply voltages of the board's peripherals.
use vstd::prelude::*;

verus! {

pub const ADC_VCC_VOLTAGE_MILLIVOLTS: u16 = 5000;
pub const ISOLATED_ADC_VCC_VOLTAGE_MILLIVOLTS: u16 = 5000;
pub const DAC_VCC_VOLTAGE_MILLIVOLTS: u16 = 5000;
pub const PINPULLER_VOLTAGE_MILLIVOLTS: u16 = 3300;

} // verus!
