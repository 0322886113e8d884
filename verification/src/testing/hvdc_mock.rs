//! Test loads placed on the high-voltage supplies during their accuracy
//! tests.
use vstd::prelude::*;

verus! {

/// Resistance (ohms) of the load between the tether and cathode-.
pub const MOCK_TETHER_BIAS_RESISTANCE_OHMS: u32 = 98_150;

/// Resistance (ohms) of the load between the exterior and cathode-.
pub const MOCK_CATHODE_OFFSET_RESISTANCE_OHMS: u32 = 98_300;

} // verus!
