//! Supply control equations: from a target output voltage to the setting of
//! the digital potentiometer or DAC that controls the supply.
use vstd::prelude::*;
use crate::wrap::{wrap_u16, lemma_u32_as_u16, lemma_div_le_bound, lemma_div_ge_bound, lemma_div_lt_bound};
use crate::fixed_point::{
    trunc_div, fixed_div_bits, saturate_floor, q31_one, q31_from_u32, q31_from_i32, q31_div,
    q31_div_int, q31_sub, q31_saturating_to_u32,
};

verus! {

/// Digipot resistance (ohms) that sets the heater supply to `mv` millivolts:
/// `75_000 / (mv / 810 - 1)`, computed in `Q31` and converted to `u32`
/// rounding down and saturating (so targets below 810 mV give 0).
pub open spec fn spec_heater_digipot_resistance(mv: int) -> int {
    let divisor = trunc_div(mv * q31_one(), 810) - q31_one();
    saturate_floor(fixed_div_bits(75_000 * q31_one(), divisor, q31_one()), q31_one(), u32::MAX as int)
}

/// Resistance that sets the heater step-down converter to the target voltage.
/// A target of exactly 810 mV makes the divisor zero, which the fixed-point
/// division rejects, so it is excluded.
pub fn heater_target_voltage_to_digipot_resistance(millivolts: u32) -> (ohms: u32)
    requires
        millivolts != 810,
    ensures
        ohms == spec_heater_digipot_resistance(millivolts as int),
{
    let target = q31_from_u32(millivolts);
    let scaled = q31_div_int(target, 810);
    let one = q31_from_i32(1);
    let divisor = q31_sub(scaled, one);
    proof {
        let a = millivolts * q31_one();
        if millivolts >= 811 {
            lemma_div_ge_bound(a, 810, q31_one() + 2651214);
            assert(divisor >= 2651214);
            lemma_div_le_bound(75_000 * q31_one() * q31_one(), divisor as int, 0x200_0000_0000_0000);
        } else {
            lemma_div_lt_bound(a, 810, q31_one() - 2651215);
            assert(divisor <= -2651215);
            lemma_div_le_bound(75_000 * q31_one() * q31_one(), -divisor, 0x200_0000_0000_0000);
        }
    }
    let resistance = q31_div(q31_from_i32(75_000), divisor);
    q31_saturating_to_u32(resistance)
}

/// DAC output voltage (mV) that makes the tether bias supply produce `mv`.
pub fn tether_bias_target_voltage_to_dac_voltage(millivolts: u32) -> (dac_mv: u16)
    ensures
        dac_mv == wrap_u16(millivolts as int / 51),
{
    let x: u32 = millivolts / 51;
    proof {
        lemma_u32_as_u16(x);
    }
    x as u16
}

/// DAC output voltage (mV) that makes the cathode offset supply produce `mv`.
/// `millivolts * 100` must fit a `u32`.
pub fn cathode_offset_target_voltage_to_dac_voltage(millivolts: u32) -> (dac_mv: u16)
    requires
        millivolts * 100 <= u32::MAX,
    ensures
        dac_mv == wrap_u16((millivolts * 100) / 5138),
{
    let x: u32 = (millivolts * 100) / 5138;
    proof {
        lemma_u32_as_u16(x);
    }
    x as u16
}

} // verus!
