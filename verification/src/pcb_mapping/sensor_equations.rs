//! Sensor equations. Each takes the voltage reported at the ADC (in
//! millivolts) and produces the voltage or current being sensed, with the
//! integer widths, truncations and fixed-point steps of the board firmware.
use vstd::prelude::*;
use crate::wrap::{wrap_u16, wrap_i16, lemma_i32_as_u16, lemma_i32_as_i16, lemma_div_le_bound, lemma_div_ge_bound};
use crate::fixed_point::{
    trunc_div, pow10, is_ilog10, fixed_div_bits, saturate_floor, q32_one, q32_log10_e_bits,
    fits_i64, q32_from_u16, q32_from_i32, q32_int_log10, q32_log10_e, q32_div, q32_sub,
    q32_mul_int, q32_add, q32_saturating_to_u16,
};

verus! {

/// Heater voltage in millivolts: `v * 1035 / 310`, kept to 16 bits.
pub open spec fn spec_heater_voltage(v: int) -> int {
    wrap_u16((v * 1035) / 310)
}

/// Heater output voltage sensed through a 310:1035 divider.
pub fn heater_voltage_eq(v_adc_millivolts: u16) -> (mv: u16)
    ensures
        mv == spec_heater_voltage(v_adc_millivolts as int),
{
    let x: i32 = (v_adc_millivolts as i32 * 1035) / 310;
    proof {
        lemma_i32_as_u16(x);
    }
    x as u16
}

/// Repeller voltage in millivolts.
pub fn repeller_voltage_eq(v_adc_millivolts: u16) -> (mv: i32)
    ensures
        mv == (v_adc_millivolts - 2755) * 102,
{
    (v_adc_millivolts as i32 - 2755) * 102
}

/// Tether bias voltage in millivolts.
pub fn tether_bias_voltage_eq(v_adc_millivolts: u16) -> (mv: i32)
    ensures
        mv == v_adc_millivolts * 106 + 805,
{
    (v_adc_millivolts as i32 * 106) + 805
}

/// Cathode offset voltage in millivolts. The product `v * -86_463` must fit an
/// `i32` (ADC readings up to 24_837 mV).
pub fn cathode_offset_voltage_eq(v_adc_millivolts: u16) -> (mv: i32)
    requires
        v_adc_millivolts * 86_463 <= 2_147_483_648,
    ensures
        mv == trunc_div(v_adc_millivolts * -86_463, 1000) + 301_437,
{
    let v = v_adc_millivolts as i32;
    assert(v * -86_463 >= i32::MIN);
    ((v * -86_463) / 1000) + 301_437
}

/// Heater current in milliamps: `v * 2 * 957 / 1000 - 66`, kept to a signed 16 bits.
pub open spec fn spec_heater_current(v: int) -> int {
    wrap_i16((v * 2 * 957) / 1000 - 66)
}

/// Heater current in milliamps.
pub fn heater_current_eq(v_adc_millivolts: u16) -> (ma: i16)
    ensures
        ma == spec_heater_current(v_adc_millivolts as int),
{
    let x: i32 = ((v_adc_millivolts as i32 * 2 * 957) / 1000) - 66;
    proof {
        lemma_i32_as_i16(x);
    }
    x as i16
}

/// Tether bias current in microamps. The product `(v - 1020) * 50_750` must fit
/// an `i32` (ADC readings up to 43_334 mV).
pub fn tether_bias_current_eq(v_adc_millivolts: u16) -> (ua: i32)
    requires
        (v_adc_millivolts - 1020) * 50_750 <= i32::MAX,
    ensures
        ua == trunc_div((v_adc_millivolts - 1020) * 50_750, 9804),
{
    ((v_adc_millivolts as i32 - 1020) * 50_750) / 9804
}

/// Cathode offset current in microamps.
pub fn cathode_offset_current_eq(v_adc_millivolts: u16) -> (ua: i32)
    ensures
        ua == trunc_div((v_adc_millivolts - 2463) * 780, 500),
{
    ((v_adc_millivolts as i32 - 2463) * 780) / 500
}

/// Aperture current: `(4444 - v) * 43 / 10_000`, kept to 16 bits.
pub open spec fn spec_aperture_current(v: int) -> int {
    wrap_u16(trunc_div((4444 - v) * 43, 10_000))
}

/// Aperture current in microamps. Readings above 4444 mV give a negative
/// quotient, which the 16-bit result wraps.
pub fn aperture_current_sensor_eq(v_adc_millivolts: u16) -> (ua: u16)
    ensures
        ua == spec_aperture_current(v_adc_millivolts as int),
{
    let x: i32 = ((-(v_adc_millivolts as i32) + (40_000 / 9)) * 43) / 10_000;
    proof {
        lemma_i32_as_u16(x);
    }
    x as u16
}

/// Pinpuller current in milliamps.
pub fn pinpuller_current_sensor_eq(v_adc_millivolts: u16) -> (ma: u16)
    ensures
        ma == (v_adc_millivolts * 1000) / 1804,
{
    let x: u32 = (v_adc_millivolts as u32 * 1000) / 1804;
    assert(x <= 36328) by {
        lemma_div_le_bound(v_adc_millivolts * 1000, 1804, 36328);
    }
    x as u16
}

/// Base-10 logarithm, rounded down, of a reading between 1 and 720.
pub open spec fn small_log10(v: int) -> int {
    if v < 10 {
        0
    } else if v < 100 {
        1
    } else {
        2
    }
}

/// Natural-log approximation of a reading, in `Q32` bits:
/// `floor(log10(v)) / log10(e)`.
pub open spec fn ln_approx_bits(v: int) -> int {
    fixed_div_bits(small_log10(v) * q32_one(), q32_log10_e_bits(), q32_one())
}

/// `298 * v * 10_000 / (vcc - ln_approx(v))`, in `Q32` bits.
pub open spec fn temperature_quotient_bits(v: int, vcc: int) -> int {
    fixed_div_bits(v * q32_one() * 298 * 10_000, vcc * q32_one() - ln_approx_bits(v), q32_one())
}

/// Temperature in kelvin reported for an ADC reading of `v` millivolts on a
/// thermistor divider supplied from `vcc` millivolts:
/// `1_028_100 / (705 + 298 * v * 10_000 / (vcc - ln_approx(v)))`, computed in
/// `Q32` and converted to `u16` rounding down and saturating.
pub open spec fn spec_temperature_kelvin(v: int, vcc: int) -> int {
    let sum = 705 * q32_one() + temperature_quotient_bits(v, vcc);
    saturate_floor(fixed_div_bits(1_028_100 * q32_one(), sum, q32_one()), q32_one(), 65535)
}

proof fn lemma_pow10_ge_1000(n: nat)
    requires
        n >= 3,
    ensures
        pow10(n) >= 1000,
    decreases n,
{
    if n > 3 {
        lemma_pow10_ge_1000((n - 1) as nat);
    } else {
        reveal_with_fuel(pow10, 4);
    }
}

/// The rounded-down logarithm of a reading between 1 and 720 is `small_log10`.
proof fn lemma_small_log10(v: int, r: int)
    requires
        1 <= v <= 720,
        is_ilog10(v, r),
    ensures
        r == small_log10(v),
{
    reveal_with_fuel(pow10, 4);
    assert(pow10(0) == 1 && pow10(1) == 10 && pow10(2) == 100 && pow10(3) == 1000);
    if r >= 3 {
        lemma_pow10_ge_1000(r as nat);
    }
}

/// The thermistor equation shared by both temperature sensor supplies.
fn generic_temperature_eq(v_adc_millivolts: u16, vcc: u16) -> (kelvin: u16)
    requires
        1 <= v_adc_millivolts <= 720,
        vcc == 5000 || vcc == 3300,
    ensures
        kelvin == spec_temperature_kelvin(v_adc_millivolts as int, vcc as int),
{
    let v = v_adc_millivolts;
    let v_bits = q32_from_u16(v);
    let log = q32_int_log10(v_bits);
    proof {
        assert((v_bits as int) / q32_one() == v as int) by {
            vstd::arithmetic::div_mod::lemma_div_multiples_vanish(v as int, q32_one());
        }
        lemma_small_log10(v as int, log as int);
    }
    let log_bits = q32_from_i32(log);
    let log10_e = q32_log10_e();
    proof {
        lemma_div_le_bound(log_bits * q32_one(), log10_e as int, 0x8_0000_0000);
    }
    let ln_approx = q32_div(log_bits, log10_e);
    assert(ln_approx == ln_approx_bits(v as int));
    let denom = q32_sub(q32_from_u16(vcc), ln_approx);
    let num = q32_mul_int(q32_mul_int(v_bits, 298), 10_000);
    assert(num == v * q32_one() * 298 * 10_000);
    assert(denom >= 3292 * q32_one());
    proof {
        lemma_div_le_bound(num * q32_one(), denom as int, 0x10_0000_0000_0000);
    }
    let quot = q32_div(num, denom);
    assert(quot == temperature_quotient_bits(v as int, vcc as int));
    let sum = q32_add(q32_from_i32(705), quot);
    let dividend = q32_from_i32(1_028_100);
    proof {
        lemma_div_le_bound(dividend * q32_one(), sum as int, 0x800_0000_0000);
    }
    let kelvin_bits = q32_div(dividend, sum);
    q32_saturating_to_u16(kelvin_bits)
}

/// Payload-board temperature in kelvin (thermistor supplied from 5 V). The
/// fixed-point product `298 * v * 10_000` overflows above 720 mV and a reading
/// of zero has no logarithm, so readings lie in 1..=720.
pub fn payload_temperature_eq(v_adc_millivolts: u16) -> (kelvin: u16)
    requires
        1 <= v_adc_millivolts <= 720,
    ensures
        kelvin == spec_temperature_kelvin(v_adc_millivolts as int, 5000),
{
    generic_temperature_eq(v_adc_millivolts, 5000)
}

/// Length-measurement-system temperature in kelvin (thermistor supplied from
/// 3.3 V); readings lie in 1..=720 as for `payload_temperature_eq`.
pub fn lms_temperature_eq(v_adc_millivolts: u16) -> (kelvin: u16)
    requires
        1 <= v_adc_millivolts <= 720,
    ensures
        kelvin == spec_temperature_kelvin(v_adc_millivolts as int, 3300),
{
    generic_temperature_eq(v_adc_millivolts, 3300)
}

} // verus!
