//! The pinpuller test load, and the current it should draw.
use vstd::prelude::*;
use crate::fixed_point::{fits_i64, fixed_div_bits, q32_one, q32_parsed, q32_from_str, q32_const_from_int,
    q32_unwrapped_add, q32_unwrapped_div};

verus! {

/// Whether the loop resistances (`Q32` bits, ohms) can be summed, in the
/// order wire, sense, divider, load, then each of the two MOSFETs, without
/// overflow, and the sum divides the pinpuller voltage.
pub open spec fn spec_loop_resistance_ok(wire: int, sense: int, divider: int, load: int, mosfet: int) -> bool {
    &&& fits_i64(wire + sense)
    &&& fits_i64(wire + sense + divider)
    &&& fits_i64(wire + sense + divider + load)
    &&& fits_i64(wire + sense + divider + load + mosfet)
    &&& fits_i64(wire + sense + divider + load + mosfet + mosfet)
    &&& wire + sense + divider + load + mosfet + mosfet != 0
    &&& fits_i64(fixed_div_bits(3300 * q32_one(), wire + sense + divider + load + mosfet + mosfet, q32_one()))
}

/// Current (`Q32` bits, milliamps) the pinpuller supply drives through the
/// loop: `3300 mV / (wire + sense + divider + load + 2 * MOSFET)`.
pub open spec fn spec_expected_on_current(wire: int, sense: int, divider: int, load: int, mosfet: int) -> int {
    fixed_div_bits(3300 * q32_one(), wire + sense + divider + load + mosfet + mosfet, q32_one())
}

/// Expected on-current from the loop resistances, in `Q32` bits.
pub fn expected_on_current_from(wire: i64, sense: i64, divider: i64, load: i64, mosfet: i64) -> (bits: i64)
    requires
        spec_loop_resistance_ok(wire as int, sense as int, divider as int, load as int, mosfet as int),
    ensures
        bits == spec_expected_on_current(wire as int, sense as int, divider as int, load as int, mosfet as int),
{
    let circuit = q32_unwrapped_add(
        q32_unwrapped_add(
            q32_unwrapped_add(q32_unwrapped_add(q32_unwrapped_add(wire, sense), divider), load),
            mosfet,
        ),
        mosfet,
    );
    q32_unwrapped_div(q32_const_from_int(crate::pcb_mapping::peripheral_vcc_values::PINPULLER_VOLTAGE_MILLIVOLTS as i64), circuit)
}

/// The expected on-current from the board's literal resistances, where they
/// parse and combine; `None` otherwise.
pub open spec fn spec_expected_on_current_from_literals() -> Option<i64> {
    match (q32_parsed("0.22"@), q32_parsed("0.082"@), q32_parsed("0.4"@), q32_parsed("1.2"@), q32_parsed("0.03"@)) {
        (Some(w), Some(s), Some(d), Some(l), Some(m)) => if spec_loop_resistance_ok(w as int, s as int, d as int, l as int, m as int) {
            Some(spec_expected_on_current(w as int, s as int, d as int, l as int, m as int) as i64)
        } else {
            None
        },
        _ => None,
    }
}

/// Expected pinpuller current with the mock load (MOSFET on-resistance
/// 0.03 ohm twice, load 1.2 ohm, divider 0.4 ohm, sense 0.082 ohm, wiring
/// 0.22 ohm), in `Q32` bits of milliamps.
pub fn expected_on_current() -> (r: Option<i64>)
    ensures
        r == spec_expected_on_current_from_literals(),
{
    let wire = q32_from_str("0.22");
    let sense = q32_from_str("0.082");
    let divider = q32_from_str("0.4");
    let load = q32_from_str("1.2");
    let mosfet = q32_from_str("0.03");
    match (wire, sense, divider, load, mosfet) {
        (Some(w), Some(s), Some(d), Some(l), Some(m)) => {
            if loop_resistance_ok(w, s, d, l, m) {
                Some(expected_on_current_from(w, s, d, l, m))
            } else {
                None
            }
        },
        _ => None,
    }
}

/// Tests `spec_loop_resistance_ok` in 128-bit arithmetic.
fn loop_resistance_ok(wire: i64, sense: i64, divider: i64, load: i64, mosfet: i64) -> (ok: bool)
    ensures
        ok == spec_loop_resistance_ok(wire as int, sense as int, divider as int, load as int, mosfet as int),
{
    let min: i128 = i64::MIN as i128;
    let max: i128 = i64::MAX as i128;
    let a: i128 = wire as i128 + sense as i128;
    let b: i128 = a + divider as i128;
    let c: i128 = b + load as i128;
    let d: i128 = c + mosfet as i128;
    let e: i128 = d + mosfet as i128;
    if !(min <= a && a <= max && min <= b && b <= max && min <= c && c <= max && min <= d && d <= max && min <= e
        && e <= max && e != 0) {
        return false;
    }
    let n: i128 = 3300 * 4294967296 * 4294967296;
    let q: i128 = if e > 0 { n / e } else { -(n / (-e)) };
    assert(q == fixed_div_bits(3300 * q32_one(), e as int, q32_one()));
    min <= q && q <= max
}

} // verus!
