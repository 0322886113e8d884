//! The heater test load, and the largest current it may draw.
use vstd::prelude::*;
use crate::fixed_point::{q32_one, trunc_div, fixed_div_bits, q32_const_from_int, q32_unwrapped_div_int, q32_unwrapped_mul_int};
use crate::testing::{fixed_sqrt, newton_iterate, newton_defined, newton_step};

verus! {

/// Resistance of the mock heater, milliohms.
pub const MOCK_HEATER_RESISTANCE_MOHMS: u16 = 10_000;

/// Resistance of the multimeter probes, milliohms.
pub const PROBE_RESISTANCE_MOHMS: u16 = 90;

/// Heater resistance plus the shunt resistor, milliohms.
pub const CIRCUIT_RESISTANCE_MOHMS: u16 = MOCK_HEATER_RESISTANCE_MOHMS
    + crate::pcb_mapping::HEATER_SENSE_RESISTANCE_MILLIOHMS as u16;

/// The circuit plus the probes, milliohms.
pub const CIRCUIT_AND_PROBE_RESISTANCE_MOHMS: u16 = CIRCUIT_RESISTANCE_MOHMS + PROBE_RESISTANCE_MOHMS;

/// Power the heater may dissipate, milliwatts.
pub const HEATER_MAX_POWER_MWATTS: u16 = 1000;

/// `Q32` bits of `max power / circuit resistance` (watts per milliohm), the
/// value whose square root bounds the current.
pub open spec fn spec_power_over_resistance() -> int {
    trunc_div(1000 * q32_one(), 10010)
}

/// `Q32` bits of the power-limited current, in milliamps:
/// `sqrt(max power / circuit resistance) * 1000`, the square root taken by
/// ten Newton steps.
pub open spec fn spec_power_limited_max_current_ma() -> int {
    newton_iterate(spec_power_over_resistance(), spec_power_over_resistance(), 10) * 1000
}

/// The largest current (milliamps, `Q32` bits) the heater test load may draw
/// within its power rating.
pub fn power_limited_max_current_ma() -> (bits: i64)
    ensures
        bits == spec_power_limited_max_current_ma(),
{
    let ratio = q32_unwrapped_div_int(
        q32_const_from_int(HEATER_MAX_POWER_MWATTS as i64),
        CIRCUIT_RESISTANCE_MOHMS as i64,
    );
    assert(ratio == spec_power_over_resistance());
    proof {
        lemma_power_limit_steps();
    }
    let root = fixed_sqrt(ratio);
    q32_unwrapped_mul_int(root, 1000)
}

/// The ten Newton steps from `1000 / 10010` (in `Q32` bits, 429067661)
/// settle on 1357509326 without dividing by zero or overflowing.
proof fn lemma_power_limit_steps()
    ensures
        newton_defined(spec_power_over_resistance(), spec_power_over_resistance(), 10),
        newton_iterate(spec_power_over_resistance(), spec_power_over_resistance(), 10) == 1357509326,
{
    let x = spec_power_over_resistance();
    crate::wrap::lemma_div_ge_bound(1000 * q32_one(), 10010, 429067661);
    crate::wrap::lemma_div_lt_bound(1000 * q32_one(), 10010, 429067661);
    assert(x == 429067661);
    let g: Seq<int> = seq![429067661, 2362017478, 1571105677, 1372028846, 1357586153, 1357509328,
        1357509326, 1357509326, 1357509326, 1357509326, 1357509326];
    lemma_step(x, 429067661, 4294967296, 2362017478);
    lemma_step(x, 2362017478, 780193876, 1571105677);
    lemma_step(x, 1571105677, 1172952016, 1372028846);
    lemma_step(x, 1372028846, 1343143460, 1357586153);
    lemma_step(x, 1357586153, 1357432504, 1357509328);
    lemma_step(x, 1357509328, 1357509325, 1357509326);
    lemma_step(x, 1357509326, 1357509327, 1357509326);
    assert forall|i: int| 0 <= i < 10 implies newton_step(x, #[trigger] g[i]) == g[i + 1] by {}
    lemma_newton_chain(x, g, 10);
}

/// Where `g` lists consecutive Newton steps from `g[0]` whose divisions
/// fit, the iterate after `n` steps is `g[n]` and every step is defined.
proof fn lemma_newton_chain(x: int, g: Seq<int>, n: nat)
    requires
        n < g.len(),
        forall|i: int| 0 <= i < n ==> newton_step(x, #[trigger] g[i]) == g[i + 1],
        forall|i: int| 0 <= i < n ==> 400000000 <= #[trigger] g[i] <= 3000000000,
        x == 429067661,
    ensures
        newton_defined(x, g[0], n),
        newton_iterate(x, g[0], n) == g[n as int],
    decreases n,
{
    if n > 0 {
        let rest = g.drop_first();
        assert forall|i: int| 0 <= i < n - 1 implies newton_step(x, #[trigger] rest[i]) == rest[i + 1] by {
            assert(newton_step(x, g[i + 1]) == g[i + 2]);
        }
        assert forall|i: int| 0 <= i < n - 1 implies 400000000 <= #[trigger] rest[i] <= 3000000000 by {
            assert(400000000 <= g[i + 1] <= 3000000000);
        }
        lemma_newton_chain(x, rest, (n - 1) as nat);
        assert(newton_step(x, g[0]) == g[1]);
        let q = fixed_div_bits(x, g[0], q32_one());
        assert(0 <= q <= 5 * q32_one()) by {
            let g0 = g[0];
            assert(x * q32_one() <= (5 * q32_one()) * g0) by (nonlinear_arith)
                requires
                    x == 429067661,
                    400000000 <= g0,
            ;
            crate::wrap::lemma_div_le_bound(x * q32_one(), g0, 5 * q32_one());
        }
    }
}

/// One Newton step from `g` on `x`, given the quotient `q` of `x / g`.
proof fn lemma_step(x: int, g: int, q: int, next: int)
    requires
        x >= 0,
        g > 0,
        q >= 0,
        q * g <= x * q32_one() < (q + 1) * g,
        2 * next <= g + q < 2 * next + 2,
    ensures
        newton_step(x, g) == next,
{
    crate::wrap::lemma_div_ge_bound(x * q32_one(), g, q);
    crate::wrap::lemma_div_lt_bound(x * q32_one(), g, q);
    assert(x * q32_one() >= 0) by (nonlinear_arith)
        requires
            x >= 0,
    ;
    assert(fixed_div_bits(x, g, q32_one()) == q);
    crate::wrap::lemma_div_ge_bound(g + q, 2, next);
    crate::wrap::lemma_div_lt_bound(g + q, 2, next);
}

/// The power-limited current is 1357509326000 in `Q32` bits: 316 mA once
/// the fraction is dropped.
pub proof fn lemma_power_limited_max_current_value()
    ensures
        spec_power_limited_max_current_ma() == 1357509326000,
        spec_power_limited_max_current_ma() / q32_one() == 316,
{
    lemma_power_limit_steps();
    crate::wrap::lemma_div_ge_bound(1357509326000, q32_one(), 316);
    crate::wrap::lemma_div_lt_bound(1357509326000, q32_one(), 316);
}

} // verus!
