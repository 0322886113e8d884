//! Self-test bookkeeping: accuracy measures, result classification, the
//! set points that performance tests sweep over, and the pass/fail decisions
//! of the functional tests.
//!
//! Accuracies are signed `Q32` fixed-point numbers (32 fractional bits)
//! carried as their raw `i64` bits.
use vstd::prelude::*;
use crate::fixed_point::{
    trunc_div, abs_int, fits_i64, fixed_div_bits, q32_one, q32_from_i32, q32_from_u16, q32_sub, q32_add,
    q32_abs, q32_checked_div, q32_div_int,
};
use crate::fixed_point::{q32_unwrapped_add, q32_unwrapped_div, q32_unwrapped_div_int};
use crate::wrap::{lemma_div_le_bound, lemma_div_ge_bound};

pub mod heater_mock;
pub mod hvdc_mock;
pub mod pinpuller_mock;
pub mod sweeps;

verus! {

/// Relative percent difference of a measurement from the actual value, in
/// `Q32` bits: `(measured - actual) / (|measured| + |actual|)`, and zero when
/// both are zero.
pub open spec fn spec_rpd(measured: int, actual: int) -> int {
    if measured == 0 && actual == 0 {
        0
    } else {
        fixed_div_bits(
            (measured - actual) * q32_one(),
            (abs_int(measured) + abs_int(actual)) * q32_one(),
            q32_one(),
        )
    }
}

/// Relative percent difference (RPD) rather than percent error, which is
/// undefined when the actual value is zero. Outputs are between -1 and 1
/// (in `Q32` bits, `-2^32..=2^32`): near zero they are close to the percent
/// error; 1 means the measurement is infinitely larger than the actual value,
/// -1 infinitely smaller. `|measured| + |actual|` must fit an `i32`, as the
/// fixed-point sum and difference overflow otherwise.
pub fn calculate_rpd(measured: i32, actual: i32) -> (rpd: i64)
    requires
        abs_int(measured as int) + abs_int(actual as int) <= i32::MAX,
    ensures
        rpd == spec_rpd(measured as int, actual as int),
{
    if actual == 0 && measured == 0 {
        return 0;
    }
    let a = q32_from_i32(actual);
    let m = q32_from_i32(measured);
    let diff = q32_sub(m, a);
    let denom = q32_add(q32_abs(m), q32_abs(a));
    proof {
        assert(abs_int(diff as int) <= denom);
        assert(denom > 0);
        lemma_rpd_quotient_bounds(diff as int, denom as int);
    }
    match q32_checked_div(diff, denom) {
        Some(q) => q,
        None => {
            if diff > 0 {
                i64::MAX
            } else {
                i64::MIN
            }
        },
    }
}

/// `|d| <= e` makes `d * 2^32 / e` lie within `[-2^32, 2^32]`.
proof fn lemma_rpd_quotient_bounds(d: int, e: int)
    requires
        e > 0,
        abs_int(d) <= e,
    ensures
        -q32_one() <= trunc_div(d * q32_one(), e) <= q32_one(),
        fits_i64(trunc_div(d * q32_one(), e)),
{
    assert(abs_int(d * q32_one()) == abs_int(d) * q32_one());
    assert(abs_int(d) * q32_one() <= q32_one() * e) by (nonlinear_arith)
        requires
            abs_int(d) <= e,
            abs_int(d) >= 0,
    ;
    lemma_div_le_bound(abs_int(d) * q32_one(), e, q32_one());
}

/// Law: the RPD lies between -1 and 1, is zero for an exact measurement, and
/// changes sign when measurement and actual value are swapped.
pub proof fn rpd_bounded_antisymmetric(measured: int, actual: int)
    ensures
        -q32_one() <= spec_rpd(measured, actual) <= q32_one(),
        spec_rpd(actual, actual) == 0,
        spec_rpd(actual, measured) == -spec_rpd(measured, actual),
{
    if !(measured == 0 && actual == 0) {
        let e = abs_int(measured) + abs_int(actual);
        assert(e > 0);
        let d = measured - actual;
        assert((d * q32_one()) * q32_one() == (d * q32_one()) * q32_one());
        assert(e * q32_one() > 0);
        assert((d * q32_one()) * q32_one() == d * (q32_one() * q32_one())) by (nonlinear_arith);
        assert((e * q32_one()) == e * q32_one());
        lemma_trunc_div_scaled(d, e);
        lemma_rpd_quotient_bounds(d, e);
        lemma_trunc_div_scaled(-d, e);
        assert(trunc_div((-d) * q32_one(), e) == -trunc_div(d * q32_one(), e));
        assert(abs_int(actual) + abs_int(measured) == e);
        assert(actual - measured == -d);
    }
    if actual != 0 {
        assert(fixed_div_bits(0 * q32_one(), (abs_int(actual) + abs_int(actual)) * q32_one(), q32_one()) == 0);
    }
}

/// Scaling both operands by 2^32 does not change the quotient.
proof fn lemma_trunc_div_scaled(d: int, e: int)
    requires
        e > 0,
    ensures
        trunc_div((d * q32_one()) * q32_one(), e * q32_one()) == trunc_div(d * q32_one(), e),
{
    let k = q32_one();
    let x = abs_int(d * k);
    assert(abs_int((d * k) * k) == x * k) by (nonlinear_arith)
        requires
            k > 0,
            x == abs_int(d * k),
    ;
    assert(e * k > 0) by (nonlinear_arith)
        requires
            e > 0,
            k > 0,
    ;
    assert(abs_int(e * k) == e * k);
    vstd::arithmetic::div_mod::lemma_div_by_multiple(x, k);
    vstd::arithmetic::div_mod::lemma_div_denominator(x * k, k, e);
    assert((x * k) / (e * k) == x / e) by {
        assert(k * e == e * k) by (nonlinear_arith);
    }
    assert(((d * k) * k >= 0) == (d * k >= 0)) by (nonlinear_arith)
        requires
            k > 0,
    ;
}

/// New running average after the `n`-th value (counting from zero):
/// `acc + (new - acc) / (n + 1)`.
pub open spec fn spec_in_place_average(acc: int, new: int, n: int) -> int {
    acc + fixed_div_bits(new - acc, (n + 1) * q32_one(), q32_one())
}

/// Iteratively updates an average with a new value. `new - acc` must fit
/// (both are averages of RPDs in practice); the count `n + 1` is formed in a
/// wider integer, so every `n` is accepted.
pub fn in_place_average(acc: i64, new: i64, n: u16) -> (avg: i64)
    requires
        fits_i64(new - acc),
    ensures
        avg == spec_in_place_average(acc as int, new as int, n as int),
{
    let count = crate::fixed_point::q32_const_from_int(n as i64 + 1);
    let diff = q32_sub(new, acc);
    proof {
        lemma_average_step(acc as int, new as int, n as int);
    }
    let step = match q32_checked_div(diff, count) {
        Some(q) => q,
        None => 0,
    };
    q32_add(acc, step)
}

/// The step `(new - acc) / (n + 1)` lies between zero and `new - acc`.
proof fn lemma_average_step(acc: int, new: int, n: int)
    requires
        n >= 0,
    ensures
        0 <= fixed_div_bits(new - acc, (n + 1) * q32_one(), q32_one()) <= new - acc || new - acc
            <= fixed_div_bits(new - acc, (n + 1) * q32_one(), q32_one()) <= 0,
{
    let d = new - acc;
    let k = q32_one();
    let e = (n + 1) * k;
    assert(e >= k) by (nonlinear_arith)
        requires
            n >= 0,
            k > 0,
            e == (n + 1) * k,
    ;
    assert(abs_int(d * k) == abs_int(d) * k);
    assert(abs_int(d) * k <= abs_int(d) * e) by (nonlinear_arith)
        requires
            abs_int(d) >= 0,
            e >= k,
    ;
    lemma_div_le_bound(abs_int(d) * k, e, abs_int(d));
}

/// Law: each averaging step moves the average toward the new value without
/// passing it, so an average of values within a range stays within it.
pub proof fn in_place_average_between(acc: int, new: int, n: int)
    requires
        n >= 0,
    ensures
        acc <= new ==> acc <= spec_in_place_average(acc, new, n) <= new,
        new <= acc ==> new <= spec_in_place_average(acc, new, n) <= acc,
{
    lemma_average_step(acc, new, n);
}

/// One Newton step towards the square root of `x` (all in `Q32` bits):
/// `(g + x / g) / 2`.
pub open spec fn newton_step(x: int, g: int) -> int {
    trunc_div(g + fixed_div_bits(x, g, q32_one()), 2)
}

/// The guess after `n` Newton steps from `g`.
pub open spec fn newton_iterate(x: int, g: int, n: nat) -> int
    decreases n,
{
    if n == 0 {
        g
    } else {
        newton_iterate(x, newton_step(x, g), (n - 1) as nat)
    }
}

/// Whether `n` Newton steps from `g` stay clear of a zero guess and of
/// overflow, which would make the fixed-point operations panic.
pub open spec fn newton_defined(x: int, g: int, n: nat) -> bool
    decreases n,
{
    n == 0 || (g != 0 && fits_i64(fixed_div_bits(x, g, q32_one())) && fits_i64(
        g + fixed_div_bits(x, g, q32_one()),
    ) && newton_defined(x, newton_step(x, g), (n - 1) as nat))
}

/// Square root approximation (`Q32` bits) by ten Newton steps starting from
/// `x` itself; zero for zero. Negative values are refused, as are values for
/// which a step would divide by zero or overflow.
pub fn fixed_sqrt(x: i64) -> (r: i64)
    requires
        x >= 0,
        x == 0 || newton_defined(x as int, x as int, 10),
    ensures
        r == (if x == 0 { 0 } else { newton_iterate(x as int, x as int, 10) }),
{
    if x == 0 {
        return 0;
    }
    let mut guess: i64 = x;
    let mut iterations: i32 = 10;
    while iterations > 0
        invariant
            0 <= iterations <= 10,
            x > 0,
            newton_defined(x as int, guess as int, iterations as nat),
            newton_iterate(x as int, guess as int, iterations as nat) == newton_iterate(x as int, x as int, 10),
        decreases iterations,
    {
        let quotient = q32_unwrapped_div(x, guess);
        let sum = q32_unwrapped_add(guess, quotient);
        guess = q32_unwrapped_div_int(sum, 2);
        iterations -= 1;
    }
    guess
}

/// Running average of the accuracies (RPDs, `Q32` bits) measured over a test
/// sweep. Every RPD lies within `[-1, 1]`, and so does their average.
pub struct AccuracyAverage {
    count: u16,
    accuracy: i64,
}

impl AccuracyAverage {
    /// Number of values averaged so far.
    pub closed spec fn spec_count(&self) -> int {
        self.count as int
    }

    /// The average so far (`Q32` bits).
    pub closed spec fn spec_accuracy(&self) -> int {
        self.accuracy as int
    }

    /// The average stays within `[-1, 1]`.
    pub open spec fn wf(&self) -> bool {
        -q32_one() <= self.spec_accuracy() <= q32_one()
    }

    /// An average of nothing, zero.
    pub fn new() -> (a: AccuracyAverage)
        ensures
            a.wf(),
            a.spec_count() == 0,
            a.spec_accuracy() == 0,
    {
        AccuracyAverage { count: 0, accuracy: 0 }
    }

    /// Number of values averaged so far.
    pub fn count(&self) -> (n: u16)
        ensures
            n == self.spec_count(),
    {
        self.count
    }

    /// The average so far.
    pub fn accuracy(&self) -> (acc: i64)
        ensures
            acc == self.spec_accuracy(),
    {
        self.accuracy
    }

    /// Takes one more RPD into the average.
    pub fn add_rpd(&mut self, rpd: i64)
        requires
            old(self).wf(),
            -q32_one() <= rpd <= q32_one(),
            old(self).spec_count() < u16::MAX - 1,
        ensures
            final(self).wf(),
            final(self).spec_count() == old(self).spec_count() + 1,
            final(self).spec_accuracy() == spec_in_place_average(
                old(self).spec_accuracy(),
                rpd as int,
                old(self).spec_count(),
            ),
    {
        proof {
            in_place_average_between(self.accuracy as int, rpd as int, self.count as int);
        }
        self.accuracy = in_place_average(self.accuracy, rpd, self.count);
        self.count = self.count + 1;
    }

    /// Takes the RPD of a measurement against its expected value into the
    /// average. `|measured| + |expected|` must fit an `i32`.
    pub fn add_measurement(&mut self, measured: i32, expected: i32)
        requires
            old(self).wf(),
            abs_int(measured as int) + abs_int(expected as int) <= i32::MAX,
            old(self).spec_count() < u16::MAX - 1,
        ensures
            final(self).wf(),
            final(self).spec_count() == old(self).spec_count() + 1,
            final(self).spec_accuracy() == spec_in_place_average(
                old(self).spec_accuracy(),
                spec_rpd(measured as int, expected as int),
                old(self).spec_count(),
            ),
    {
        proof {
            rpd_bounded_antisymmetric(measured as int, expected as int);
        }
        let rpd = calculate_rpd(measured, expected);
        self.add_rpd(rpd);
    }
}

/// The `i`-th percentage of `(start..=end).step_by(step)`, or `None` once the
/// sweep is past `end`.
pub open spec fn spec_sweep_percent(start: int, step: int, end: int, i: int) -> Option<int> {
    if start + step * i <= end {
        Some(start + step * i)
    } else {
        None
    }
}

/// The `i`-th output percentage of a test sweep from `start` to `end` in
/// steps of `step`; `None` once the sweep is over.
pub fn sweep_percent(start: u32, step: u32, end: u32, i: u32) -> (p: Option<u32>)
    requires
        step > 0,
        end < u32::MAX,
    ensures
        p is Some <==> spec_sweep_percent(start as int, step as int, end as int, i as int) is Some,
        p matches Some(x) ==> spec_sweep_percent(start as int, step as int, end as int, i as int) == Some(
            x as int,
        ),
{
    assert(step * i <= 0xFFFF_FFFE_0000_0001) by (nonlinear_arith)
        requires
            step <= u32::MAX,
            i <= u32::MAX,
    ;
    let span: u64 = step as u64 * i as u64;
    if start as u64 + span <= end as u64 {
        Some((start as u64 + span) as u32)
    } else {
        None
    }
}

/// Law: a sweep's percentages rise by `step` from `start`, stay within
/// `[start, end]`, and the sweep yields `(end - start) / step + 1` of them.
pub proof fn sweep_percent_range(start: int, step: int, end: int, i: int)
    requires
        step > 0,
        0 <= start <= end,
        i >= 0,
    ensures
        spec_sweep_percent(start, step, end, i) matches Some(p) ==> start <= p <= end && p == start + step * i,
        spec_sweep_percent(start, step, end, i) is Some <==> i <= (end - start) / step,
{
    assert(step * i >= 0) by (nonlinear_arith)
        requires
            step > 0,
            i >= 0,
    ;
    vstd::arithmetic::div_mod::lemma_mod_pos_bound(end - start, step);
    vstd::arithmetic::div_mod::lemma_fundamental_div_mod(end - start, step);
    let q = (end - start) / step;
    let r = (end - start) % step;
    assert(end - start == step * q + r);
    if i <= q {
        assert(step * i <= step * q) by (nonlinear_arith)
            requires
                step > 0,
                i <= q,
        ;
    } else {
        assert(step * i >= step * q + step) by (nonlinear_arith)
            requires
                step > 0,
                i >= q + 1,
        ;
    }
}

/// First output percentage of the automated high-voltage sweeps, which step
/// by 10 up to 100 between the supply's minimum and maximum.
pub const HVDC_TEST_START_PERCENT: u32 = 10;

/// Last percentage of the high-voltage sweeps.
pub const HVDC_TEST_END_PERCENT: u32 = 100;

/// Heater set point of the automated heater sweep at `percent`: from the
/// heater minimum (1.4 V) to 2 V.
pub fn heater_test_setpoint(percent: u32) -> (mv: u16)
    requires
        percent <= 100,
    ensures
        mv == spec_sweep_setpoint(percent as int, 1400, 2000),
{
    let min: u32 = crate::pcb_mapping::power_supply_limits::HEATER_MIN_VOLTAGE_MILLIVOLTS as u32;
    proof {
        sweep_setpoint_between(percent as int, 1400, 2000);
    }
    assert((100 - percent) * 1400 + percent * 2000 <= 200000) by (nonlinear_arith)
        requires
            percent <= 100,
    ;
    sweep_setpoint(percent, min, 2000) as u16
}

/// Heater set point of the manual heater sweeps at `percent`: across the
/// heater's whole range (1.4 V to 12 V).
pub fn heater_full_range_setpoint(percent: u32) -> (mv: u16)
    requires
        percent <= 100,
    ensures
        mv == spec_sweep_setpoint(percent as int, 1400, 12000),
{
    let min: u32 = crate::pcb_mapping::power_supply_limits::HEATER_MIN_VOLTAGE_MILLIVOLTS as u32;
    let max: u32 = crate::pcb_mapping::power_supply_limits::HEATER_MAX_VOLTAGE_MILLIVOLTS as u32;
    proof {
        sweep_setpoint_between(percent as int, 1400, 12000);
    }
    assert((100 - percent) * 1400 + percent * 12000 <= 1200000) by (nonlinear_arith)
        requires
            percent <= 100,
    ;
    sweep_setpoint(percent, min, max) as u16
}

/// DAC output voltage of the DAC sweep at `percent`: that share of the DAC's
/// 5 V supply, `percent * 5000 / 100`.
pub fn dac_test_setpoint(percent: u32) -> (mv: u16)
    requires
        percent <= 100,
    ensures
        mv == (percent * 5000) / 100,
{
    let vcc: u32 = crate::pcb_mapping::peripheral_vcc_values::DAC_VCC_VOLTAGE_MILLIVOLTS as u32;
    ((percent * vcc) / 100) as u16
}

/// Expected heater current (milliamps) at `voltage_mv` through
/// `resistance_mohms`, limited to what the load may draw within its power
/// rating (316 mA).
pub open spec fn spec_heater_expected_current(voltage_mv: int, resistance_mohms: int) -> int {
    let ohmic = (voltage_mv * 1000) / resistance_mohms;
    let limit = heater_mock::spec_power_limited_max_current_ma() / q32_one();
    if ohmic <= limit {
        ohmic
    } else {
        limit
    }
}

/// Expected heater current (milliamps) at `voltage_mv` through the mock
/// load of `resistance_mohms`, limited by its power rating.
pub fn heater_expected_current_ma(voltage_mv: u16, resistance_mohms: u16) -> (ma: i16)
    requires
        resistance_mohms > 0,
    ensures
        ma == spec_heater_expected_current(voltage_mv as int, resistance_mohms as int),
{
    let ohmic: u32 = (voltage_mv as u32 * 1000) / resistance_mohms as u32;
    let limit_bits = heater_mock::power_limited_max_current_ma();
    proof {
        heater_mock::lemma_power_limited_max_current_value();
    }
    let limit: u32 = crate::fixed_point::q32_to_u32(limit_bits);
    let ma: u32 = if ohmic <= limit {
        ohmic
    } else {
        limit
    };
    ma as i16
}

/// Expected current (milliamps) of the manual pinpuller test at
/// `set_voltage_mv`, through its 1.966 ohm loop, cast to `i16`.
pub fn pinpuller_test_expected_current_ma(set_voltage_mv: i32) -> (ma: i16)
    requires
        0 <= set_voltage_mv <= 3300,
    ensures
        ma == (set_voltage_mv * 1000) / 1966,
{
    let rp_sense: i32 = 82;
    let r122: i32 = 400;
    let probe_resistance: i32 = 10;
    let wirewound_res: i32 = 1200;
    let mosfets: i32 = 27 * 2;
    let wire_resistance: i32 = 100 + 130;
    let total_resistance = rp_sense + r122 + wirewound_res + mosfets + wire_resistance;
    assert(total_resistance == 1966);
    ((set_voltage_mv * 1000) / total_resistance) as i16
}

/// An accuracy as printed, in thousandths: `rpd * 1000` with the fraction
/// dropped (rounding toward minus infinity).
pub fn milli_rpd(rpd: i64) -> (milli: i32)
    requires
        -q32_one() <= rpd <= q32_one(),
    ensures
        milli == (rpd * 1000) / q32_one(),
{
    let scaled = crate::fixed_point::q32_mul_int(rpd, 1000);
    proof {
        lemma_milli_bounds(rpd as int);
    }
    crate::fixed_point::q32_to_i32(scaled)
}

/// `rpd * 1000 / 2^32` lies within `[-1000, 1000]` for an RPD in `[-1, 1]`.
proof fn lemma_milli_bounds(rpd: int)
    requires
        -q32_one() <= rpd <= q32_one(),
    ensures
        -1000 <= (rpd * 1000) / q32_one() <= 1000,
{
    crate::wrap::lemma_div_ge_bound(rpd * 1000, q32_one(), -1000);
    vstd::arithmetic::div_mod::lemma_fundamental_div_mod(rpd * 1000, q32_one());
    vstd::arithmetic::div_mod::lemma_mod_bound(rpd * 1000, q32_one());
    let q = (rpd * 1000) / q32_one();
    assert(q32_one() * q <= 1000 * q32_one());
    assert(q <= 1000) by (nonlinear_arith)
        requires
            q32_one() * q <= 1000 * q32_one(),
            q32_one() > 0,
    ;
}

/// Broad result of an accuracy test.
#[derive(Clone, Copy, Debug, PartialEq, Eq, Structural)]
pub enum Performance {
    Nominal,
    Inaccurate,
    NotWorking,
}

/// Accuracy test result: a name, a broad performance category, and the
/// accuracy (RPD, in `Q32` bits).
#[derive(Clone, Copy, Debug, PartialEq, Eq)]
pub struct PerformanceResult<'a> {
    pub name: &'a str,
    pub performance: Performance,
    pub accuracy: i64,
}

impl<'a> PerformanceResult<'a> {
    /// An empty result that counts as not working.
    pub fn default() -> (r: PerformanceResult<'a>)
        ensures
            r.name@ == ""@,
            r.performance == Performance::NotWorking,
            r.accuracy == 0,
    {
        PerformanceResult { name: "", performance: Performance::NotWorking, accuracy: 0 }
    }
}

/// Functional (pass/fail) test result.
#[derive(Clone, Copy, Debug, PartialEq, Eq)]
pub struct SensorResult<'a> {
    pub name: &'a str,
    pub result: bool,
}

/// One of the four redundant pinpuller lines.
#[derive(Clone, Copy, Debug, PartialEq, Eq, Structural)]
pub enum PinpullerLine {
    BurnWire1,
    BurnWire1Backup,
    BurnWire2,
    BurnWire2Backup,
}

/// The pinpuller line a test index selects: 0 to 2 in order, anything else
/// the second backup.
pub open spec fn spec_pin_select(n: int) -> PinpullerLine {
    if n == 0 {
        PinpullerLine::BurnWire1
    } else if n == 1 {
        PinpullerLine::BurnWire1Backup
    } else if n == 2 {
        PinpullerLine::BurnWire2
    } else {
        PinpullerLine::BurnWire2Backup
    }
}

/// Selects one of the four pinpuller lines by index, with its name.
pub fn pin_select(n: usize) -> (r: (PinpullerLine, &'static str))
    ensures
        r.0 == spec_pin_select(n as int),
        n == 0 ==> r.1@ == "Burn Wire 1"@,
        n == 1 ==> r.1@ == "Burn Wire 1 backup"@,
        n == 2 ==> r.1@ == "Burn Wire 2"@,
        n >= 3 ==> r.1@ == "Burn Wire 2 backup"@,
{
    match n {
        0 => (PinpullerLine::BurnWire1, "Burn Wire 1"),
        1 => (PinpullerLine::BurnWire1Backup, "Burn Wire 1 backup"),
        2 => (PinpullerLine::BurnWire2, "Burn Wire 2"),
        _ => (PinpullerLine::BurnWire2Backup, "Burn Wire 2 backup"),
    }
}

/// Name of a temperature sensor, by its index on the temperature ADC.
pub fn temperature_sensor_name(index: u8) -> (name: &'static str)
    requires
        index < 8,
    ensures
        index == 0 ==> name@ == "LMS Emitter"@,
        index == 1 ==> name@ == "LMS Receiver"@,
        index == 2 ==> name@ == "MSP430"@,
        index == 3 ==> name@ == "Heater supply"@,
        index == 4 ==> name@ == "HVDC Supplies"@,
        index == 5 ==> name@ == "Tether monitoring"@,
        index == 6 ==> name@ == "Tether connector"@,
        index == 7 ==> name@ == "MSP 3V3 supply"@,
{
    match index {
        0 => "LMS Emitter",
        1 => "LMS Receiver",
        2 => "MSP430",
        3 => "Heater supply",
        4 => "HVDC Supplies",
        5 => "Tether monitoring",
        6 => "Tether connector",
        _ => "MSP 3V3 supply",
    }
}

/// Accuracy of one temperature sensor against the room temperature, both in
/// kelvin, nominal within 5% and inaccurate within 20%.
pub fn temperature_result<'a>(name: &'a str, measured_kelvin: u16, room_temp_kelvin: u16) -> (r: PerformanceResult<'a>)
    ensures
        r.name == name,
        r.accuracy == spec_rpd(measured_kelvin as int, room_temp_kelvin as int),
        r.performance == spec_performance(r.accuracy as int, 5, 20),
{
    let accuracy = calculate_rpd(measured_kelvin as i32, room_temp_kelvin as i32);
    proof {
        rpd_bounded_antisymmetric(measured_kelvin as int, room_temp_kelvin as int);
    }
    calculate_performance_result(name, accuracy, 5, 20)
}

/// Result of a two-point test: the mean of the two accuracies (their sum
/// halved, rounding toward zero), classified again.
pub fn two_point_result<'a>(first: &PerformanceResult<'a>, second: &PerformanceResult<'a>) -> (r: PerformanceResult<'a>)
    requires
        -q32_one() <= first.accuracy <= q32_one(),
        -q32_one() <= second.accuracy <= q32_one(),
    ensures
        r.name == first.name,
        r.accuracy == trunc_div(first.accuracy + second.accuracy, 2),
        r.performance == spec_performance(r.accuracy as int, 5, 20),
{
    let accuracy = q32_div_int(q32_add(first.accuracy, second.accuracy), 2);
    calculate_performance_result(first.name, accuracy, 5, 20)
}

/// Accuracy of a current reading against the pinpuller's expected on-current
/// (`Q32` bits of milliamps, its fraction dropped).
pub fn pinpuller_current_result<'a>(name: &'a str, measured_ma: i32, expected_on_current: i64) -> (r: PerformanceResult<
    'a,
>)
    requires
        0 <= (expected_on_current as int) / q32_one() <= 1000000,
        -1000000 <= measured_ma <= 1000000,
    ensures
        r.name == name,
        r.accuracy == spec_rpd(measured_ma as int, (expected_on_current as int) / q32_one()),
        r.performance == spec_performance(r.accuracy as int, 5, 20),
{
    let expected = crate::fixed_point::q32_to_i32(expected_on_current);
    let accuracy = calculate_rpd(measured_ma, expected);
    proof {
        rpd_bounded_antisymmetric(measured_ma as int, expected as int);
    }
    calculate_performance_result(name, accuracy, 5, 20)
}

/// `percent / 100` in `Q32` bits, as the percentage divided by the integer 100.
pub open spec fn spec_percent_threshold(percent: int) -> int {
    trunc_div(percent * q32_one(), 100)
}

/// Category of an accuracy: nominal below `succ_percent`% RPD, inaccurate
/// below `inacc_percent`%, otherwise not working.
pub open spec fn spec_performance(rpd: int, succ_percent: int, inacc_percent: int) -> Performance {
    if abs_int(rpd) < spec_percent_threshold(succ_percent) {
        Performance::Nominal
    } else if abs_int(rpd) < spec_percent_threshold(inacc_percent) {
        Performance::Inaccurate
    } else {
        Performance::NotWorking
    }
}

/// Classifies an accuracy. `rpd` must not be the minimum `Q32` value, whose
/// absolute value overflows.
pub fn calculate_performance_result<'a>(name: &'a str, rpd: i64, succ_percent: u8, inacc_percent: u8) -> (r:
    PerformanceResult<'a>)
    requires
        rpd != i64::MIN,
    ensures
        r.name == name,
        r.accuracy == rpd,
        r.performance == spec_performance(rpd as int, succ_percent as int, inacc_percent as int),
        abs_int(rpd as int) < succ_percent * q32_one() / 100 ==> r.performance == Performance::Nominal,
        succ_percent * q32_one() / 100 <= abs_int(rpd as int) < inacc_percent * q32_one() / 100 ==> r.performance
            == Performance::Inaccurate,
        abs_int(rpd as int) >= succ_percent * q32_one() / 100 && abs_int(rpd as int) >= inacc_percent * q32_one()
            / 100 ==> r.performance == Performance::NotWorking,
{
    proof {
        performance_thresholds(rpd as int, succ_percent as int, inacc_percent as int);
    }
    let x = q32_abs(rpd);
    let succ = q32_div_int(q32_from_u16(succ_percent as u16), 100);
    let inacc = q32_div_int(q32_from_u16(inacc_percent as u16), 100);
    let performance = if x < succ {
        Performance::Nominal
    } else if x < inacc {
        Performance::Inaccurate
    } else {
        Performance::NotWorking
    };
    PerformanceResult { name, performance, accuracy: rpd }
}

/// Law: an accuracy whose magnitude is below `succ_percent`% (in `Q32` bits,
/// `succ_percent * 2^32 / 100`) is nominal; one at least that but below
/// `inacc_percent`% is inaccurate; one at least both is not working.
pub proof fn performance_thresholds(rpd: int, succ_percent: int, inacc_percent: int)
    requires
        succ_percent >= 0,
        inacc_percent >= 0,
    ensures
        abs_int(rpd) < succ_percent * q32_one() / 100 ==> spec_performance(rpd, succ_percent, inacc_percent)
            == Performance::Nominal,
        succ_percent * q32_one() / 100 <= abs_int(rpd) < inacc_percent * q32_one() / 100 ==> spec_performance(
            rpd,
            succ_percent,
            inacc_percent,
        ) == Performance::Inaccurate,
        abs_int(rpd) >= succ_percent * q32_one() / 100 && abs_int(rpd) >= inacc_percent * q32_one() / 100
            ==> spec_performance(rpd, succ_percent, inacc_percent) == Performance::NotWorking,
{
    assert(succ_percent * q32_one() >= 0) by (nonlinear_arith)
        requires
            succ_percent >= 0,
    ;
    assert(inacc_percent * q32_one() >= 0) by (nonlinear_arith)
        requires
            inacc_percent >= 0,
    ;
    assert(spec_percent_threshold(succ_percent) == succ_percent * q32_one() / 100);
    assert(spec_percent_threshold(inacc_percent) == inacc_percent * q32_one() / 100);
}

/// Rank of a category: nominal, inaccurate, not working.
pub open spec fn performance_rank(p: Performance) -> int {
    match p {
        Performance::Nominal => 0,
        Performance::Inaccurate => 1,
        Performance::NotWorking => 2,
    }
}

/// Law: with ordered thresholds, a less accurate result is never ranked
/// better than a more accurate one.
pub proof fn performance_monotone(rpd1: int, rpd2: int, succ_percent: int, inacc_percent: int)
    requires
        abs_int(rpd1) <= abs_int(rpd2),
        0 <= succ_percent <= inacc_percent,
    ensures
        performance_rank(spec_performance(rpd1, succ_percent, inacc_percent)) <= performance_rank(
            spec_performance(rpd2, succ_percent, inacc_percent),
        ),
{
    vstd::arithmetic::div_mod::lemma_div_is_ordered(succ_percent * q32_one(), inacc_percent * q32_one(), 100);
}

/// The set point `percent`% of the way from `supply_min` to `supply_max`:
/// `((100 - percent) * min + percent * max) / 100`.
pub open spec fn spec_sweep_setpoint(percent: int, supply_min: int, supply_max: int) -> int {
    ((100 - percent) * supply_min + percent * supply_max) / 100
}

/// Set point of a supply sweep. The weighted sum must fit a `u32`.
pub fn sweep_setpoint(percent: u32, supply_min: u32, supply_max: u32) -> (mv: u32)
    requires
        percent <= 100,
        (100 - percent) * supply_min + percent * supply_max <= u32::MAX,
    ensures
        mv == spec_sweep_setpoint(percent as int, supply_min as int, supply_max as int),
{
    assert(0 <= (100 - percent) * supply_min) by (nonlinear_arith)
        requires
            percent <= 100,
    ;
    assert(0 <= percent * supply_max) by (nonlinear_arith);
    ((100 - percent) * supply_min + percent * supply_max) / 100
}

/// Law: every set point of a sweep lies between the supply's two ends (in
/// whichever order they are given), and the sweep starts and ends at them.
pub proof fn sweep_setpoint_between(percent: int, supply_min: int, supply_max: int)
    requires
        0 <= percent <= 100,
        0 <= supply_min,
        0 <= supply_max,
    ensures
        supply_min <= supply_max ==> supply_min <= spec_sweep_setpoint(percent, supply_min, supply_max) <= supply_max,
        supply_max <= supply_min ==> supply_max <= spec_sweep_setpoint(percent, supply_min, supply_max) <= supply_min,
        spec_sweep_setpoint(0, supply_min, supply_max) == supply_min,
        spec_sweep_setpoint(100, supply_min, supply_max) == supply_max,
{
    let w = (100 - percent) * supply_min + percent * supply_max;
    if supply_min <= supply_max {
        assert(100 * supply_min <= w <= 100 * supply_max) by (nonlinear_arith)
            requires
                0 <= percent <= 100,
                supply_min <= supply_max,
                w == (100 - percent) * supply_min + percent * supply_max,
        ;
        lemma_div_le_bound(w, 100, supply_max);
        lemma_div_ge_bound(w, 100, supply_min);
    } else {
        assert(100 * supply_max <= w <= 100 * supply_min) by (nonlinear_arith)
            requires
                0 <= percent <= 100,
                supply_max <= supply_min,
                w == (100 - percent) * supply_min + percent * supply_max,
        ;
        lemma_div_le_bound(w, 100, supply_min);
        lemma_div_ge_bound(w, 100, supply_max);
    }
}

/// Current (microamps) expected through a test resistance plus the 1 ohm
/// sense resistor at `set_voltage_mv`, cast to `i32` as the test reports it.
pub fn expected_current_microamps(set_voltage_mv: u32, test_resistance: u32) -> (ua: i32)
    requires
        1000 * set_voltage_mv <= u32::MAX,
        test_resistance < u32::MAX,
    ensures
        ua == (((1000 * set_voltage_mv) as u32) / ((test_resistance + 1) as u32)) as i32,
{
    let sense_resistance: u32 = 1;
    let x: u32 = (1000 * set_voltage_mv) / (test_resistance + sense_resistance);
    x as i32
}

/// One step of the length-measurement functional test.
#[derive(Clone, Copy, Debug, PartialEq, Eq, Structural)]
pub enum LmsTestStep {
    /// Drive the LED enable line.
    LedEnable(bool),
    /// Drive the receiver enable line.
    ReceiverEnable(bool),
    /// Wait about this many CPU cycles.
    Wait(u32),
    /// Read the three receivers' counts: the ambient counts.
    ReadAmbient,
    /// Read the three receivers' counts: the counts with the LEDs on.
    ReadLit,
}

/// The length-measurement test: receivers on with the LEDs off, settle, read
/// ambient; LEDs on, settle, read; then receivers and LEDs off.
pub open spec fn spec_lms_test_steps() -> Seq<LmsTestStep> {
    seq![
        LmsTestStep::LedEnable(false),
        LmsTestStep::ReceiverEnable(true),
        LmsTestStep::Wait(100_000),
        LmsTestStep::ReadAmbient,
        LmsTestStep::LedEnable(true),
        LmsTestStep::Wait(100_000),
        LmsTestStep::ReadLit,
        LmsTestStep::ReceiverEnable(false),
        LmsTestStep::LedEnable(false),
    ]
}

/// One step of the heater functional test.
#[derive(Clone, Copy, Debug, PartialEq, Eq, Structural)]
pub enum HeaterTestStep {
    /// Set the heater supply to a voltage (millivolts).
    SetVoltage(u16),
    /// Wait about this many CPU cycles.
    Wait(u32),
    /// Read the heater voltage: the reading at the minimum.
    ReadMin,
    /// Read the heater voltage: the reading at the maximum.
    ReadMax,
}

/// The heater test: minimum, settle, read; maximum, settle, read; back to the
/// minimum and settle.
pub open spec fn spec_heater_test_steps() -> Seq<HeaterTestStep> {
    seq![
        HeaterTestStep::SetVoltage(1400),
        HeaterTestStep::Wait(100_000),
        HeaterTestStep::ReadMin,
        HeaterTestStep::SetVoltage(12000),
        HeaterTestStep::Wait(100_000),
        HeaterTestStep::ReadMax,
        HeaterTestStep::SetVoltage(1400),
        HeaterTestStep::Wait(1_000_000),
    ]
}

/// Functional tests that run without user intervention.
pub struct AutomatedFunctionalTests {}

impl AutomatedFunctionalTests {
    /// The steps of the length-measurement test, in order.
    pub fn lms_test_steps() -> (steps: Vec<LmsTestStep>)
        ensures
            steps@ == spec_lms_test_steps(),
    {
        let steps = vec![
            LmsTestStep::LedEnable(false),
            LmsTestStep::ReceiverEnable(true),
            LmsTestStep::Wait(100_000),
            LmsTestStep::ReadAmbient,
            LmsTestStep::LedEnable(true),
            LmsTestStep::Wait(100_000),
            LmsTestStep::ReadLit,
            LmsTestStep::ReceiverEnable(false),
            LmsTestStep::LedEnable(false),
        ];
        assert(steps@ =~= spec_lms_test_steps());
        steps
    }

    /// The steps of the heater test, in order.
    pub fn heater_test_steps() -> (steps: Vec<HeaterTestStep>)
        ensures
            steps@ == spec_heater_test_steps(),
    {
        let min = crate::pcb_mapping::power_supply_limits::HEATER_MIN_VOLTAGE_MILLIVOLTS;
        let max = crate::pcb_mapping::power_supply_limits::HEATER_MAX_VOLTAGE_MILLIVOLTS;
        let steps = vec![
            HeaterTestStep::SetVoltage(min),
            HeaterTestStep::Wait(100_000),
            HeaterTestStep::ReadMin,
            HeaterTestStep::SetVoltage(max),
            HeaterTestStep::Wait(100_000),
            HeaterTestStep::ReadMax,
            HeaterTestStep::SetVoltage(min),
            HeaterTestStep::Wait(1_000_000),
        ];
        assert(steps@ =~= spec_heater_test_steps());
        steps
    }

    /// Packet that asks an ADC for `channel` during an ADC functional test.
    pub fn adc_test_packet(channel: crate::adc::ADCChannel) -> (packet: u32)
        ensures
            packet == crate::adc::spec_channel_packet(channel),
    {
        channel.index() << 27u32
    }

    /// An ADC answered a functional-test transfer validly when the leading
    /// four bits of each of its two 16-bit readings are zero.
    pub fn adc_reply_valid(result: u32) -> (ok: bool)
        ensures
            ok == (result & 0xF000_F000 == 0),
    {
        let zeroes = result & 0xF000_F000;
        zeroes == 0
    }

    /// Result of an ADC functional test from the ADC's answer to the
    /// functional-test transfer.
    fn adc_functional_result(name: &'static str, reply: u32) -> (r: SensorResult<'static>)
        ensures
            r.name == name,
            r.result == (reply & 0xF000_F000 == 0),
    {
        SensorResult { name, result: Self::adc_reply_valid(reply) }
    }

    /// Tether ADC functional test, from its answer when asked for channel 7.
    pub fn tether_adc_functional_test(reply: u32) -> (r: SensorResult<'static>)
        ensures
            r.name@ == "Tether ADC"@,
            r.result == (reply & 0xF000_F000 == 0),
    {
        Self::adc_functional_result("Tether ADC", reply)
    }

    /// Temperature ADC functional test, from its answer when asked for
    /// channel 7.
    pub fn temperature_adc_functional_test(reply: u32) -> (r: SensorResult<'static>)
        ensures
            r.name@ == "Temperature ADC"@,
            r.result == (reply & 0xF000_F000 == 0),
    {
        Self::adc_functional_result("Temperature ADC", reply)
    }

    /// Miscellaneous ADC functional test, from its answer when asked for
    /// channel 7.
    pub fn misc_adc_functional_test(reply: u32) -> (r: SensorResult<'static>)
        ensures
            r.name@ == "Misc ADC"@,
            r.result == (reply & 0xF000_F000 == 0),
    {
        Self::adc_functional_result("Misc ADC", reply)
    }

    /// Aperture ADC functional test, from its answer when asked for channel 7
    /// (its chip select, which also powers it, is lowered 5 ms before).
    pub fn aperture_adc_functional_test(reply: u32) -> (r: SensorResult<'static>)
        ensures
            r.name@ == "Aperture ADC"@,
            r.result == (reply & 0xF000_F000 == 0),
    {
        Self::adc_functional_result("Aperture ADC", reply)
    }

    /// Results of the four pinpuller lines from the current each drew: a line
    /// passes above 1 A.
    pub fn pinpuller_functional_test(currents_ma: [u16; 4]) -> (r: [SensorResult<'static>; 4])
        ensures
            forall|i: int| 0 <= i < 4 ==> #[trigger] r[i].result == (currents_ma[i] > 1000),
            r[0].name@ == "Pinpuller channel 1"@,
            r[1].name@ == "Pinpuller channel 1 backup"@,
            r[2].name@ == "Pinpuller channel 2"@,
            r[3].name@ == "Pinpuller channel 2 backup"@,
    {
        [
            SensorResult { name: "Pinpuller channel 1", result: Self::pinpuller_line_ok(currents_ma[0]) },
            SensorResult { name: "Pinpuller channel 1 backup", result: Self::pinpuller_line_ok(currents_ma[1]) },
            SensorResult { name: "Pinpuller channel 2", result: Self::pinpuller_line_ok(currents_ma[2]) },
            SensorResult { name: "Pinpuller channel 2 backup", result: Self::pinpuller_line_ok(currents_ma[3]) },
        ]
    }

    /// Results of the three length-measurement channels from their counts with
    /// the LEDs on and ambient.
    pub fn lms_functional_test(on_counts: [u16; 3], ambient_counts: [u16; 3]) -> (r: [SensorResult<'static>; 3])
        requires
            forall|i: int| 0 <= i < 3 ==> #[trigger] ambient_counts[i] <= 32767,
        ensures
            forall|i: int| 0 <= i < 3 ==> #[trigger] r[i].result == (on_counts[i] > 2 * ambient_counts[i]),
            r[0].name@ == "Length measurement system 1"@,
            r[1].name@ == "Length measurement system 2"@,
            r[2].name@ == "Length measurement system 3"@,
            // The ambient counts are read with the receivers on and the LEDs
            // off, the others with both on; both are off at the end.
            spec_lms_test_steps().len() == 9,
            spec_lms_test_steps()[0] == LmsTestStep::LedEnable(false),
            spec_lms_test_steps()[1] == LmsTestStep::ReceiverEnable(true),
            spec_lms_test_steps()[3] == LmsTestStep::ReadAmbient,
            spec_lms_test_steps()[4] == LmsTestStep::LedEnable(true),
            spec_lms_test_steps()[6] == LmsTestStep::ReadLit,
            spec_lms_test_steps()[7] == LmsTestStep::ReceiverEnable(false),
            spec_lms_test_steps()[8] == LmsTestStep::LedEnable(false),
    {
        let a0 = ambient_counts[0];
        let a1 = ambient_counts[1];
        let a2 = ambient_counts[2];
        assert(a0 <= 32767 && a1 <= 32767 && a2 <= 32767);
        [
            SensorResult { name: "Length measurement system 1", result: Self::lms_channel_ok(on_counts[0], a0) },
            SensorResult { name: "Length measurement system 2", result: Self::lms_channel_ok(on_counts[1], a1) },
            SensorResult { name: "Length measurement system 3", result: Self::lms_channel_ok(on_counts[2], a2) },
        ]
    }

    /// A pinpuller line passes when its current exceeds 1 A.
    pub fn pinpuller_line_ok(current_milliamps: u16) -> (ok: bool)
        ensures
            ok == (current_milliamps > 1000),
    {
        current_milliamps > 1000
    }

    /// The heater passes when each reading is within 10% of the voltage it
    /// was set to: the minimum (1400 mV) and the maximum (12000 mV).
    pub fn heater_functional_test(min_voltage_mv: u16, max_voltage_mv: u16) -> (r: SensorResult<'static>)
        ensures
            r.result == (abs_int(min_voltage_mv - 1400) * 10 < 1400 && abs_int(max_voltage_mv - 12000) * 10 < 12000),
            r.name@ == "Heater"@,
            // The minimum reading follows setting 1400 mV, the maximum one
            // setting 12000 mV; the heater is set back to 1400 mV last.
            spec_heater_test_steps().len() == 8,
            spec_heater_test_steps()[0] == HeaterTestStep::SetVoltage(1400),
            spec_heater_test_steps()[2] == HeaterTestStep::ReadMin,
            spec_heater_test_steps()[3] == HeaterTestStep::SetVoltage(12000),
            spec_heater_test_steps()[5] == HeaterTestStep::ReadMax,
            spec_heater_test_steps()[6] == HeaterTestStep::SetVoltage(1400),
            spec_heater_test_steps()[7] == HeaterTestStep::Wait(1_000_000),
    {
        let min_target: i32 = crate::pcb_mapping::power_supply_limits::HEATER_MIN_VOLTAGE_MILLIVOLTS as i32;
        let max_target: i32 = crate::pcb_mapping::power_supply_limits::HEATER_MAX_VOLTAGE_MILLIVOLTS as i32;
        let min_error: i32 = if (min_voltage_mv as i32) < min_target {
            min_target - min_voltage_mv as i32
        } else {
            min_voltage_mv as i32 - min_target
        };
        let max_error: i32 = if (max_voltage_mv as i32) < max_target {
            max_target - max_voltage_mv as i32
        } else {
            max_voltage_mv as i32 - max_target
        };
        SensorResult { name: "Heater", result: min_error * 10 < min_target && max_error * 10 < max_target }
    }

    /// A length-measurement channel passes when its count with the LEDs on
    /// is more than twice the ambient count.
    pub fn lms_channel_ok(on_count: u16, ambient_count: u16) -> (ok: bool)
        requires
            ambient_count <= 32767,
        ensures
            ok == (on_count > 2 * ambient_count),
    {
        on_count > 2 * ambient_count
    }
}

/// Accuracy tests that run without user intervention.
pub struct AutomatedPerformanceTests {}

/// Functional tests that need a person at the board.
pub struct ManualFunctionalTests {}

impl ManualFunctionalTests {
    /// Results of the two endmass switches from whether each read low while
    /// depressed and high once released.
    pub fn endmass_switches_functional_test(depressed: [bool; 2], released: [bool; 2]) -> (r: [SensorResult<'static>; 2])
        ensures
            r[0].result == (depressed[0] && released[0]),
            r[1].result == (depressed[1] && released[1]),
            r[0].name@ == "Endmass switch 1"@,
            r[1].name@ == "Endmass switch 2"@,
    {
        [
            SensorResult { name: "Endmass switch 1", result: Self::endmass_switch_ok(depressed[0], released[0]) },
            SensorResult { name: "Endmass switch 2", result: Self::endmass_switch_ok(depressed[1], released[1]) },
        ]
    }

    /// An endmass switch passes when it read low while depressed and high
    /// once released.
    pub fn endmass_switch_ok(low_when_depressed: bool, high_when_released: bool) -> (ok: bool)
        ensures
            ok == (low_when_depressed && high_when_released),
    {
        low_when_depressed && high_when_released
    }
}

/// Accuracy tests that need a person at the board.
pub struct ManualPerformanceTests {}

/// Offset between degrees Celsius and kelvin used by the temperature tests.
pub const CELCIUS_TO_KELVIN_OFFSET: u16 = 273;

impl ManualPerformanceTests {
    /// Room temperature in kelvin from a temperature typed in Celsius,
    /// kept to 16 bits. The sum must fit an `i32`.
    pub fn celcius_to_kelvin(celcius: i32) -> (kelvin: u16)
        requires
            celcius <= i32::MAX - 273,
        ensures
            kelvin == crate::wrap::wrap_u16(celcius + 273),
    {
        let k: i32 = celcius + CELCIUS_TO_KELVIN_OFFSET as i32;
        proof {
            crate::wrap::lemma_i32_as_u16(k);
        }
        k as u16
    }
}

} // verus!
