//! Accuracy sweeps: a supply is stepped through a list of set points, a
//! reading is taken at each, and the RPDs of the readings against their
//! expected values are averaged in the order they were taken.
//!
//! The caller drives the supplies and takes the readings (see
//! `sweep_percent` and the set-point functions); the functions here turn the
//! readings of a whole sweep into its accuracy and result.
use vstd::prelude::*;
use crate::fixed_point::{abs_int, q32_one};
use crate::testing::{
    AccuracyAverage, AutomatedPerformanceTests, ManualPerformanceTests, ManualFunctionalTests, pin_select,
    temperature_result, two_point_result, temperature_sensor_name, pinpuller_current_result, PerformanceResult, calculate_performance_result, spec_rpd,
    spec_in_place_average, spec_sweep_setpoint, spec_performance, in_place_average_between,
    rpd_bounded_antisymmetric, spec_heater_expected_current, heater_expected_current_ma, sweep_setpoint,
    sweep_setpoint_between, expected_current_microamps,
};
use crate::dac::{spec_command_frame, spec_voltage_to_count, DACChannel, DACCommand, DAC};
use crate::spi::SpiFrame;
use crate::testing::heater_mock::CIRCUIT_RESISTANCE_MOHMS;
use crate::testing::hvdc_mock::{MOCK_CATHODE_OFFSET_RESISTANCE_OHMS, MOCK_TETHER_BIAS_RESISTANCE_OHMS};

verus! {

/// The running average of `rpds`, taken in order: each value `k` (from zero)
/// moves the average by `(rpd - average) / (k + 1)`.
pub open spec fn spec_sweep_accuracy(rpds: Seq<int>) -> int
    decreases rpds.len(),
{
    if rpds.len() == 0 {
        0
    } else {
        spec_in_place_average(spec_sweep_accuracy(rpds.drop_last()), rpds.last(), rpds.len() - 1)
    }
}

/// The RPD of each reading against its expected value.
pub open spec fn spec_rpds(measured: Seq<i32>, expected: Seq<i32>) -> Seq<int> {
    Seq::new(measured.len(), |i: int| spec_rpd(measured[i] as int, expected[i] as int))
}

/// Whether every reading and its expected value can be compared: the sum of
/// their magnitudes fits an `i32`, as the fixed-point arithmetic needs.
pub open spec fn spec_comparable(measured: Seq<i32>, expected: Seq<i32>) -> bool {
    &&& measured.len() == expected.len()
    &&& forall|i: int| 0 <= i < measured.len() ==> abs_int(#[trigger] measured[i] as int) + abs_int(
        expected[i] as int,
    ) <= i32::MAX
}

/// Law: the accuracy of a sweep whose RPDs all lie within `[-1, 1]` lies
/// within `[-1, 1]` too.
pub proof fn sweep_accuracy_bounded(rpds: Seq<int>)
    requires
        forall|i: int| 0 <= i < rpds.len() ==> -q32_one() <= #[trigger] rpds[i] <= q32_one(),
    ensures
        -q32_one() <= spec_sweep_accuracy(rpds) <= q32_one(),
    decreases rpds.len(),
{
    if rpds.len() > 0 {
        let rest = rpds.drop_last();
        assert forall|i: int| 0 <= i < rest.len() implies -q32_one() <= #[trigger] rest[i] <= q32_one() by {
            assert(rest[i] == rpds[i]);
        }
        sweep_accuracy_bounded(rest);
        assert(-q32_one() <= rpds[rpds.len() - 1] <= q32_one());
        in_place_average_between(spec_sweep_accuracy(rest), rpds.last(), rpds.len() - 1);
    }
}

/// The accuracy of a sweep: the running average of the RPD of each reading
/// against its expected value, in the order taken.
pub fn average_rpds(measured: &Vec<i32>, expected: &Vec<i32>) -> (accuracy: i64)
    requires
        spec_comparable(measured@, expected@),
        measured.len() < u16::MAX - 1,
    ensures
        accuracy == spec_sweep_accuracy(spec_rpds(measured@, expected@)),
        -q32_one() <= accuracy <= q32_one(),
{
    let mut avg = AccuracyAverage::new();
    let mut i: usize = 0;
    assert(spec_rpds(measured@.take(0), expected@.take(0)) =~= Seq::<int>::empty());
    while i < measured.len()
        invariant
            spec_comparable(measured@, expected@),
            measured.len() < u16::MAX - 1,
            i <= measured.len(),
            avg.wf(),
            avg.spec_count() == i,
            avg.spec_accuracy() == spec_sweep_accuracy(spec_rpds(measured@.take(i as int), expected@.take(i as int))),
        decreases measured.len() - i,
    {
        let m = measured[i];
        let e = expected[i];
        assert(abs_int(measured@[i as int] as int) + abs_int(expected@[i as int] as int) <= i32::MAX);
        avg.add_measurement(m, e);
        let ghost next = spec_rpds(measured@.take(i + 1), expected@.take(i + 1));
        assert(next.drop_last() =~= spec_rpds(measured@.take(i as int), expected@.take(i as int)));
        assert(next.last() == spec_rpd(m as int, e as int));
        i += 1;
    }
    assert(measured@.take(measured.len() as int) =~= measured@);
    assert(expected@.take(measured.len() as int) =~= expected@);
    avg.accuracy()
}

/// Set points, as `i32`, of a sweep from `start` percent in steps of `step`
/// percent, `count` of them, between `supply_min` and `supply_max`.
pub open spec fn spec_setpoints(start: int, step: int, count: nat, supply_min: int, supply_max: int) -> Seq<i32> {
    Seq::new(count, |i: int| spec_sweep_setpoint(start + step * i, supply_min, supply_max) as i32)
}

/// Current (microamps) each set point drives through a test resistance and
/// the 1 ohm sense resistor, as `i32`.
pub open spec fn spec_expected_currents(volts: Seq<i32>, test_resistance: int) -> Seq<i32> {
    Seq::new(volts.len(), |i: int| ((1000 * volts[i]) / (test_resistance + 1)) as i32)
}

/// Set points, as `i32`, of a sweep of `count` points from `start` percent in
/// steps of `step` percent; the last must not pass 100%. Each lies between
/// the two ends of the supply.
pub fn setpoints(start: u32, step: u32, count: u32, supply_min: u32, supply_max: u32) -> (points: Vec<i32>)
    requires
        count > 0,
        start + step * (count - 1) <= 100,
        supply_min <= 20_000_000,
        supply_max <= 20_000_000,
    ensures
        points@ == spec_setpoints(start as int, step as int, count as nat, supply_min as int, supply_max as int),
        forall|i: int|
            0 <= i < count ==> points@[i] as int == spec_sweep_setpoint(start + step * i, supply_min as int, supply_max as int),
        forall|i: int|
            0 <= i < count ==> (supply_min <= supply_max ==> supply_min <= #[trigger] points@[i] <= supply_max) && (
            supply_max <= supply_min ==> supply_max <= points@[i] <= supply_min),
{
    let mut points: Vec<i32> = Vec::new();
    let mut i: u32 = 0;
    while i < count
        invariant
            count > 0,
            start + step * (count - 1) <= 100,
            supply_min <= 20_000_000,
            supply_max <= 20_000_000,
            i <= count,
            points.len() == i,
            forall|k: int|
                0 <= k < i ==> points@[k] as int == spec_sweep_setpoint(start + step * k, supply_min as int, supply_max as int),
            forall|k: int|
                0 <= k < i ==> (supply_min <= supply_max ==> supply_min <= #[trigger] points@[k] <= supply_max) && (
                supply_max <= supply_min ==> supply_max <= points@[k] <= supply_min),
        decreases count - i,
    {
        assert(step * i <= step * (count - 1)) by (nonlinear_arith)
            requires
                i < count,
        ;
        let percent: u32 = start + step * i;
        proof {
            sweep_setpoint_between(percent as int, supply_min as int, supply_max as int);
        }
        assert((100 - percent) * supply_min + percent * supply_max <= 100 * 20_000_000) by (nonlinear_arith)
            requires
                percent <= 100,
                supply_min <= 20_000_000,
                supply_max <= 20_000_000,
        ;
        let sp = sweep_setpoint(percent, supply_min, supply_max);
        points.push(sp as i32);
        i += 1;
    }
    assert(points@ =~= spec_setpoints(start as int, step as int, count as nat, supply_min as int, supply_max as int));
    points
}

/// A quotient by a positive divisor is no larger than the dividend.
proof fn lemma_quotient_le(a: int, b: int)
    requires
        a >= 0,
        b >= 1,
    ensures
        0 <= a / b <= a,
{
    assert(a <= a * b) by (nonlinear_arith)
        requires
            a >= 0,
            b >= 1,
    ;
    crate::wrap::lemma_div_le_bound(a, b, a);
}

/// Number of set points in the automated high-voltage sweeps (10% to 100%).
pub const HVDC_SWEEP_POINTS: u32 = 10;

/// Number of times the aperture current sensor test sweeps the heater.
pub const APERTURE_TEST_CYCLES: u32 = 3;

/// One step of a high-voltage supply test.
#[derive(Clone, Copy, Debug, PartialEq, Eq, Structural)]
pub enum HvdcTestAction {
    /// Connect the supply's output to the exterior.
    Connect,
    /// Set the supply to a voltage (millivolts).
    SetVoltage(u32),
    /// Let the supply settle, then read its output voltage and current.
    Measure,
    /// Disconnect the supply's output.
    Disconnect,
}

/// The set-and-measure steps of the first `k` points of a high-voltage sweep
/// from 10% to 100% of the supply's range.
pub open spec fn spec_hvdc_sweep_actions(supply_min: int, supply_max: int, k: nat) -> Seq<HvdcTestAction>
    decreases k,
{
    if k == 0 {
        Seq::empty()
    } else {
        spec_hvdc_sweep_actions(supply_min, supply_max, (k - 1) as nat) + seq![
            HvdcTestAction::SetVoltage(spec_sweep_setpoint(10 + 10 * (k - 1), supply_min, supply_max) as u32),
            HvdcTestAction::Measure,
        ]
    }
}

/// The whole high-voltage test: connect, set and measure at ten points,
/// set the supply back to zero, disconnect.
pub open spec fn spec_hvdc_test_actions(supply_min: int, supply_max: int) -> Seq<HvdcTestAction> {
    seq![HvdcTestAction::Connect] + spec_hvdc_sweep_actions(supply_min, supply_max, 10) + seq![
        HvdcTestAction::SetVoltage(0),
        HvdcTestAction::Disconnect,
    ]
}

/// The sweep's steps alternate: the `j`-th set point, then a measurement.
proof fn lemma_hvdc_sweep_actions(supply_min: int, supply_max: int, k: nat)
    ensures
        spec_hvdc_sweep_actions(supply_min, supply_max, k).len() == 2 * k,
        forall|j: int|
            0 <= j < k ==> #[trigger] spec_hvdc_sweep_actions(supply_min, supply_max, k)[2 * j]
                == HvdcTestAction::SetVoltage(spec_sweep_setpoint(10 + 10 * j, supply_min, supply_max) as u32)
                && spec_hvdc_sweep_actions(supply_min, supply_max, k)[2 * j + 1] == HvdcTestAction::Measure,
    decreases k,
{
    if k > 0 {
        lemma_hvdc_sweep_actions(supply_min, supply_max, (k - 1) as nat);
        let prev = spec_hvdc_sweep_actions(supply_min, supply_max, (k - 1) as nat);
        let cur = spec_hvdc_sweep_actions(supply_min, supply_max, k);
        assert forall|j: int| 0 <= j < k implies #[trigger] cur[2 * j] == HvdcTestAction::SetVoltage(
            spec_sweep_setpoint(10 + 10 * j, supply_min, supply_max) as u32,
        ) && cur[2 * j + 1] == HvdcTestAction::Measure by {
            if j < k - 1 {
                assert(cur[2 * j] == prev[2 * j]);
                assert(cur[2 * j + 1] == prev[2 * j + 1]);
            }
        }
    }
}

/// The whole plan: connect first; the `k`-th set point of the sweep, then a
/// measurement; then back to zero and disconnect.
pub proof fn lemma_hvdc_test_actions(supply_min: int, supply_max: int)
    ensures
        spec_hvdc_test_actions(supply_min, supply_max).len() == 23,
        spec_hvdc_test_actions(supply_min, supply_max)[0] == HvdcTestAction::Connect,
        forall|k: int|
            0 <= k < 10 ==> spec_hvdc_test_actions(supply_min, supply_max)[1 + 2 * k] == HvdcTestAction::SetVoltage(
                #[trigger] spec_sweep_setpoint(10 + 10 * k, supply_min, supply_max) as u32,
            ) && spec_hvdc_test_actions(supply_min, supply_max)[2 + 2 * k] == HvdcTestAction::Measure,
        spec_hvdc_test_actions(supply_min, supply_max)[21] == HvdcTestAction::SetVoltage(0),
        spec_hvdc_test_actions(supply_min, supply_max)[22] == HvdcTestAction::Disconnect,
{
    lemma_hvdc_sweep_actions(supply_min, supply_max, 10);
    let sweep = spec_hvdc_sweep_actions(supply_min, supply_max, 10);
    let all = spec_hvdc_test_actions(supply_min, supply_max);
    assert forall|k: int| 0 <= k < 10 implies all[1 + 2 * k] == HvdcTestAction::SetVoltage(
        #[trigger] spec_sweep_setpoint(10 + 10 * k, supply_min, supply_max) as u32,
    ) && all[2 + 2 * k] == HvdcTestAction::Measure by {
        assert(all[1 + 2 * k] == sweep[2 * k]);
        assert(all[2 + 2 * k] == sweep[2 * k + 1]);
    }
}

impl AutomatedPerformanceTests {
    /// Voltage and current accuracy of a high-voltage supply swept from 10% to
    /// 100% of its range into a test resistance: each voltage reading is
    /// compared with the set point, each current reading with the current the
    /// set point drives through the test resistance and the 1 ohm sense
    /// resistor.
    pub fn test_hvdc_supply(
        supply_min: u32,
        supply_max: u32,
        test_resistance: u32,
        measured_voltage_mv: &Vec<i32>,
        measured_current_ua: &Vec<i32>,
    ) -> (accuracy: [i64; 2])
        requires
            supply_min <= 4_294_967,
            supply_max <= 4_294_967,
            test_resistance < u32::MAX,
            measured_voltage_mv.len() == 10,
            measured_current_ua.len() == 10,
            spec_comparable(measured_voltage_mv@, spec_setpoints(10, 10, 10, supply_min as int, supply_max as int)),
            spec_comparable(
                measured_current_ua@,
                spec_expected_currents(
                    spec_setpoints(10, 10, 10, supply_min as int, supply_max as int),
                    test_resistance as int,
                ),
            ),
        ensures
            accuracy[0] == spec_sweep_accuracy(
                spec_rpds(measured_voltage_mv@, spec_setpoints(10, 10, 10, supply_min as int, supply_max as int)),
            ),
            accuracy[1] == spec_sweep_accuracy(
                spec_rpds(
                    measured_current_ua@,
                    spec_expected_currents(
                        spec_setpoints(10, 10, 10, supply_min as int, supply_max as int),
                        test_resistance as int,
                    ),
                ),
            ),
            -q32_one() <= accuracy[0] <= q32_one(),
            -q32_one() <= accuracy[1] <= q32_one(),
            // The readings are those taken at the plan's measurement steps:
            // the `k`-th after the `k`-th set point compared against.
            spec_hvdc_test_actions(supply_min as int, supply_max as int).len() == 23,
            spec_hvdc_test_actions(supply_min as int, supply_max as int)[0] == HvdcTestAction::Connect,
            forall|k: int|
                0 <= k < 10 ==> spec_hvdc_test_actions(supply_min as int, supply_max as int)[1 + 2 * k]
                    == HvdcTestAction::SetVoltage(
                    #[trigger] spec_setpoints(10, 10, 10, supply_min as int, supply_max as int)[k] as u32,
                ) && spec_hvdc_test_actions(supply_min as int, supply_max as int)[2 + 2 * k] == HvdcTestAction::Measure,
            spec_hvdc_test_actions(supply_min as int, supply_max as int)[21] == HvdcTestAction::SetVoltage(0),
            spec_hvdc_test_actions(supply_min as int, supply_max as int)[22] == HvdcTestAction::Disconnect,
    {
        proof {
            lemma_hvdc_test_actions(supply_min as int, supply_max as int);
            assert forall|k: int| 0 <= k < 10 implies spec_hvdc_test_actions(supply_min as int, supply_max as int)[1
                + 2 * k] == HvdcTestAction::SetVoltage(
                #[trigger] spec_setpoints(10, 10, 10, supply_min as int, supply_max as int)[k] as u32,
            ) by {
                let sp = spec_sweep_setpoint(10 + 10 * k, supply_min as int, supply_max as int);
                sweep_setpoint_between(10 + 10 * k, supply_min as int, supply_max as int);
                assert(spec_setpoints(10, 10, 10, supply_min as int, supply_max as int)[k] == sp as i32);
                assert(0 <= sp <= 4_294_967);
            }
        }
        let volts = setpoints(10, 10, HVDC_SWEEP_POINTS, supply_min, supply_max);
        assert forall|k: int| 0 <= k < 10 implies 0 <= #[trigger] volts@[k] <= 4_294_967 by {
            assert(supply_min <= supply_max ==> supply_min <= volts@[k] <= supply_max);
            assert(supply_max <= supply_min ==> supply_max <= volts@[k] <= supply_min);
        }
        let mut amps: Vec<i32> = Vec::new();
        let mut i: usize = 0;
        while i < volts.len()
            invariant
                volts.len() == 10,
                test_resistance < u32::MAX,
                forall|k: int| 0 <= k < 10 ==> 0 <= #[trigger] volts@[k] <= 4_294_967,
                i <= 10,
                amps.len() == i,
                forall|k: int| 0 <= k < i ==> #[trigger] amps@[k] == ((1000 * volts@[k]) / (test_resistance + 1)) as i32,
            decreases 10 - i,
        {
            let v = volts[i];
            assert(0 <= v <= 4_294_967);
            proof {
                lemma_quotient_le(1000 * v, test_resistance + 1);
            }
            let ua = expected_current_microamps(v as u32, test_resistance);
            amps.push(ua);
            i += 1;
        }
        assert(amps@ =~= spec_expected_currents(volts@, test_resistance as int));
        let v_acc = average_rpds(measured_voltage_mv, &volts);
        let i_acc = average_rpds(measured_current_ua, &amps);
        [v_acc, i_acc]
    }

    /// Heater set points of the aperture current sensor test, in order: 900 mV
    /// to 3000 mV in steps of 100 mV. The test runs through them
    /// `APERTURE_TEST_CYCLES` times.
    pub fn aperture_test_heater_setpoints() -> (points: Vec<u16>)
        ensures
            points.len() == 22,
            forall|i: int| 0 <= i < 22 ==> #[trigger] points@[i] == 900 + 100 * i,
    {
        let mut points: Vec<u16> = Vec::new();
        let mut mv: u16 = 900;
        while mv < 3100
            invariant
                900 <= mv <= 3100,
                (mv - 900) % 100 == 0,
                points.len() == (mv - 900) / 100,
                forall|i: int| 0 <= i < points.len() ==> #[trigger] points@[i] == 900 + 100 * i,
            decreases 3100 - mv,
        {
            points.push(mv);
            mv = mv + 100;
        }
        points
    }

    /// The actions of a high-voltage supply test, in order.
    pub fn hvdc_test_actions(supply_min: u32, supply_max: u32) -> (actions: Vec<HvdcTestAction>)
        requires
            supply_min <= 4_294_967,
            supply_max <= 4_294_967,
        ensures
            actions@ == spec_hvdc_test_actions(supply_min as int, supply_max as int),
    {
        let mut actions: Vec<HvdcTestAction> = Vec::new();
        actions.push(HvdcTestAction::Connect);
        let mut i: u32 = 0;
        assert(actions@ =~= seq![HvdcTestAction::Connect] + spec_hvdc_sweep_actions(
            supply_min as int,
            supply_max as int,
            0,
        ));
        while i < HVDC_SWEEP_POINTS
            invariant
                supply_min <= 4_294_967,
                supply_max <= 4_294_967,
                i <= 10,
                actions@ == seq![HvdcTestAction::Connect] + spec_hvdc_sweep_actions(
                    supply_min as int,
                    supply_max as int,
                    i as nat,
                ),
            decreases 10 - i,
        {
            let percent: u32 = 10 + 10 * i;
            assert((100 - percent) * supply_min + percent * supply_max <= 100 * 4_294_967) by (nonlinear_arith)
                requires
                    percent <= 100,
                    supply_min <= 4_294_967,
                    supply_max <= 4_294_967,
            ;
            let set_voltage_mv = sweep_setpoint(percent, supply_min, supply_max);
            actions.push(HvdcTestAction::SetVoltage(set_voltage_mv));
            actions.push(HvdcTestAction::Measure);
            i += 1;
            assert(actions@ =~= seq![HvdcTestAction::Connect] + spec_hvdc_sweep_actions(
                supply_min as int,
                supply_max as int,
                i as nat,
            ));
        }
        actions.push(HvdcTestAction::SetVoltage(0));
        actions.push(HvdcTestAction::Disconnect);
        assert(actions@ =~= spec_hvdc_test_actions(supply_min as int, supply_max as int));
        actions
    }

    /// Voltage accuracy of a high-voltage supply swept from 10% to 100% of
    /// its range: each reading against its set point.
    pub fn test_hvdc_supply_voltage(supply_min: u32, supply_max: u32, measured_voltage_mv: &Vec<i32>) -> (accuracy: i64)
        requires
            supply_min <= 4_294_967,
            supply_max <= 4_294_967,
            measured_voltage_mv.len() == 10,
            spec_comparable(measured_voltage_mv@, spec_setpoints(10, 10, 10, supply_min as int, supply_max as int)),
        ensures
            accuracy == spec_sweep_accuracy(
                spec_rpds(measured_voltage_mv@, spec_setpoints(10, 10, 10, supply_min as int, supply_max as int)),
            ),
            -q32_one() <= accuracy <= q32_one(),
    {
        let volts = setpoints(10, 10, HVDC_SWEEP_POINTS, supply_min, supply_max);
        average_rpds(measured_voltage_mv, &volts)
    }

    /// Cathode offset supply swept over its whole range into the 98.3 kohm
    /// test load: voltage and current results, nominal within 5%, inaccurate
    /// within 20%.
    pub fn test_cathode_offset(measured_voltage_mv: &Vec<i32>, measured_current_ua: &Vec<i32>) -> (r: [PerformanceResult<
        'static,
    >; 2])
        requires
            measured_voltage_mv.len() == 10,
            measured_current_ua.len() == 10,
            spec_comparable(measured_voltage_mv@, spec_setpoints(10, 10, 10, 0, 255000)),
            spec_comparable(measured_current_ua@, spec_expected_currents(spec_setpoints(10, 10, 10, 0, 255000), 98300)),
        ensures
            r[0].name@ == "Cathode offset voltage"@,
            r[0].accuracy == spec_sweep_accuracy(spec_rpds(measured_voltage_mv@, spec_setpoints(10, 10, 10, 0, 255000))),
            r[0].performance == spec_performance(r[0].accuracy as int, 5, 20),
            r[1].name@ == "Cathode offset current"@,
            r[1].accuracy == spec_sweep_accuracy(
                spec_rpds(measured_current_ua@, spec_expected_currents(spec_setpoints(10, 10, 10, 0, 255000), 98300)),
            ),
            r[1].performance == spec_performance(r[1].accuracy as int, 5, 20),
    {
        let accuracies = Self::test_hvdc_supply(
            crate::pcb_mapping::power_supply_limits::CATHODE_OFFSET_MIN_VOLTAGE_MILLIVOLTS,
            crate::pcb_mapping::power_supply_limits::CATHODE_OFFSET_MAX_VOLTAGE_MILLIVOLTS,
            MOCK_CATHODE_OFFSET_RESISTANCE_OHMS,
            measured_voltage_mv,
            measured_current_ua,
        );
        let voltage_result = calculate_performance_result("Cathode offset voltage", accuracies[0], 5, 20);
        let current_result = calculate_performance_result("Cathode offset current", accuracies[1], 5, 20);
        [voltage_result, current_result]
    }

    /// Tether bias supply swept over its whole range into the 98.15 kohm test
    /// load: voltage and current results.
    pub fn test_tether_bias(measured_voltage_mv: &Vec<i32>, measured_current_ua: &Vec<i32>) -> (r: [PerformanceResult<
        'static,
    >; 2])
        requires
            measured_voltage_mv.len() == 10,
            measured_current_ua.len() == 10,
            spec_comparable(measured_voltage_mv@, spec_setpoints(10, 10, 10, 0, 255000)),
            spec_comparable(measured_current_ua@, spec_expected_currents(spec_setpoints(10, 10, 10, 0, 255000), 98150)),
        ensures
            r[0].name@ == "Tether bias voltage"@,
            r[0].accuracy == spec_sweep_accuracy(spec_rpds(measured_voltage_mv@, spec_setpoints(10, 10, 10, 0, 255000))),
            r[0].performance == spec_performance(r[0].accuracy as int, 5, 20),
            r[1].name@ == "Tether bias current"@,
            r[1].accuracy == spec_sweep_accuracy(
                spec_rpds(measured_current_ua@, spec_expected_currents(spec_setpoints(10, 10, 10, 0, 255000), 98150)),
            ),
            r[1].performance == spec_performance(r[1].accuracy as int, 5, 20),
    {
        let accuracies = Self::test_hvdc_supply(
            crate::pcb_mapping::power_supply_limits::TETHER_BIAS_MIN_VOLTAGE_MILLIVOLTS,
            crate::pcb_mapping::power_supply_limits::TETHER_BIAS_MAX_VOLTAGE_MILLIVOLTS,
            MOCK_TETHER_BIAS_RESISTANCE_OHMS,
            measured_voltage_mv,
            measured_current_ua,
        );
        let voltage_result = calculate_performance_result("Tether bias voltage", accuracies[0], 5, 20);
        let current_result = calculate_performance_result("Tether bias current", accuracies[1], 5, 20);
        [voltage_result, current_result]
    }

    /// Cathode offset voltage swept from 10% to 100% of 0 to 200 V.
    pub fn test_cathode_offset_voltage(measured_voltage_mv: &Vec<i32>) -> (r: PerformanceResult<'static>)
        requires
            measured_voltage_mv.len() == 10,
            spec_comparable(measured_voltage_mv@, spec_setpoints(10, 10, 10, 0, 200000)),
        ensures
            r.name@ == "Cathode offset voltage"@,
            r.accuracy == spec_sweep_accuracy(spec_rpds(measured_voltage_mv@, spec_setpoints(10, 10, 10, 0, 200000))),
            r.performance == spec_performance(r.accuracy as int, 5, 20),
    {
        let accuracy = Self::test_hvdc_supply_voltage(
            crate::pcb_mapping::power_supply_limits::CATHODE_OFFSET_MIN_VOLTAGE_MILLIVOLTS,
            200_000,
            measured_voltage_mv,
        );
        calculate_performance_result("Cathode offset voltage", accuracy, 5, 20)
    }

    /// Tether bias voltage swept from 10% to 100% of 0 to 200 V.
    pub fn test_tether_bias_voltage(measured_voltage_mv: &Vec<i32>) -> (r: PerformanceResult<'static>)
        requires
            measured_voltage_mv.len() == 10,
            spec_comparable(measured_voltage_mv@, spec_setpoints(10, 10, 10, 0, 200000)),
        ensures
            r.name@ == "Tether bias voltage"@,
            r.accuracy == spec_sweep_accuracy(spec_rpds(measured_voltage_mv@, spec_setpoints(10, 10, 10, 0, 200000))),
            r.performance == spec_performance(r.accuracy as int, 5, 20),
    {
        let accuracy = Self::test_hvdc_supply_voltage(
            crate::pcb_mapping::power_supply_limits::TETHER_BIAS_MIN_VOLTAGE_MILLIVOLTS,
            200_000,
            measured_voltage_mv,
        );
        calculate_performance_result("Tether bias voltage", accuracy, 5, 20)
    }

    /// Repeller voltage, with the repeller plate on the tether bias supply,
    /// while that supply is swept from 10% to 100% of its range: each reading
    /// against the set point.
    pub fn test_repeller_voltage(measured_repeller_mv: &Vec<i32>) -> (r: [PerformanceResult<'static>; 1])
        requires
            measured_repeller_mv.len() == 10,
            spec_comparable(measured_repeller_mv@, spec_setpoints(10, 10, 10, 0, 255000)),
        ensures
            r[0].name@ == "Repeller voltage"@,
            r[0].accuracy == spec_sweep_accuracy(spec_rpds(measured_repeller_mv@, spec_setpoints(10, 10, 10, 0, 255000))),
            r[0].performance == spec_performance(r[0].accuracy as int, 5, 20),
    {
        let accuracy = Self::test_hvdc_supply_voltage(
            crate::pcb_mapping::power_supply_limits::TETHER_BIAS_MIN_VOLTAGE_MILLIVOLTS,
            crate::pcb_mapping::power_supply_limits::TETHER_BIAS_MAX_VOLTAGE_MILLIVOLTS,
            measured_repeller_mv,
        );
        [calculate_performance_result("Repeller voltage", accuracy, 5, 20)]
    }

    /// Heater swept from 1.4 V to 2 V in eleven steps into the 10 ohm test
    /// load: each voltage reading against its set point, each current
    /// reading against the current the load draws (capped by its power
    /// rating).
    pub fn test_heater(heater_voltage_mv: &Vec<u16>, heater_current_ma: &Vec<i16>) -> (r: [PerformanceResult<'static>; 2])
        requires
            heater_voltage_mv.len() == 11,
            heater_current_ma.len() == 11,
        ensures
            r[0].name@ == "Heater voltage"@,
            r[0].accuracy == spec_sweep_accuracy(
                spec_rpds(widen_u16_spec(heater_voltage_mv@), spec_setpoints(0, 10, 11, 1400, 2000)),
            ),
            r[0].performance == spec_performance(r[0].accuracy as int, 5, 20),
            r[1].name@ == "Heater current"@,
            r[1].accuracy == spec_sweep_accuracy(
                spec_rpds(widen_i16_spec(heater_current_ma@), spec_heater_currents(spec_setpoints(0, 10, 11, 1400, 2000))),
            ),
            r[1].performance == spec_performance(r[1].accuracy as int, 5, 20),
    {
        let volts = setpoints(0, 10, 11, crate::pcb_mapping::power_supply_limits::HEATER_MIN_VOLTAGE_MILLIVOLTS as u32, 2000);
        let mut amps: Vec<i32> = Vec::new();
        let mut i: usize = 0;
        while i < volts.len()
            invariant
                volts@ == spec_setpoints(0, 10, 11, 1400, 2000),
                forall|k: int| 0 <= k < 11 ==> 1400 <= #[trigger] volts@[k] <= 2000,
                i <= 11,
                amps.len() == i,
                forall|k: int|
                    0 <= k < i ==> #[trigger] amps@[k] as int == spec_heater_expected_current(volts@[k] as int, 10010),
            decreases 11 - i,
        {
            let v = volts[i];
            let ma = heater_expected_current_ma(v as u16, CIRCUIT_RESISTANCE_MOHMS);
            amps.push(ma as i32);
            i += 1;
        }
        proof {
            crate::testing::heater_mock::lemma_power_limited_max_current_value();
        }
        assert(amps@ =~= spec_heater_currents(volts@));
        let measured_volts = widen_u16(heater_voltage_mv);
        let measured_amps = widen_i16(heater_current_ma);
        assert forall|k: int| 0 <= k < 11 implies 0 <= #[trigger] amps@[k] <= 316 by {
            crate::wrap::lemma_div_le_bound(volts@[k] * 1000, 10010, 316);
        }
        let v_acc = average_rpds(&measured_volts, &volts);
        let i_acc = average_rpds(&measured_amps, &amps);
        let voltage_result = calculate_performance_result("Heater voltage", v_acc, 5, 20);
        let current_result = calculate_performance_result("Heater current", i_acc, 5, 20);
        [voltage_result, current_result]
    }

    /// Pinpuller current sensor: the current read with each of the four
    /// lines switched on in turn, against the expected on-current (`Q32` bits
    /// of milliamps, its fraction dropped).
    pub fn test_pinpuller_current_sensor(measured_current_ma: &Vec<u16>, expected_on_current: i64) -> (r: PerformanceResult<
        'static,
    >)
        requires
            measured_current_ma.len() == 4,
            0 <= (expected_on_current as int) / q32_one() <= 1000000,
        ensures
            r.name@ == "Pinpuller current sense"@,
            r.accuracy == spec_sweep_accuracy(
                spec_rpds(
                    widen_u16_spec(measured_current_ma@),
                    Seq::new(4, |i: int| ((expected_on_current as int) / q32_one()) as i32),
                ),
            ),
            r.performance == spec_performance(r.accuracy as int, 5, 20),
    {
        let expected = crate::fixed_point::q32_to_i32(expected_on_current);
        let expected_all: Vec<i32> = vec![expected, expected, expected, expected];
        assert(expected_all@ =~= Seq::new(4, |i: int| ((expected_on_current as int) / q32_one()) as i32));
        let measured = widen_u16(measured_current_ma);
        let accuracy = average_rpds(&measured, &expected_all);
        calculate_performance_result("Pinpuller current sense", accuracy, 5, 20)
    }
}

/// Expected heater currents at each set point, as `i32`.
pub open spec fn spec_heater_currents(volts: Seq<i32>) -> Seq<i32> {
    Seq::new(volts.len(), |i: int| spec_heater_expected_current(volts[i] as int, 10010) as i32)
}

/// Readings of 16 bits taken as `i32`.
pub open spec fn widen_u16_spec(v: Seq<u16>) -> Seq<i32> {
    Seq::new(v.len(), |i: int| v[i] as i32)
}

/// Signed readings of 16 bits taken as `i32`.
pub open spec fn widen_i16_spec(v: Seq<i16>) -> Seq<i32> {
    Seq::new(v.len(), |i: int| v[i] as i32)
}

/// Readings of 16 bits taken as `i32`.
pub fn widen_u16(v: &Vec<u16>) -> (w: Vec<i32>)
    ensures
        w@ == widen_u16_spec(v@),
{
    let mut w: Vec<i32> = Vec::new();
    let mut i: usize = 0;
    while i < v.len()
        invariant
            i <= v.len(),
            w@ == widen_u16_spec(v@.take(i as int)),
        decreases v.len() - i,
    {
        w.push(v[i] as i32);
        i += 1;
        assert(w@ =~= widen_u16_spec(v@.take(i as int)));
    }
    assert(v@.take(v.len() as int) =~= v@);
    w
}

/// Signed readings of 16 bits taken as `i32`.
pub fn widen_i16(v: &Vec<i16>) -> (w: Vec<i32>)
    ensures
        w@ == widen_i16_spec(v@),
{
    let mut w: Vec<i32> = Vec::new();
    let mut i: usize = 0;
    while i < v.len()
        invariant
            i <= v.len(),
            w@ == widen_i16_spec(v@.take(i as int)),
        decreases v.len() - i,
    {
        w.push(v[i] as i32);
        i += 1;
        assert(w@ =~= widen_i16_spec(v@.take(i as int)));
    }
    assert(v@.take(v.len() as int) =~= v@);
    w
}

/// The DAC commands of the DAC test, in order: for each of the five set
/// points (1%, 21%, ..., 81% of 5 V) write and update channel C with its
/// count; then set channel C back to zero.
pub open spec fn spec_dac_test_frames() -> Seq<SpiFrame> {
    Seq::new(
        6,
        |i: int|
            if i < 5 {
                spec_command_frame(
                    DACCommand::WriteToAndUpdateRegisterX,
                    DACChannel::ChannelC,
                    spec_voltage_to_count((1 + 20 * i) * 5000 / 100) as u16,
                )
            } else {
                spec_command_frame(DACCommand::WriteToAndUpdateRegisterX, DACChannel::ChannelC, 0)
            },
    )
}

impl ManualPerformanceTests {
    /// DAC swept through 1%, 21%, ..., 81% of its 5 V range on channel C,
    /// each output measured by hand. (The result carries the cathode offset
    /// supply's name, which channel C controls.)
    pub fn test_dac(measured_voltage_mv: &Vec<i32>) -> (r: PerformanceResult<'static>)
        requires
            measured_voltage_mv.len() == 5,
            spec_comparable(measured_voltage_mv@, spec_setpoints(1, 20, 5, 0, 5000)),
        ensures
            r.name@ == "Cathode offset voltage"@,
            r.accuracy == spec_sweep_accuracy(spec_rpds(measured_voltage_mv@, spec_setpoints(1, 20, 5, 0, 5000))),
            r.performance == spec_performance(r.accuracy as int, 5, 20),
            // The `k`-th reading is of the output set by the `k`-th frame of
            // the test, which carries the count of the `k`-th set point; the
            // last frame sets channel C back to zero.
            spec_dac_test_frames().len() == 6,
            forall|k: int|
                0 <= k < 5 ==> spec_dac_test_frames()[k] == spec_command_frame(
                    DACCommand::WriteToAndUpdateRegisterX,
                    DACChannel::ChannelC,
                    spec_voltage_to_count(#[trigger] spec_setpoints(1, 20, 5, 0, 5000)[k] as int) as u16,
                ),
            spec_dac_test_frames()[5] == spec_command_frame(DACCommand::WriteToAndUpdateRegisterX, DACChannel::ChannelC, 0),
    {
        proof {
            assert forall|k: int| 0 <= k < 5 implies spec_dac_test_frames()[k] == spec_command_frame(
                DACCommand::WriteToAndUpdateRegisterX,
                DACChannel::ChannelC,
                spec_voltage_to_count(#[trigger] spec_setpoints(1, 20, 5, 0, 5000)[k] as int) as u16,
            ) by {
                sweep_setpoint_between(1 + 20 * k, 0, 5000);
                assert(spec_sweep_setpoint(1 + 20 * k, 0, 5000) == (1 + 20 * k) * 5000 / 100);
            }
        }
        let volts = setpoints(1, 20, 5, 0, crate::pcb_mapping::peripheral_vcc_values::DAC_VCC_VOLTAGE_MILLIVOLTS as u32);
        let accuracy = average_rpds(measured_voltage_mv, &volts);
        calculate_performance_result("Cathode offset voltage", accuracy, 5, 20)
    }

    /// The DAC commands of the DAC test, in order: for each of the five set
    /// points (1%, 21%, ..., 81% of 5 V) write and update channel C with its
    /// count; then set channel C back to zero.
    pub fn dac_test_frames<Cs>(dac: &DAC<Cs>) -> (frames: Vec<SpiFrame>)
        ensures
            frames@ == spec_dac_test_frames(),
            frames.len() == 6,
            forall|i: int|
                0 <= i < 5 ==> #[trigger] frames@[i] == spec_command_frame(
                    DACCommand::WriteToAndUpdateRegisterX,
                    DACChannel::ChannelC,
                    spec_voltage_to_count((1 + 20 * i) * 5000 / 100) as u16,
                ),
            frames@[5] == spec_command_frame(DACCommand::WriteToAndUpdateRegisterX, DACChannel::ChannelC, 0),
    {
        let mut frames: Vec<SpiFrame> = Vec::new();
        let mut i: u32 = 0;
        while i < 5
            invariant
                i <= 5,
                frames.len() == i,
                forall|k: int|
                    0 <= k < i ==> #[trigger] frames@[k] == spec_command_frame(
                        DACCommand::WriteToAndUpdateRegisterX,
                        DACChannel::ChannelC,
                        spec_voltage_to_count((1 + 20 * k) * 5000 / 100) as u16,
                    ),
            decreases 5 - i,
        {
            let output_mv = crate::testing::dac_test_setpoint(1 + 20 * i);
            let count = dac.voltage_to_count(output_mv);
            frames.push(dac.send_command(DACCommand::WriteToAndUpdateRegisterX, DACChannel::ChannelC, count));
            i += 1;
        }
        let zero = dac.voltage_to_count(0);
        frames.push(dac.send_command(DACCommand::WriteToAndUpdateRegisterX, DACChannel::ChannelC, zero));
        assert(frames@ =~= spec_dac_test_frames());
        frames
    }

    /// Cathode offset supply swept from 10% to 100% of its range, each output
    /// measured by hand.
    pub fn test_cathode_offset_voltage(measured_voltage_mv: &Vec<i32>) -> (r: PerformanceResult<'static>)
        requires
            measured_voltage_mv.len() == 10,
            spec_comparable(measured_voltage_mv@, spec_setpoints(10, 10, 10, 0, 255000)),
        ensures
            r.name@ == "Cathode offset voltage"@,
            r.accuracy == spec_sweep_accuracy(spec_rpds(measured_voltage_mv@, spec_setpoints(10, 10, 10, 0, 255000))),
            r.performance == spec_performance(r.accuracy as int, 5, 20),
    {
        let volts = setpoints(
            10,
            10,
            10,
            crate::pcb_mapping::power_supply_limits::CATHODE_OFFSET_MIN_VOLTAGE_MILLIVOLTS,
            crate::pcb_mapping::power_supply_limits::CATHODE_OFFSET_MAX_VOLTAGE_MILLIVOLTS,
        );
        let accuracy = average_rpds(measured_voltage_mv, &volts);
        calculate_performance_result("Cathode offset voltage", accuracy, 5, 20)
    }

    /// Repeller swept from 10% to 100% of its range, each output measured by
    /// hand. (The result carries the cathode offset supply's name.)
    pub fn test_repeller_voltage(repeller_min_mv: u32, repeller_max_mv: u32, measured_voltage_mv: &Vec<i32>) -> (r:
        PerformanceResult<'static>)
        requires
            repeller_min_mv <= repeller_max_mv <= 2_000_000,
            measured_voltage_mv.len() == 10,
            spec_comparable(
                measured_voltage_mv@,
                spec_setpoints(10, 10, 10, repeller_min_mv as int, repeller_max_mv as int),
            ),
        ensures
            r.name@ == "Cathode offset voltage"@,
            r.accuracy == spec_sweep_accuracy(
                spec_rpds(measured_voltage_mv@, spec_setpoints(10, 10, 10, repeller_min_mv as int, repeller_max_mv as int)),
            ),
            r.performance == spec_performance(r.accuracy as int, 5, 20),
    {
        let volts = setpoints(10, 10, 10, repeller_min_mv, repeller_max_mv);
        let accuracy = average_rpds(measured_voltage_mv, &volts);
        calculate_performance_result("Cathode offset voltage", accuracy, 5, 20)
    }

    /// Tether bias supply swept from 10% to 100% of its range, each output
    /// measured by hand.
    pub fn test_tether_bias_voltage(measured_voltage_mv: &Vec<i32>) -> (r: PerformanceResult<'static>)
        requires
            measured_voltage_mv.len() == 10,
            spec_comparable(measured_voltage_mv@, spec_setpoints(10, 10, 10, 0, 255000)),
        ensures
            r.name@ == "Tether bias voltage"@,
            r.accuracy == spec_sweep_accuracy(spec_rpds(measured_voltage_mv@, spec_setpoints(10, 10, 10, 0, 255000))),
            r.performance == spec_performance(r.accuracy as int, 5, 20),
    {
        let volts = setpoints(
            10,
            10,
            10,
            crate::pcb_mapping::power_supply_limits::TETHER_BIAS_MIN_VOLTAGE_MILLIVOLTS,
            crate::pcb_mapping::power_supply_limits::TETHER_BIAS_MAX_VOLTAGE_MILLIVOLTS,
        );
        let accuracy = average_rpds(measured_voltage_mv, &volts);
        calculate_performance_result("Tether bias voltage", accuracy, 5, 20)
    }

    /// Cathode offset current over eleven set points: the board's reading
    /// against the current measured by hand.
    pub fn test_cathode_offset_current(board_current_ua: &Vec<i32>, measured_current_ua: &Vec<i32>) -> (r:
        PerformanceResult<'static>)
        requires
            board_current_ua.len() == 11,
            spec_comparable(board_current_ua@, measured_current_ua@),
        ensures
            r.name@ == "Cathode offset current"@,
            r.accuracy == spec_sweep_accuracy(spec_rpds(board_current_ua@, measured_current_ua@)),
            r.performance == spec_performance(r.accuracy as int, 5, 20),
    {
        let accuracy = average_rpds(board_current_ua, measured_current_ua);
        calculate_performance_result("Cathode offset current", accuracy, 5, 20)
    }

    /// Tether bias current over ten set points: the board's reading against
    /// the current measured by hand.
    pub fn test_tether_bias_current(board_current_ua: &Vec<i32>, measured_current_ua: &Vec<i32>) -> (r:
        PerformanceResult<'static>)
        requires
            board_current_ua.len() == 10,
            spec_comparable(board_current_ua@, measured_current_ua@),
        ensures
            r.name@ == "Tether bias current"@,
            r.accuracy == spec_sweep_accuracy(spec_rpds(board_current_ua@, measured_current_ua@)),
            r.performance == spec_performance(r.accuracy as int, 5, 20),
    {
        let accuracy = average_rpds(board_current_ua, measured_current_ua);
        calculate_performance_result("Tether bias current", accuracy, 5, 20)
    }

    /// Heater voltage over its whole range in eleven steps: the board's
    /// reading against the voltage measured by hand.
    pub fn test_heater_voltage(board_voltage_mv: &Vec<u16>, measured_voltage_mv: &Vec<i32>) -> (r: PerformanceResult<
        'static,
    >)
        requires
            board_voltage_mv.len() == 11,
            spec_comparable(widen_u16_spec(board_voltage_mv@), measured_voltage_mv@),
        ensures
            r.name@ == "Heater voltage"@,
            r.accuracy == spec_sweep_accuracy(spec_rpds(widen_u16_spec(board_voltage_mv@), measured_voltage_mv@)),
            r.performance == spec_performance(r.accuracy as int, 5, 20),
    {
        let board = widen_u16(board_voltage_mv);
        let accuracy = average_rpds(&board, measured_voltage_mv);
        calculate_performance_result("Heater voltage", accuracy, 5, 20)
    }

    /// Heater current over its whole range in eleven steps: the board's
    /// reading against the current measured by hand.
    pub fn test_heater_current(board_current_ma: &Vec<i16>, measured_current_ma: &Vec<i32>) -> (r: PerformanceResult<
        'static,
    >)
        requires
            board_current_ma.len() == 11,
            spec_comparable(widen_i16_spec(board_current_ma@), measured_current_ma@),
        ensures
            r.name@ == "Heater current"@,
            r.accuracy == spec_sweep_accuracy(spec_rpds(widen_i16_spec(board_current_ma@), measured_current_ma@)),
            r.performance == spec_performance(r.accuracy as int, 5, 20),
    {
        let board = widen_i16(board_current_ma);
        let accuracy = average_rpds(&board, measured_current_ma);
        calculate_performance_result("Heater current", accuracy, 5, 20)
    }

    /// Pinpuller current at nine supply voltages, through burn wire 1: the
    /// board's reading against the hand measurement, both taken as 16-bit
    /// signed values, averaged over the nine points.
    pub fn test_pinpuller_current(board_current_ma: &Vec<u16>, measured_current_ma: &Vec<i32>) -> (r: PerformanceResult<
        'static,
    >)
        requires
            board_current_ma.len() == 9,
            measured_current_ma.len() == 9,
        ensures
            r.name@ == "Pinpuller current"@,
            r.accuracy == spec_sweep_accuracy(
                spec_rpds(
                    Seq::new(9, |k: int| board_current_ma@[k] as i16 as i32),
                    Seq::new(9, |k: int| measured_current_ma@[k] as i16 as i32),
                ),
            ),
            r.performance == spec_performance(r.accuracy as int, 5, 20),
    {
        let ghost board_spec = Seq::new(9, |k: int| board_current_ma@[k] as i16 as i32);
        let ghost hand_spec = Seq::new(9, |k: int| measured_current_ma@[k] as i16 as i32);
        let mut board: Vec<i32> = Vec::new();
        let mut hand: Vec<i32> = Vec::new();
        let mut i: usize = 0;
        while i < 9
            invariant
                board_current_ma.len() == 9,
                measured_current_ma.len() == 9,
                i <= 9,
                board_spec == Seq::new(9, |k: int| board_current_ma@[k] as i16 as i32),
                hand_spec == Seq::new(9, |k: int| measured_current_ma@[k] as i16 as i32),
                board@ == board_spec.take(i as int),
                hand@ == hand_spec.take(i as int),
            decreases 9 - i,
        {
            board.push(#[verifier::truncate] (board_current_ma[i] as i16) as i32);
            hand.push(#[verifier::truncate] (measured_current_ma[i] as i16) as i32);
            i += 1;
            assert(board@ =~= board_spec.take(i as int));
            assert(hand@ =~= hand_spec.take(i as int));
        }
        assert(board@ =~= board_spec);
        assert(hand@ =~= hand_spec);
        let accuracy = average_rpds(&board, &hand);
        calculate_performance_result("Pinpuller current", accuracy, 5, 20)
    }

    /// Each temperature sensor's reading against a known room temperature,
    /// both in kelvin.
    pub fn test_temperature_sensors_against_known_temp(room_temp_k: u16, readings_k: &Vec<u16>) -> (r: Vec<
        PerformanceResult<'static>,
    >)
        requires
            readings_k.len() == 8,
        ensures
            r.len() == 8,
            forall|i: int|
                0 <= i < 8 ==> (#[trigger] r@[i]).accuracy == spec_rpd(readings_k@[i] as int, room_temp_k as int)
                    && r@[i].performance == spec_performance(r@[i].accuracy as int, 5, 20),
    {
        let mut results: Vec<PerformanceResult<'static>> = Vec::new();
        let mut n: u8 = 0;
        while n < 8
            invariant
                readings_k.len() == 8,
                n <= 8,
                results.len() == n,
                forall|i: int|
                    0 <= i < n ==> (#[trigger] results@[i]).accuracy == spec_rpd(
                        readings_k@[i] as int,
                        room_temp_k as int,
                    ) && results@[i].performance == spec_performance(results@[i].accuracy as int, 5, 20),
            decreases 8 - n,
        {
            let name = temperature_sensor_name(n);
            results.push(temperature_result(name, readings_k[n as usize], room_temp_k));
            n += 1;
        }
        results
    }

    /// Two-point temperature test: the sensors are read against two known
    /// temperatures, and each sensor's two accuracies are averaged.
    pub fn two_point_test_temperature_sensor_test(
        first_room_temp_k: u16,
        first_readings_k: &Vec<u16>,
        second_room_temp_k: u16,
        second_readings_k: &Vec<u16>,
    ) -> (r: Vec<PerformanceResult<'static>>)
        requires
            first_readings_k.len() == 8,
            second_readings_k.len() == 8,
        ensures
            r.len() == 8,
            forall|i: int|
                0 <= i < 8 ==> (#[trigger] r@[i]).accuracy == crate::fixed_point::trunc_div(
                    spec_rpd(first_readings_k@[i] as int, first_room_temp_k as int) + spec_rpd(
                        second_readings_k@[i] as int,
                        second_room_temp_k as int,
                    ),
                    2,
                ) && r@[i].performance == spec_performance(r@[i].accuracy as int, 5, 20),
    {
        let first = Self::test_temperature_sensors_against_known_temp(first_room_temp_k, first_readings_k);
        let second = Self::test_temperature_sensors_against_known_temp(second_room_temp_k, second_readings_k);
        let mut results: Vec<PerformanceResult<'static>> = Vec::new();
        let mut n: usize = 0;
        while n < 8
            invariant
                first.len() == 8,
                second.len() == 8,
                first_readings_k.len() == 8,
                second_readings_k.len() == 8,
                forall|i: int|
                    0 <= i < 8 ==> (#[trigger] first@[i]).accuracy == spec_rpd(
                        first_readings_k@[i] as int,
                        first_room_temp_k as int,
                    ),
                forall|i: int|
                    0 <= i < 8 ==> (#[trigger] second@[i]).accuracy == spec_rpd(
                        second_readings_k@[i] as int,
                        second_room_temp_k as int,
                    ),
                n <= 8,
                results.len() == n,
                forall|i: int|
                    0 <= i < n ==> (#[trigger] results@[i]).accuracy == crate::fixed_point::trunc_div(
                        spec_rpd(first_readings_k@[i] as int, first_room_temp_k as int) + spec_rpd(
                            second_readings_k@[i] as int,
                            second_room_temp_k as int,
                        ),
                        2,
                    ) && results@[i].performance == spec_performance(results@[i].accuracy as int, 5, 20),
            decreases 8 - n,
        {
            proof {
                rpd_bounded_antisymmetric(first_readings_k@[n as int] as int, first_room_temp_k as int);
                rpd_bounded_antisymmetric(second_readings_k@[n as int] as int, second_room_temp_k as int);
            }
            results.push(two_point_result(&first[n], &second[n]));
            n += 1;
        }
        results
    }
}

impl ManualFunctionalTests {
    /// Each pinpuller line switched on in turn, its current measured by hand
    /// and compared with the expected on-current (`Q32` bits of milliamps,
    /// its fraction dropped); results are named after the line.
    pub fn pinpuller_functional_test(measured_current_ma: &Vec<i32>, expected_on_current: i64) -> (r: Vec<
        PerformanceResult<'static>,
    >)
        requires
            measured_current_ma.len() == 4,
            0 <= (expected_on_current as int) / q32_one() <= 1000000,
            forall|i: int| 0 <= i < 4 ==> -1000000 <= #[trigger] measured_current_ma@[i] <= 1000000,
        ensures
            r.len() == 4,
            forall|i: int|
                0 <= i < 4 ==> (#[trigger] r@[i]).accuracy == spec_rpd(
                    measured_current_ma@[i] as int,
                    (expected_on_current as int) / q32_one(),
                ) && r@[i].performance == spec_performance(r@[i].accuracy as int, 5, 20),
            r@[0].name@ == "Burn Wire 1"@,
            r@[1].name@ == "Burn Wire 1 backup"@,
            r@[2].name@ == "Burn Wire 2"@,
            r@[3].name@ == "Burn Wire 2 backup"@,
    {
        let mut results: Vec<PerformanceResult<'static>> = Vec::new();
        let mut n: usize = 0;
        while n < 4
            invariant
                measured_current_ma.len() == 4,
                0 <= (expected_on_current as int) / q32_one() <= 1000000,
                forall|i: int| 0 <= i < 4 ==> -1000000 <= #[trigger] measured_current_ma@[i] <= 1000000,
                n <= 4,
                results.len() == n,
                forall|i: int|
                    0 <= i < n ==> (#[trigger] results@[i]).accuracy == spec_rpd(
                        measured_current_ma@[i] as int,
                        (expected_on_current as int) / q32_one(),
                    ) && results@[i].performance == spec_performance(results@[i].accuracy as int, 5, 20),
                n > 0 ==> results@[0].name@ == "Burn Wire 1"@,
                n > 1 ==> results@[1].name@ == "Burn Wire 1 backup"@,
                n > 2 ==> results@[2].name@ == "Burn Wire 2"@,
                n > 3 ==> results@[3].name@ == "Burn Wire 2 backup"@,
            decreases 4 - n,
        {
            let (_line, name) = pin_select(n);
            results.push(pinpuller_current_result(name, measured_current_ma[n], expected_on_current));
            n += 1;
        }
        results
    }
}

} // verus!
