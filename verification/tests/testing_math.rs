use kessler_payload::testing::heater_mock::{
    power_limited_max_current_ma, CIRCUIT_AND_PROBE_RESISTANCE_MOHMS, CIRCUIT_RESISTANCE_MOHMS,
};
use kessler_payload::testing::pinpuller_mock::{expected_on_current, expected_on_current_from};
use kessler_payload::testing::{
    calculate_performance_result, calculate_rpd, dac_test_setpoint, expected_current_microamps, fixed_sqrt,
    heater_expected_current_ma, heater_full_range_setpoint, heater_test_setpoint,
    in_place_average, pin_select, pinpuller_current_result, pinpuller_test_expected_current_ma, sweep_percent,
    sweep_setpoint, temperature_result, temperature_sensor_name, two_point_result, AccuracyAverage, Performance,
    PerformanceResult, PinpullerLine,
};

const ONE: i64 = 1 << 32;

#[test]
fn rpd_of_exact_measurement_is_zero() {
    assert_eq!(calculate_rpd(1234, 1234), 0);
    assert_eq!(calculate_rpd(0, 0), 0);
    assert_eq!(calculate_rpd(-7, -7), 0);
}

#[test]
fn rpd_exact_values() {
    // (110 - 100) / (110 + 100) in Q32, rounded toward zero.
    assert_eq!(calculate_rpd(110, 100), 204522252);
    assert_eq!(calculate_rpd(102, 100), 42524428);
    assert_eq!(calculate_rpd(300, 315), -104755299);
}

#[test]
fn rpd_extremes_are_one_and_minus_one() {
    assert_eq!(calculate_rpd(0, 5), -ONE);
    assert_eq!(calculate_rpd(5, 0), ONE);
    assert_eq!(calculate_rpd(0, 255000), -ONE);
}

#[test]
fn rpd_is_antisymmetric() {
    for (m, a) in [(110, 100), (3, 7), (-5, 20), (1000, -1000)] {
        assert_eq!(calculate_rpd(a, m), -calculate_rpd(m, a));
        let r = calculate_rpd(m, a);
        assert!(-ONE <= r && r <= ONE);
    }
}

#[test]
fn average_of_first_value_is_that_value() {
    assert_eq!(in_place_average(0, 1 << 30, 0), 1 << 30);
    // The count n + 1 is formed without overflow, even for the largest n.
    assert_eq!(in_place_average(0, 65536i64 << 32, 65535), 1i64 << 32);
}

#[test]
fn average_moves_toward_new_value() {
    let a = in_place_average(0, 204522252, 0);
    assert_eq!(a, 204522252);
    let b = in_place_average(a, calculate_rpd(95, 100), 1);
    assert_eq!(b, 47197443);
    let c = in_place_average(b, 0, 2);
    assert_eq!(c, 31464962);
    assert!(0 <= c && c <= b);
}

#[test]
fn accuracy_average_tracks_in_place_average() {
    let mut avg = AccuracyAverage::new();
    assert_eq!(avg.count(), 0);
    assert_eq!(avg.accuracy(), 0);
    avg.add_measurement(110, 100);
    avg.add_measurement(95, 100);
    avg.add_measurement(100, 100);
    assert_eq!(avg.count(), 3);
    assert_eq!(avg.accuracy(), 31464962);
    let mut other = AccuracyAverage::new();
    other.add_rpd(ONE);
    other.add_rpd(-ONE);
    assert_eq!(other.accuracy(), 0);
}

#[test]
fn performance_categories() {
    let nominal = calculate_performance_result("a", calculate_rpd(102, 100), 5, 20);
    assert_eq!(nominal.performance, Performance::Nominal);
    assert_eq!(nominal.name, "a");
    assert_eq!(nominal.accuracy, 42524428);
    let inaccurate = calculate_performance_result("b", calculate_rpd(2000, 1681), 5, 20);
    assert_eq!(inaccurate.performance, Performance::Inaccurate);
    let broken = calculate_performance_result("c", -ONE, 5, 20);
    assert_eq!(broken.performance, Performance::NotWorking);
    // Exactly at the 5% threshold is no longer nominal.
    let edge = calculate_performance_result("d", 214748364, 5, 20);
    assert_eq!(edge.performance, Performance::Inaccurate);
    let below = calculate_performance_result("e", -214748363, 5, 20);
    assert_eq!(below.performance, Performance::Nominal);
}

#[test]
fn default_result_is_not_working() {
    let r = PerformanceResult::default();
    assert_eq!(r.name, "");
    assert_eq!(r.performance, Performance::NotWorking);
    assert_eq!(r.accuracy, 0);
}

#[test]
fn sweep_percentages_follow_step_by() {
    let got: Vec<u32> = (0..20).filter_map(|i| sweep_percent(10, 10, 100, i)).collect();
    assert_eq!(got, (10..=100u32).step_by(10).collect::<Vec<u32>>());
    let dac: Vec<u32> = (0..20).filter_map(|i| sweep_percent(1, 20, 100, i)).collect();
    assert_eq!(dac, vec![1, 21, 41, 61, 81]);
    let heater: Vec<u32> = (0..20).filter_map(|i| sweep_percent(0, 10, 100, i)).collect();
    assert_eq!(heater.len(), 11);
    assert_eq!(sweep_percent(10, 10, 100, 10), None);
}

#[test]
fn sweep_setpoints() {
    assert_eq!(sweep_setpoint(10, 0, 255000), 25500);
    assert_eq!(sweep_setpoint(100, 0, 255000), 255000);
    assert_eq!(sweep_setpoint(0, 1400, 12000), 1400);
    assert_eq!(sweep_setpoint(50, 1400, 12000), 6700);
    assert_eq!(heater_test_setpoint(0), 1400);
    assert_eq!(heater_test_setpoint(50), 1700);
    assert_eq!(heater_test_setpoint(100), 2000);
    assert_eq!(heater_full_range_setpoint(100), 12000);
    assert_eq!(dac_test_setpoint(1), 50);
    assert_eq!(dac_test_setpoint(81), 4050);
}

#[test]
fn expected_currents() {
    // 25.5 V across 98 150 + 1 ohms.
    assert_eq!(expected_current_microamps(25500, 98150), 259);
    assert_eq!(expected_current_microamps(255000, 98300), 2594);
    assert_eq!(pinpuller_test_expected_current_ma(3300), 1678);
    assert_eq!(pinpuller_test_expected_current_ma(400), 203);
}

#[test]
fn fixed_sqrt_values() {
    assert_eq!(fixed_sqrt(0), 0);
    assert_eq!(fixed_sqrt(4 * ONE), 2 * ONE);
    assert_eq!(fixed_sqrt(ONE), ONE);
    assert_eq!(fixed_sqrt(429067661), 1357509326);
}

#[test]
fn heater_mock_values() {
    assert_eq!(CIRCUIT_RESISTANCE_MOHMS, 10010);
    assert_eq!(CIRCUIT_AND_PROBE_RESISTANCE_MOHMS, 10100);
    assert_eq!(power_limited_max_current_ma(), 1357509326000);
    assert_eq!(heater_expected_current_ma(1400, CIRCUIT_RESISTANCE_MOHMS), 139);
    assert_eq!(heater_expected_current_ma(3160, CIRCUIT_RESISTANCE_MOHMS), 315);
    // Above the power limit the current is capped at 316 mA.
    assert_eq!(heater_expected_current_ma(12000, CIRCUIT_RESISTANCE_MOHMS), 316);
    assert_eq!(heater_expected_current_ma(2000, CIRCUIT_AND_PROBE_RESISTANCE_MOHMS), 198);
}

#[test]
fn pinpuller_mock_values() {
    assert_eq!(expected_on_current(), Some(7223951110124));
    assert_eq!(7223951110124i64 >> 32, 1681);
    assert_eq!(
        expected_on_current_from(944892805, 352187318, 1717986918, 5153960755, 128849019),
        7223951110124
    );
}

#[test]
fn pin_select_names() {
    assert_eq!(pin_select(0), (PinpullerLine::BurnWire1, "Burn Wire 1"));
    assert_eq!(pin_select(1), (PinpullerLine::BurnWire1Backup, "Burn Wire 1 backup"));
    assert_eq!(pin_select(2), (PinpullerLine::BurnWire2, "Burn Wire 2"));
    assert_eq!(pin_select(3), (PinpullerLine::BurnWire2Backup, "Burn Wire 2 backup"));
    assert_eq!(pin_select(9).0, PinpullerLine::BurnWire2Backup);
}

#[test]
fn temperature_results() {
    assert_eq!(temperature_sensor_name(0), "LMS Emitter");
    assert_eq!(temperature_sensor_name(7), "MSP 3V3 supply");
    let r = temperature_result(temperature_sensor_name(2), 310, 298);
    assert_eq!(r.name, "MSP430");
    assert_eq!(r.accuracy, 84769091);
    assert_eq!(r.performance, Performance::Nominal);
    let first = calculate_performance_result("x", calculate_rpd(110, 100), 5, 20);
    let second = calculate_performance_result("x", calculate_rpd(95, 100), 5, 20);
    let both = two_point_result(&first, &second);
    assert_eq!(both.accuracy, 47197443);
    assert_eq!(both.name, "x");
}

#[test]
fn pinpuller_current_against_expected() {
    let expected = expected_on_current().unwrap();
    let r = pinpuller_current_result("Burn Wire 1", 1700, expected);
    assert_eq!(r.accuracy, 24136166);
    assert_eq!(r.performance, Performance::Nominal);
    let far = pinpuller_current_result("Burn Wire 1", 2000, expected);
    assert_eq!(far.performance, Performance::Inaccurate);
}
