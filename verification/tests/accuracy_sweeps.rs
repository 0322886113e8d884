use kessler_payload::testing::{HeaterTestStep, LmsTestStep};
use kessler_payload::adc::{MiscSensor, TemperatureSensor, TetherSensor, ADC};
use kessler_payload::dac::{DACChannel, DACCommand, DAC};
use kessler_payload::digipot::Digipot;
use kessler_payload::payload::{ControlLine, PinWrite};
use kessler_payload::pcb_mapping::PayloadPinTypes;
use kessler_payload::sensors::PayloadBuilder;
use kessler_payload::serial::PrintableFixedI64;
use kessler_payload::spi::{required_bus_mode, PayloadPeripheral, SckPhase, SckPolarity, SpiFrame};
use kessler_payload::testing::pinpuller_mock::expected_on_current;
use kessler_payload::testing::sweeps::{average_rpds, setpoints, HvdcTestAction};
use kessler_payload::testing::{
    calculate_rpd, milli_rpd, AutomatedFunctionalTests, AutomatedPerformanceTests, ManualFunctionalTests,
    ManualPerformanceTests, Performance,
};

const ONE: i64 = 1 << 32;

fn hvdc_points() -> Vec<i32> {
    vec![25500, 51000, 76500, 102000, 127500, 153000, 178500, 204000, 229500, 255000]
}

#[test]
fn sweep_setpoint_lists() {
    assert_eq!(setpoints(10, 10, 10, 0, 255000), hvdc_points());
    assert_eq!(setpoints(1, 20, 5, 0, 5000), vec![50, 1050, 2050, 3050, 4050]);
    assert_eq!(setpoints(0, 10, 11, 1400, 2000), vec![1400, 1460, 1520, 1580, 1640, 1700, 1760, 1820, 1880, 1940, 2000]);
}

#[test]
fn average_of_rpds_in_order() {
    assert_eq!(average_rpds(&vec![110, 95, 100], &vec![100, 100, 100]), 31464962);
    assert_eq!(average_rpds(&vec![], &vec![]), 0);
}

#[test]
fn cathode_offset_sweep_results() {
    let volts: Vec<i32> = hvdc_points().iter().map(|v| v + 1000).collect();
    let amps = vec![257, 516, 776, 1035, 1295, 1554, 1813, 2073, 2332, 2592];
    let [v, a] = AutomatedPerformanceTests::test_cathode_offset(&volts, &amps);
    assert_eq!(v.name, "Cathode offset voltage");
    assert_eq!(v.accuracy, 24414222);
    assert_eq!(v.performance, Performance::Nominal);
    assert_eq!(a.name, "Cathode offset current");
    assert_eq!(a.accuracy, -4863993);
    let acc = AutomatedPerformanceTests::test_hvdc_supply(0, 255000, 98300, &volts, &amps);
    assert_eq!(acc, [24414222, -4863993]);
}

#[test]
fn exact_sweeps_are_perfect() {
    let [v, _] = AutomatedPerformanceTests::test_tether_bias(&hvdc_points(), &vec![259, 518, 778, 1037, 1297, 1556, 1815, 2075, 2334, 2594]);
    assert_eq!(v.accuracy, 0);
    assert_eq!(v.name, "Tether bias voltage");
    let [r] = AutomatedPerformanceTests::test_repeller_voltage(&hvdc_points());
    assert_eq!(r.name, "Repeller voltage");
    assert_eq!(r.accuracy, 0);
    let low: Vec<i32> = setpoints(10, 10, 10, 0, 200000);
    assert_eq!(AutomatedPerformanceTests::test_cathode_offset_voltage(&low).accuracy, 0);
    assert_eq!(AutomatedPerformanceTests::test_tether_bias_voltage(&low).name, "Tether bias voltage");
    assert_eq!(ManualPerformanceTests::test_dac(&vec![50, 1050, 2050, 3050, 4050]).accuracy, 0);
}

#[test]
fn heater_sweep_results() {
    let volts: Vec<u16> = vec![1410, 1470, 1530, 1590, 1650, 1710, 1770, 1830, 1890, 1950, 2010];
    let amps: Vec<i16> = vec![142, 148, 154, 160, 166, 172, 178, 184, 190, 196, 202];
    let [v, a] = AutomatedPerformanceTests::test_heater(&volts, &amps);
    assert_eq!(v.accuracy, 12754720);
    assert_eq!(a.accuracy, 38264158);
    assert_eq!(a.name, "Heater current");
}

#[test]
fn manual_sweep_results() {
    let dac = ManualPerformanceTests::test_dac(&vec![100, 1100, 2100, 3100, 4100]);
    assert_eq!(dac.accuracy, 328910649);
    assert_eq!(dac.performance, Performance::Inaccurate);
    assert_eq!(dac.name, "Cathode offset voltage");
    let board = vec![100; 11];
    let hand = vec![110; 11];
    let r = ManualPerformanceTests::test_cathode_offset_current(&board, &hand);
    assert_eq!(r.accuracy, calculate_rpd(100, 110));
    assert_eq!(r.name, "Cathode offset current");
    let r = ManualPerformanceTests::test_tether_bias_current(&vec![5; 10], &vec![5; 10]);
    assert_eq!(r.accuracy, 0);
    let r = ManualPerformanceTests::test_heater_voltage(&vec![1400u16; 11], &vec![1400; 11]);
    assert_eq!(r.performance, Performance::Nominal);
    let r = ManualPerformanceTests::test_heater_current(&vec![-5i16; 11], &vec![5; 11]);
    assert_eq!(r.accuracy, -ONE);
    let r = ManualPerformanceTests::test_pinpuller_current(&vec![1000u16; 9], &vec![900; 9]);
    // 100 / 1900 in Q32 bits, between 5% and 20%.
    assert_eq!((r.name, r.performance, r.accuracy), ("Pinpuller current", Performance::Inaccurate, 226050910));
    let r = ManualPerformanceTests::test_pinpuller_current(&vec![2u16; 9], &vec![1; 9]);
    assert_eq!((r.performance, r.accuracy), (Performance::NotWorking, 1431655765));
    let r = ManualPerformanceTests::test_repeller_voltage(0, 1000, &vec![100, 200, 300, 400, 500, 600, 700, 800, 900, 1000]);
    assert_eq!(r.accuracy, 0);
    assert_eq!(ManualPerformanceTests::test_cathode_offset_voltage(&hvdc_points()).accuracy, 0);
    assert_eq!(ManualPerformanceTests::test_tether_bias_voltage(&hvdc_points()).accuracy, 0);
}

#[test]
fn pinpuller_and_temperature_results() {
    let expected = expected_on_current().unwrap();
    let r = AutomatedPerformanceTests::test_pinpuller_current_sensor(&vec![1700, 1690, 1600, 1681], expected);
    assert_eq!(r.accuracy, -17607353);
    let lines = ManualFunctionalTests::pinpuller_functional_test(&vec![1681, 1700, 0, 3000], expected);
    assert_eq!(lines[0].name, "Burn Wire 1");
    assert_eq!(lines[3].name, "Burn Wire 2 backup");
    assert_eq!(lines[0].accuracy, 0);
    assert_eq!(lines[2].performance, Performance::NotWorking);
    let readings = vec![298u16; 8];
    let first = ManualPerformanceTests::test_temperature_sensors_against_known_temp(298, &readings);
    assert!(first.iter().all(|r| r.accuracy == 0));
    assert_eq!(first[4].name, "HVDC Supplies");
    let both = ManualPerformanceTests::two_point_test_temperature_sensor_test(298, &vec![310; 8], 298, &vec![298; 8]);
    assert_eq!(both[0].accuracy, 84769091 / 2);
}

#[test]
fn functional_results() {
    let r = AutomatedFunctionalTests::tether_adc_functional_test(0x0123_0456);
    assert!(r.result);
    assert_eq!(r.name, "Tether ADC");
    assert!(!AutomatedFunctionalTests::aperture_adc_functional_test(0xFFFF_FFFF).result);
    assert_eq!(AutomatedFunctionalTests::temperature_adc_functional_test(0).name, "Temperature ADC");
    assert_eq!(AutomatedFunctionalTests::misc_adc_functional_test(0).name, "Misc ADC");
    let pins = AutomatedFunctionalTests::pinpuller_functional_test([1001, 1000, 0, 2000]);
    assert_eq!(pins.iter().map(|r| r.result).collect::<Vec<_>>(), vec![true, false, false, true]);
    assert_eq!(pins[1].name, "Pinpuller channel 1 backup");
    let lms = AutomatedFunctionalTests::lms_functional_test([201, 200, 0], [100, 100, 0]);
    assert_eq!(lms.iter().map(|r| r.result).collect::<Vec<_>>(), vec![true, false, false]);
    let heater = AutomatedFunctionalTests::heater_functional_test(1539, 10801);
    assert!(heater.result);
    assert!(!AutomatedFunctionalTests::heater_functional_test(1540, 10801).result);
    assert!(!AutomatedFunctionalTests::heater_functional_test(1539, 10800).result);
    // Both readings must be within 10% of their targets, on either side.
    assert!(!AutomatedFunctionalTests::heater_functional_test(0, 12000).result);
    assert!(AutomatedFunctionalTests::heater_functional_test(1261, 13199).result);
    assert!(!AutomatedFunctionalTests::heater_functional_test(1260, 12000).result);
    assert!(!AutomatedFunctionalTests::heater_functional_test(1400, 13200).result);
    let switches = ManualFunctionalTests::endmass_switches_functional_test([true, true], [true, false]);
    assert!(switches[0].result && !switches[1].result);
    assert_eq!(ManualPerformanceTests::celcius_to_kelvin(25), 298);
    assert_eq!(ManualPerformanceTests::celcius_to_kelvin(-300), 65509);
}

#[test]
fn printing_helpers() {
    assert_eq!(milli_rpd(calculate_rpd(110, 100)), 47);
    assert_eq!(milli_rpd(-calculate_rpd(110, 100)), -48);
    assert_eq!(milli_rpd(ONE), 1000);
    let p = PrintableFixedI64 { bits: ONE + ONE / 2 }.decimal_parts();
    assert_eq!((p.negative, p.integer, p.fraction_digits), (false, 1, vec![5]));
    let p = PrintableFixedI64 { bits: -(2 * ONE + ONE / 4) }.decimal_parts();
    assert_eq!((p.negative, p.integer, p.fraction_digits), (true, 2, vec![2, 5]));
    let p = PrintableFixedI64 { bits: ONE / 3 }.decimal_parts();
    assert_eq!(p.fraction_digits, vec![3, 3, 3, 3, 3, 3, 3, 3, 3, 2]);
    assert!(PrintableFixedI64 { bits: 0 }.decimal_parts().fraction_digits.is_empty());
}

#[test]
fn bus_modes() {
    assert_eq!(required_bus_mode(PayloadPeripheral::Adc), (SckPolarity::IdleHigh, SckPhase::SampleFirstEdge));
    assert_eq!(required_bus_mode(PayloadPeripheral::Dac), (SckPolarity::IdleLow, SckPhase::SampleFirstEdge));
    assert_eq!(required_bus_mode(PayloadPeripheral::Digipot), (SckPolarity::IdleLow, SckPhase::SampleFirstEdge));
}

struct Pins;

impl PayloadPinTypes for Pins {
    type DigipotCs = u8;
    type DacCs = u8;
    type TetherAdcCs = u8;
    type TemperatureAdcCs = u8;
    type MiscAdcCs = u8;
    type ApertureAdcCs = u8;
}

#[test]
fn earlier_controller() {
    let (ctl, w) = PayloadBuilder::new_disabled_payload::<Pins>(
        ADC::<u8, TetherSensor>::new(1),
        ADC::<u8, TemperatureSensor>::new(2),
        ADC::<u8, MiscSensor>::new(3),
        DAC::new(4).0,
        Digipot::new(5),
    );
    assert_eq!(w, PinWrite { line: ControlLine::PayloadEnable, high: false });
    assert_eq!(ctl.get_pinpuller_current_milliamps(0x0800), 1385);
    // The length-measurement reading of this interface is the pinpuller one.
    assert_eq!(ctl.get_lms_voltage_millivolts(0x0800), 1385);
    let (ctl, w) = ctl.into_enabled_payload();
    assert_eq!(w, PinWrite { line: ControlLine::PayloadEnable, high: true });
    assert_eq!(ctl.set_heater_voltage(3160), SpiFrame { len: 9, data: 65 });
    assert_eq!(ctl.get_heater_voltage_millivolts(0x0800), 8346);
    let (ctl, writes) = ctl.into_disabled_payload();
    assert_eq!(writes[0], PinWrite { line: ControlLine::HeaterEnable, high: false });
    let (_, _, misc, _, pot) = ctl.return_parts();
    assert_eq!((misc.cs_pin, pot.cs_pin), (3, 5));
    let (ctl, w) = PayloadBuilder::new_enabled_payload::<Pins>(
        ADC::<u8, TetherSensor>::new(1),
        ADC::<u8, TemperatureSensor>::new(2),
        ADC::<u8, MiscSensor>::new(3),
        DAC::new(4).0,
        Digipot::new(5),
    );
    assert_eq!(w, PinWrite { line: ControlLine::PayloadEnable, high: true });
    // 0x800 of 4095 counts at 5 V reads 2500 mV: (4444 - 2500) * 43 / 10000.
    assert_eq!(ctl.get_aperture_current_milliamps(0x0800), 8);
}

#[test]
fn dac_test_sends_channel_c_then_zeroes_it() {
    let (dac, _) = DAC::new(4u8);
    let frames = ManualPerformanceTests::dac_test_frames(&dac);
    assert_eq!(frames.len(), 6);
    for (frame, count) in frames.iter().zip([40u16, 859, 1678, 2497, 3316, 0]) {
        assert_eq!(*frame, dac.send_command(DACCommand::WriteToAndUpdateRegisterX, DACChannel::ChannelC, count));
    }
}

#[test]
fn hvdc_test_connects_sweeps_zeroes_and_disconnects() {
    let actions = AutomatedPerformanceTests::hvdc_test_actions(0, 255_000);
    assert_eq!(actions.len(), 23);
    assert_eq!(actions[0], HvdcTestAction::Connect);
    for k in 0..10u32 {
        assert_eq!(actions[1 + 2 * k as usize], HvdcTestAction::SetVoltage(25_500 * (k + 1)));
        assert_eq!(actions[2 + 2 * k as usize], HvdcTestAction::Measure);
    }
    assert_eq!(actions[21], HvdcTestAction::SetVoltage(0));
    assert_eq!(actions[22], HvdcTestAction::Disconnect);
    // A sweep from a higher to a lower end runs downwards.
    let down = AutomatedPerformanceTests::hvdc_test_actions(1000, 0);
    assert_eq!(down[1], HvdcTestAction::SetVoltage(900));
    assert_eq!(down[19], HvdcTestAction::SetVoltage(0));
}

#[test]
fn hvdc_supply_accepts_the_widest_range_and_reversed_ends() {
    let top = 4_294_967u32;
    let volts = setpoints(10, 10, 10, 0, top);
    let expected_amps: Vec<i32> = volts.iter().map(|v| ((1000 * *v as u32) / 10) as i32).collect();
    let r = AutomatedPerformanceTests::test_hvdc_supply(0, top, 9, &volts, &expected_amps);
    assert_eq!(r, [0, 0]);
    let down = setpoints(10, 10, 10, 1000, 0);
    assert_eq!(down[0], 900);
    assert_eq!(AutomatedPerformanceTests::test_hvdc_supply_voltage(1000, 0, &down), 0);
}

#[test]
fn aperture_test_sweeps_the_heater_in_100_mv_steps() {
    let points = AutomatedPerformanceTests::aperture_test_heater_setpoints();
    assert_eq!(points.len(), 22);
    assert_eq!((points[0], points[1], points[21]), (900, 1000, 3000));
    assert_eq!(kessler_payload::testing::sweeps::APERTURE_TEST_CYCLES, 3);
}

#[test]
fn lms_and_heater_test_plans() {
    assert_eq!(
        AutomatedFunctionalTests::lms_test_steps(),
        vec![
            LmsTestStep::LedEnable(false),
            LmsTestStep::ReceiverEnable(true),
            LmsTestStep::Wait(100_000),
            LmsTestStep::ReadAmbient,
            LmsTestStep::LedEnable(true),
            LmsTestStep::Wait(100_000),
            LmsTestStep::ReadLit,
            LmsTestStep::ReceiverEnable(false),
            LmsTestStep::LedEnable(false)
        ]
    );
    let heater = AutomatedFunctionalTests::heater_test_steps();
    assert_eq!(heater.len(), 8);
    assert_eq!(heater[0], HeaterTestStep::SetVoltage(1400));
    assert_eq!(heater[3], HeaterTestStep::SetVoltage(12000));
    assert_eq!(heater[6], HeaterTestStep::SetVoltage(1400));
    assert_eq!(heater[7], HeaterTestStep::Wait(1_000_000));
}
