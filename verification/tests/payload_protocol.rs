use kessler_payload::adc::{ADCChannel, TemperatureSensor, TetherSensor, VccType, ADC};
use kessler_payload::dac::{DACChannel, DACCommand, DAC};
use kessler_payload::digipot::{Digipot, DigipotChannel};
use kessler_payload::payload::{
    enforce_bounds, ControlLine, HeaterState, PayloadBuilder, PayloadState, PinWrite, SwitchState,
};
use kessler_payload::pcb_mapping::sensor_locations::{misc_sensor, temperature_sensor, tether_sensor};
use kessler_payload::pcb_mapping::{PayloadPeripherals, PayloadPinTypes};
use kessler_payload::spi::{PayloadSpiOp, SpiFrame};
use kessler_payload::testing::AutomatedFunctionalTests;

struct TestPins;

impl PayloadPinTypes for TestPins {
    type DigipotCs = u8;
    type DacCs = u8;
    type TetherAdcCs = u8;
    type TemperatureAdcCs = u8;
    type MiscAdcCs = u8;
    type ApertureAdcCs = u8;
}

fn peripherals() -> (PayloadPeripherals<TestPins>, SpiFrame) {
    let (dac, reference_frame) = DAC::new(2u8);
    (
        PayloadPeripherals {
            digipot: Digipot::new(1u8),
            dac,
            tether_adc: ADC::<u8, TetherSensor>::new(3u8),
            temperature_adc: ADC::<u8, TemperatureSensor>::new(4u8),
            misc_adc: ADC::<u8, kessler_payload::adc::MiscSensor>::new(5u8),
            aperture_adc: ADC::<u8, kessler_payload::adc::MiscSensor>::new(6u8),
        },
        reference_frame,
    )
}

#[test]
fn dac_starts_with_external_reference() {
    let (_, frame) = peripherals();
    assert_eq!(frame, SpiFrame { len: 24, data: 0x70_0000 });
    assert_eq!(
        DAC::new(0u8).0.send_command(DACCommand::WriteToAndUpdateRegisterX, DACChannel::ChannelD, 4095),
        SpiFrame { len: 24, data: 0x33_FFF0 }
    );
}

#[test]
fn power_sequence_and_supply_frames() {
    let (periph, _) = peripherals();
    let (payload, writes) = PayloadBuilder::build(periph);
    assert_eq!(
        writes,
        vec![
            PinWrite { line: ControlLine::HeaterEnable, high: false },
            PinWrite { line: ControlLine::PayloadEnable, high: false },
        ]
    );
    assert_eq!(payload.power_state(), (PayloadState::PayloadOff, HeaterState::HeaterOff));
    let (payload, enable, reference) = payload.into_enabled_payload();
    assert_eq!(enable, PinWrite { line: ControlLine::PayloadEnable, high: true });
    assert_eq!(reference, SpiFrame { len: 24, data: 0x70_0000 });
    let (payload, heater) = payload.into_enabled_heater();
    assert_eq!(heater, PinWrite { line: ControlLine::HeaterEnable, high: true });
    assert_eq!(payload.power_state(), (PayloadState::PayloadOn, HeaterState::HeaterOn));

    // 3.16 V: 25 851 ohms, wiper count 65 on channel 1 (address 0).
    assert_eq!(payload.set_heater_voltage(3160), SpiFrame { len: 9, data: 65 });
    // Targets are clamped to the supply's range.
    assert_eq!(payload.set_heater_voltage(20000), payload.set_heater_voltage(12000));
    assert_eq!(payload.set_tether_bias_voltage(255000), SpiFrame { len: 24, data: 0x33_FFF0 });
    assert_eq!(payload.set_tether_bias_voltage(400000), payload.set_tether_bias_voltage(255000));
    assert_eq!(payload.set_cathode_offset_voltage(255000), SpiFrame { len: 24, data: 0x32_FE00 });
    assert_eq!(
        payload.set_cathode_offset_switch(SwitchState::Connected),
        PinWrite { line: ControlLine::CathodeSwitch, high: true }
    );
    assert_eq!(
        payload.set_tether_bias_switch(SwitchState::Disconnected),
        PinWrite { line: ControlLine::TetherSwitch, high: false }
    );

    let (payload, off) = payload.into_disabled_heater();
    assert_eq!(off, PinWrite { line: ControlLine::HeaterEnable, high: false });
    let (payload, off) = payload.into_disabled_payload();
    assert_eq!(off, PinWrite { line: ControlLine::PayloadEnable, high: false });
    assert_eq!(payload.power_state(), (PayloadState::PayloadOff, HeaterState::HeaterOff));
}

#[test]
fn readings_from_adc_replies() {
    let (periph, _) = peripherals();
    let (payload, _) = PayloadBuilder::build(periph);
    let (payload, _, _) = payload.into_enabled_payload();
    // Count 0x800 on a 5 V ADC is 2500 mV: 8346 mV at the heater.
    assert_eq!(payload.get_heater_voltage_millivolts(0x0800), 8346);
    assert_eq!(payload.get_pinpuller_current_milliamps(0x0800), 1385);
    // IN0 readings take all 16 received bits.
    assert_eq!(payload.get_repeller_voltage_millivolts(0x0800), (2500 - 2755) * 102);
    let sensor = temperature_sensor(2);
    assert_eq!(sensor.vcc, VccType::Payload);
    // Count 1 on IN2 is 1 mV.
    assert_eq!(payload.get_temperature_kelvin(&sensor, 0x0001), 790);
}

#[test]
fn adc_requests() {
    let adc = ADC::<u8, TetherSensor>::new(0);
    assert_eq!(adc.reading_request(&tether_sensor(ADCChannel::IN0)), PayloadSpiOp::Receive(16));
    assert_eq!(
        adc.reading_request(&tether_sensor(ADCChannel::IN5)),
        PayloadSpiOp::SendReceive(SpiFrame { len: 32, data: 5 << 27 })
    );
    assert_eq!(adc.read_count_from(&tether_sensor(ADCChannel::IN5), 0xABCD_E123), 0x123);
    assert_eq!(adc.read_count_from(&tether_sensor(ADCChannel::IN0), 0xABCD_E123), 0xE123);
    assert_eq!(adc.count_to_voltage(4095), 5000);
    let misc = ADC::<u8, kessler_payload::adc::MiscSensor>::new(0);
    assert_eq!(misc.read_voltage_from(&misc_sensor(ADCChannel::IN1), 0x0FFF), 5000);
    assert_eq!(AutomatedFunctionalTests::adc_test_packet(ADCChannel::IN7), 7 << 27);
    assert!(AutomatedFunctionalTests::adc_reply_valid(0x0FFF_0FFF));
    assert!(!AutomatedFunctionalTests::adc_reply_valid(0x1000_0000));
}

#[test]
fn digipot_counts_and_frames() {
    let pot = Digipot::new(0u8);
    assert_eq!(pot.resistance_to_count(25851), 65);
    assert_eq!(pot.resistance_to_count(50), 0);
    assert_eq!(pot.resistance_to_count(1_000_000), 254);
    assert_eq!(pot.set_channel_to_count(DigipotChannel::Channel2, 7), SpiFrame { len: 9, data: 0x107 });
}

#[test]
fn enforce_bounds_clamps_any_ordered_type() {
    assert_eq!(enforce_bounds(1400u16, 900, 12000), 1400);
    assert_eq!(enforce_bounds(1400u16, 13000, 12000), 12000);
    assert_eq!(enforce_bounds(1400u16, 5000, 12000), 5000);
    assert_eq!(enforce_bounds(-5i64, -9, 5), -5);
    assert_eq!(enforce_bounds('b', 'z', 'k'), 'k');
    let once = enforce_bounds(10u32, 99, 20);
    assert_eq!(enforce_bounds(10u32, once, 20), once);
}
