//! The earlier payload controller: the payload's SPI peripherals under a
//! power typestate, without heater control. Pin writes and SPI frames are
//! returned to the caller, which drives the pins and the bus.
use vstd::prelude::*;
use core::marker::PhantomData;
use crate::adc::{ADC, TetherSensor, TemperatureSensor, MiscSensor, spec_count_from_reply, spec_count_to_voltage};
use crate::dac::{DAC, DACCommand, spec_command_frame, spec_voltage_to_count};
use crate::digipot::Digipot;
use crate::payload::{ControlLine, PinWrite, enforce_bounds, lemma_enforce_bounds_u16, lemma_enforce_bounds_u32,
    spec_heater_frame, spec_tether_bias_frame, spec_cathode_offset_frame};
use crate::pcb_mapping::PayloadPinTypes;
use crate::pcb_mapping::power_supply_limits::{
    HEATER_MAX_VOLTAGE_MILLIVOLTS, HEATER_MIN_VOLTAGE_MILLIVOLTS, TETHER_BIAS_MAX_VOLTAGE_MILLIVOLTS,
    TETHER_BIAS_MIN_VOLTAGE_MILLIVOLTS, CATHODE_OFFSET_MAX_VOLTAGE_MILLIVOLTS, CATHODE_OFFSET_MIN_VOLTAGE_MILLIVOLTS,
};
use crate::pcb_mapping::power_supply_locations::{
    CATHODE_OFFSET_SUPPLY_CONTROL_CHANNEL, HEATER_DIGIPOT_CHANNEL, TETHER_BIAS_SUPPLY_CONTROL_CHANNEL,
};
use crate::pcb_mapping::power_supply_equations::{
    heater_target_voltage_to_digipot_resistance, tether_bias_target_voltage_to_dac_voltage,
    cathode_offset_target_voltage_to_dac_voltage,
};
use crate::pcb_mapping::sensor_locations::{
    misc_sensor, tether_sensor, APERTURE_CURRENT_CHANNEL, PINPULLER_CURRENT_CHANNEL, HEATER_VOLTAGE_CHANNEL,
    HEATER_CURRENT_CHANNEL, TETHER_BIAS_VOLTAGE_CHANNEL, TETHER_BIAS_CURRENT_CHANNEL, CATHODE_OFFSET_VOLTAGE_CHANNEL,
    CATHODE_OFFSET_CURRENT_CHANNEL, REPELLER_VOLTAGE_CHANNEL,
};
use crate::pcb_mapping::sensor_equations::{
    lms_temperature_eq, payload_temperature_eq, aperture_current_sensor_eq, pinpuller_current_sensor_eq,
    heater_voltage_eq, heater_current_eq, tether_bias_voltage_eq, tether_bias_current_eq, cathode_offset_voltage_eq,
    cathode_offset_current_eq, repeller_voltage_eq, spec_temperature_kelvin, spec_aperture_current,
    spec_heater_voltage, spec_heater_current,
};
use crate::fixed_point::trunc_div;
use crate::sensors::{PayloadOn, PayloadOff, PayloadState};
use crate::spi::SpiFrame;

verus! {

/// Millivolts an ADC with supply `vcc` reports on `channel` in the word it
/// answered.
pub open spec fn spec_reading(channel: crate::adc::ADCChannel, reply: u32, vcc: u16) -> int {
    spec_count_to_voltage(spec_count_from_reply(channel, reply), vcc as int)
}

/// The payload's peripherals in power state `STATE`.
pub struct PayloadController<P: PayloadPinTypes, STATE: PayloadState> {
    pub tether_adc: ADC<P::TetherAdcCs, TetherSensor>,
    pub temperature_adc: ADC<P::TemperatureAdcCs, TemperatureSensor>,
    pub misc_adc: ADC<P::MiscAdcCs, MiscSensor>,
    pub dac: DAC<P::DacCs>,
    pub digipot: Digipot<P::DigipotCs>,
    pub _state: PhantomData<STATE>,
}

impl crate::sensors::PayloadBuilder {
    /// A controller for a powered payload, with the pin write that powers it.
    pub fn new_enabled_payload<P: PayloadPinTypes>(
        tether_adc: ADC<P::TetherAdcCs, TetherSensor>,
        temperature_adc: ADC<P::TemperatureAdcCs, TemperatureSensor>,
        misc_adc: ADC<P::MiscAdcCs, MiscSensor>,
        dac: DAC<P::DacCs>,
        digipot: Digipot<P::DigipotCs>,
    ) -> (r: (PayloadController<P, PayloadOn>, PinWrite))
        ensures
            r.0.tether_adc == tether_adc,
            r.0.temperature_adc == temperature_adc,
            r.0.misc_adc == misc_adc,
            r.0.dac == dac,
            r.0.digipot == digipot,
            r.1 == (PinWrite { line: ControlLine::PayloadEnable, high: true }),
    {
        (
            PayloadController { tether_adc, temperature_adc, misc_adc, dac, digipot, _state: PhantomData },
            PinWrite { line: ControlLine::PayloadEnable, high: true },
        )
    }

    /// A controller for an unpowered payload, with the pin write that turns
    /// it off.
    pub fn new_disabled_payload<P: PayloadPinTypes>(
        tether_adc: ADC<P::TetherAdcCs, TetherSensor>,
        temperature_adc: ADC<P::TemperatureAdcCs, TemperatureSensor>,
        misc_adc: ADC<P::MiscAdcCs, MiscSensor>,
        dac: DAC<P::DacCs>,
        digipot: Digipot<P::DigipotCs>,
    ) -> (r: (PayloadController<P, PayloadOff>, PinWrite))
        ensures
            r.0.tether_adc == tether_adc,
            r.0.temperature_adc == temperature_adc,
            r.0.misc_adc == misc_adc,
            r.0.dac == dac,
            r.0.digipot == digipot,
            r.1 == (PinWrite { line: ControlLine::PayloadEnable, high: false }),
    {
        (
            PayloadController { tether_adc, temperature_adc, misc_adc, dac, digipot, _state: PhantomData },
            PinWrite { line: ControlLine::PayloadEnable, high: false },
        )
    }
}

impl<P: PayloadPinTypes, STATE: PayloadState> PayloadController<P, STATE> {
    /// Consumes the controller and returns its peripherals.
    pub fn return_parts(self) -> (parts: (
        ADC<P::TetherAdcCs, TetherSensor>,
        ADC<P::TemperatureAdcCs, TemperatureSensor>,
        ADC<P::MiscAdcCs, MiscSensor>,
        DAC<P::DacCs>,
        Digipot<P::DigipotCs>,
    ))
        ensures
            parts.0 == self.tether_adc,
            parts.1 == self.temperature_adc,
            parts.2 == self.misc_adc,
            parts.3 == self.dac,
            parts.4 == self.digipot,
    {
        (self.tether_adc, self.temperature_adc, self.misc_adc, self.dac, self.digipot)
    }

    /// Length-measurement temperature (kelvin) from the temperature ADC's
    /// answer; the reading must lie in 1..=720 mV.
    pub fn get_lms_temperature_kelvin(&self, temp_sensor: &TemperatureSensor, reply: u32) -> (kelvin: u16)
        requires
            1 <= spec_reading(temp_sensor.channel, reply, self.temperature_adc.vcc_millivolts) <= 720,
        ensures
            kelvin == spec_temperature_kelvin(
                spec_reading(temp_sensor.channel, reply, self.temperature_adc.vcc_millivolts),
                3300,
            ),
    {
        let adc_voltage = self.temperature_adc.read_voltage_from(temp_sensor, reply);
        lms_temperature_eq(adc_voltage)
    }

    /// Payload temperature (kelvin) from the temperature ADC's answer; the
    /// reading must lie in 1..=720 mV.
    pub fn get_payload_temperature_kelvin(&self, temp_sensor: &TemperatureSensor, reply: u32) -> (kelvin: u16)
        requires
            1 <= spec_reading(temp_sensor.channel, reply, self.temperature_adc.vcc_millivolts) <= 720,
        ensures
            kelvin == spec_temperature_kelvin(
                spec_reading(temp_sensor.channel, reply, self.temperature_adc.vcc_millivolts),
                5000,
            ),
    {
        let adc_voltage = self.temperature_adc.read_voltage_from(temp_sensor, reply);
        payload_temperature_eq(adc_voltage)
    }

    /// Aperture current from the miscellaneous ADC's answer.
    pub fn get_aperture_current_milliamps(&self, reply: u32) -> (current: u16)
        ensures
            current == spec_aperture_current(
                spec_reading(APERTURE_CURRENT_CHANNEL, reply, self.misc_adc.vcc_millivolts),
            ),
    {
        let adc_voltage = self.misc_adc.read_voltage_from(&misc_sensor(APERTURE_CURRENT_CHANNEL), reply);
        aperture_current_sensor_eq(adc_voltage)
    }

    /// Pinpuller current (milliamps) from the miscellaneous ADC's answer.
    pub fn get_pinpuller_current_milliamps(&self, reply: u32) -> (ma: u16)
        ensures
            ma == spec_reading(PINPULLER_CURRENT_CHANNEL, reply, self.misc_adc.vcc_millivolts) * 1000 / 1804,
    {
        let adc_voltage = self.misc_adc.read_voltage_from(&misc_sensor(PINPULLER_CURRENT_CHANNEL), reply);
        pinpuller_current_sensor_eq(adc_voltage)
    }

    /// The length-measurement reading of this interface: it reads the
    /// pinpuller current channel and applies the pinpuller equation.
    pub fn get_lms_voltage_millivolts(&self, reply: u32) -> (mv: u16)
        ensures
            mv == spec_reading(PINPULLER_CURRENT_CHANNEL, reply, self.misc_adc.vcc_millivolts) * 1000 / 1804,
    {
        let adc_voltage = self.misc_adc.read_voltage_from(&misc_sensor(PINPULLER_CURRENT_CHANNEL), reply);
        pinpuller_current_sensor_eq(adc_voltage)
    }
}

impl<P: PayloadPinTypes> PayloadController<P, PayloadOff> {
    /// Powers the payload: the controller and the pin write.
    pub fn into_enabled_payload(self) -> (r: (PayloadController<P, PayloadOn>, PinWrite))
        ensures
            r.0.tether_adc == self.tether_adc,
            r.0.temperature_adc == self.temperature_adc,
            r.0.misc_adc == self.misc_adc,
            r.0.dac == self.dac,
            r.0.digipot == self.digipot,
            r.1 == (PinWrite { line: ControlLine::PayloadEnable, high: true }),
    {
        (
            PayloadController {
                tether_adc: self.tether_adc,
                temperature_adc: self.temperature_adc,
                misc_adc: self.misc_adc,
                dac: self.dac,
                digipot: self.digipot,
                _state: PhantomData,
            },
            PinWrite { line: ControlLine::PayloadEnable, high: true },
        )
    }
}

impl<P: PayloadPinTypes> PayloadController<P, PayloadOn> {
    /// Turns the payload off: the controller and the pin writes, heater
    /// first.
    pub fn into_disabled_payload(self) -> (r: (PayloadController<P, PayloadOff>, [PinWrite; 2]))
        ensures
            r.0.tether_adc == self.tether_adc,
            r.0.temperature_adc == self.temperature_adc,
            r.0.misc_adc == self.misc_adc,
            r.0.dac == self.dac,
            r.0.digipot == self.digipot,
            r.1[0] == (PinWrite { line: ControlLine::HeaterEnable, high: false }),
            r.1[1] == (PinWrite { line: ControlLine::PayloadEnable, high: false }),
    {
        (
            PayloadController {
                tether_adc: self.tether_adc,
                temperature_adc: self.temperature_adc,
                misc_adc: self.misc_adc,
                dac: self.dac,
                digipot: self.digipot,
                _state: PhantomData,
            },
            [
                PinWrite { line: ControlLine::HeaterEnable, high: false },
                PinWrite { line: ControlLine::PayloadEnable, high: false },
            ],
        )
    }

    /// The digipot frame that sets the heater supply (target clamped to
    /// 1400..=12000 mV).
    pub fn set_heater_voltage(&self, target_millivolts: u16) -> (frame: SpiFrame)
        ensures
            frame == spec_heater_frame(target_millivolts),
    {
        let target = enforce_bounds(HEATER_MIN_VOLTAGE_MILLIVOLTS, target_millivolts, HEATER_MAX_VOLTAGE_MILLIVOLTS);
        proof {
            lemma_enforce_bounds_u16(HEATER_MIN_VOLTAGE_MILLIVOLTS, target_millivolts, HEATER_MAX_VOLTAGE_MILLIVOLTS);
        }
        let resistance = heater_target_voltage_to_digipot_resistance(target as u32);
        self.digipot.set_channel_to_resistance(HEATER_DIGIPOT_CHANNEL, resistance)
    }

    /// Heater voltage (millivolts) from the tether ADC's answer.
    pub fn get_heater_voltage_millivolts(&self, reply: u32) -> (mv: u16)
        ensures
            mv == spec_heater_voltage(spec_reading(HEATER_VOLTAGE_CHANNEL, reply, self.tether_adc.vcc_millivolts)),
    {
        let adc_millivolts = self.tether_adc.read_voltage_from(&tether_sensor(HEATER_VOLTAGE_CHANNEL), reply);
        heater_voltage_eq(adc_millivolts)
    }

    /// Heater current (milliamps) from the tether ADC's answer.
    pub fn get_heater_current_milliamps(&self, reply: u32) -> (ma: i16)
        ensures
            ma == spec_heater_current(spec_reading(HEATER_CURRENT_CHANNEL, reply, self.tether_adc.vcc_millivolts)),
    {
        let adc_millivolts = self.tether_adc.read_voltage_from(&tether_sensor(HEATER_CURRENT_CHANNEL), reply);
        heater_current_eq(adc_millivolts)
    }

    /// The DAC frame that sets the tether bias supply (target clamped to
    /// 0..=255_000 mV).
    pub fn set_tether_bias_voltage(&self, target_millivolts: u32) -> (frame: SpiFrame)
        ensures
            frame == spec_tether_bias_frame(target_millivolts),
    {
        let target = enforce_bounds(
            TETHER_BIAS_MIN_VOLTAGE_MILLIVOLTS,
            target_millivolts,
            TETHER_BIAS_MAX_VOLTAGE_MILLIVOLTS,
        );
        proof {
            lemma_enforce_bounds_u32(TETHER_BIAS_MIN_VOLTAGE_MILLIVOLTS, target_millivolts, TETHER_BIAS_MAX_VOLTAGE_MILLIVOLTS);
            crate::wrap::lemma_div_le_bound(target as int, 51, 5000);
        }
        let dac_voltage = tether_bias_target_voltage_to_dac_voltage(target);
        let count = self.dac.voltage_to_count(dac_voltage);
        self.dac.send_command(DACCommand::WriteToAndUpdateRegisterX, TETHER_BIAS_SUPPLY_CONTROL_CHANNEL, count)
    }

    /// Tether bias voltage (millivolts) from the tether ADC's answer.
    pub fn get_tether_bias_voltage_millivolts(&self, reply: u32) -> (mv: i32)
        ensures
            mv == spec_reading(TETHER_BIAS_VOLTAGE_CHANNEL, reply, self.tether_adc.vcc_millivolts) * 106 + 805,
    {
        let adc_voltage = self.tether_adc.read_voltage_from(&tether_sensor(TETHER_BIAS_VOLTAGE_CHANNEL), reply);
        tether_bias_voltage_eq(adc_voltage)
    }

    /// Tether bias current (microamps) from the tether ADC's answer; readings
    /// above 43.3 V at the ADC overflow the equation and are refused.
    pub fn get_tether_bias_current_microamps(&self, reply: u32) -> (ua: i32)
        requires
            spec_reading(TETHER_BIAS_CURRENT_CHANNEL, reply, self.tether_adc.vcc_millivolts) <= 43_334,
        ensures
            ua == trunc_div(
                (spec_reading(TETHER_BIAS_CURRENT_CHANNEL, reply, self.tether_adc.vcc_millivolts) - 1020) * 50_750,
                9804,
            ),
    {
        let adc_voltage = self.tether_adc.read_voltage_from(&tether_sensor(TETHER_BIAS_CURRENT_CHANNEL), reply);
        tether_bias_current_eq(adc_voltage)
    }

    /// The DAC frame that sets the cathode offset supply (target clamped to
    /// 0..=255_000 mV).
    pub fn set_cathode_offset_voltage(&self, target_millivolts: u32) -> (frame: SpiFrame)
        ensures
            frame == spec_cathode_offset_frame(target_millivolts),
    {
        let target = enforce_bounds(
            CATHODE_OFFSET_MIN_VOLTAGE_MILLIVOLTS,
            target_millivolts,
            CATHODE_OFFSET_MAX_VOLTAGE_MILLIVOLTS,
        );
        proof {
            lemma_enforce_bounds_u32(CATHODE_OFFSET_MIN_VOLTAGE_MILLIVOLTS, target_millivolts, CATHODE_OFFSET_MAX_VOLTAGE_MILLIVOLTS);
            crate::wrap::lemma_div_le_bound(target * 100, 5138, 5000);
        }
        let dac_voltage = cathode_offset_target_voltage_to_dac_voltage(target);
        let count = self.dac.voltage_to_count(dac_voltage);
        self.dac.send_command(DACCommand::WriteToAndUpdateRegisterX, CATHODE_OFFSET_SUPPLY_CONTROL_CHANNEL, count)
    }

    /// Cathode offset voltage (millivolts) from the tether ADC's answer;
    /// readings above 24.8 V at the ADC overflow the equation and are refused.
    pub fn get_cathode_offset_voltage_millivolts(&self, reply: u32) -> (mv: i32)
        requires
            spec_reading(CATHODE_OFFSET_VOLTAGE_CHANNEL, reply, self.tether_adc.vcc_millivolts) * 86463 <= 0x8000_0000,
        ensures
            mv == trunc_div(
                spec_reading(CATHODE_OFFSET_VOLTAGE_CHANNEL, reply, self.tether_adc.vcc_millivolts) * -86_463,
                1000,
            ) + 301_437,
    {
        let adc_voltage = self.tether_adc.read_voltage_from(&tether_sensor(CATHODE_OFFSET_VOLTAGE_CHANNEL), reply);
        cathode_offset_voltage_eq(adc_voltage)
    }

    /// Cathode offset current (microamps) from the tether ADC's answer.
    pub fn get_cathode_offset_current_microamps(&self, reply: u32) -> (ua: i32)
        ensures
            ua == trunc_div(
                (spec_reading(CATHODE_OFFSET_CURRENT_CHANNEL, reply, self.tether_adc.vcc_millivolts) - 2463) * 780,
                500,
            ),
    {
        let adc_voltage = self.tether_adc.read_voltage_from(&tether_sensor(CATHODE_OFFSET_CURRENT_CHANNEL), reply);
        cathode_offset_current_eq(adc_voltage)
    }

    /// Repeller voltage (millivolts) from the tether ADC's answer.
    pub fn get_repeller_voltage_millivolts(&self, reply: u32) -> (mv: i32)
        ensures
            mv == (spec_reading(REPELLER_VOLTAGE_CHANNEL, reply, self.tether_adc.vcc_millivolts) - 2755) * 102,
    {
        let adc_voltage = self.tether_adc.read_voltage_from(&tether_sensor(REPELLER_VOLTAGE_CHANNEL), reply);
        repeller_voltage_eq(adc_voltage)
    }
}

} // verus!
