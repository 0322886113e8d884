//! Board-revision specific values: supply limits, supply voltages, sensor and
//! supply wiring, and the equations that convert readings and targets.
pub mod power_supply_limits;
pub mod peripheral_vcc_values;
pub mod sensor_equations;
pub mod power_supply_equations;
pub mod sensor_locations;
pub mod power_supply_locations;

pub use crate::pcb_common::{
    LEDPins, PayloadSPIChipSelectPins, PayloadSPIPins, PayloadSPIBitBangPins, OBCSPIPins,
    DebugSerialPins, PayloadControlPins, DeploySensePins, TetherLMSPins, PinpullerActivationPins,
};

use vstd::prelude::*;
use crate::adc::{ADC, TetherSensor, TemperatureSensor, MiscSensor};
use crate::dac::DAC;
use crate::digipot::Digipot;

verus! {

/// Current-sense resistance of the tether bias supply.
pub const TETHER_SENSE_RESISTANCE_OHMS: u32 = 1;
/// Current-sense resistance of the cathode offset supply.
pub const CATHODE_SENSE_RESISTANCE_OHMS: u32 = 1;
/// Current-sense resistance of the heater supply.
pub const HEATER_SENSE_RESISTANCE_MILLIOHMS: u32 = 10;

/// The concrete chip-select pin types of a board's payload peripherals.
pub trait PayloadPinTypes {
    type DigipotCs;
    type DacCs;
    type TetherAdcCs;
    type TemperatureAdcCs;
    type MiscAdcCs;
    type ApertureAdcCs;
}

/// The payload's SPI peripherals, each owning its chip-select pin.
pub struct PayloadPeripherals<P: PayloadPinTypes> {
    pub digipot: Digipot<P::DigipotCs>,
    pub dac: DAC<P::DacCs>,
    pub tether_adc: ADC<P::TetherAdcCs, TetherSensor>,
    pub temperature_adc: ADC<P::TemperatureAdcCs, TemperatureSensor>,
    pub misc_adc: ADC<P::MiscAdcCs, MiscSensor>,
    pub aperture_adc: ADC<P::ApertureAdcCs, MiscSensor>,
}

} // verus!
