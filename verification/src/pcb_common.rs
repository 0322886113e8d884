//! Groupings of board pins that are common to all board revisions. Each group
//! is generic over the concrete pin types, which the board support code fills
//! in.
use vstd::prelude::*;

verus! {

/// The three indicator LEDs.
pub struct LEDPins<Red, Yellow, Green> {
    pub red_led: Red,
    pub yellow_led: Yellow,
    pub green_led: Green,
}

/// Chip-select lines of the payload SPI peripherals.
pub struct PayloadSPIChipSelectPins<Digipot, Dac, TetherAdc, TemperatureAdc, MiscAdc, ApertureAdc> {
    /// Used to control the heater supply.
    pub digipot: Digipot,
    /// DAC outputs control the cathode offset and tether bias supplies' target voltages.
    pub dac: Dac,
    /// ADC1, measures voltages and currents from tether circuitry.
    pub tether_adc: TetherAdc,
    /// ADC2, measures board temperatures.
    pub temperature_adc: TemperatureAdc,
    /// ADC0, measures everything else.
    pub misc_adc: MiscAdc,
    /// Chip select of the aperture test board's ADC.
    pub aperture_test_adc: ApertureAdc,
}

impl<Digipot, Dac, TetherAdc, TemperatureAdc, MiscAdc, ApertureAdc> PayloadSPIChipSelectPins<
    Digipot,
    Dac,
    TetherAdc,
    TemperatureAdc,
    MiscAdc,
    ApertureAdc,
> {
    /// Groups the chip-select pins. Every chip select is active low, so all
    /// six are deselected first: returns the pins and the lines to drive
    /// high, each once, in order.
    pub fn new(
        digipot: Digipot,
        dac: Dac,
        tether_adc: TetherAdc,
        temperature_adc: TemperatureAdc,
        misc_adc: MiscAdc,
        aperture_test_adc: ApertureAdc,
    ) -> (r: (Self, Vec<ChipSelectLine>))
        ensures
            r.0.digipot == digipot,
            r.0.dac == dac,
            r.0.tether_adc == tether_adc,
            r.0.temperature_adc == temperature_adc,
            r.0.misc_adc == misc_adc,
            r.0.aperture_test_adc == aperture_test_adc,
            r.1@ == seq![
                ChipSelectLine::Digipot,
                ChipSelectLine::Dac,
                ChipSelectLine::TetherAdc,
                ChipSelectLine::TemperatureAdc,
                ChipSelectLine::MiscAdc,
                ChipSelectLine::ApertureAdc,
            ],
    {
        let deselect = vec![
            ChipSelectLine::Digipot,
            ChipSelectLine::Dac,
            ChipSelectLine::TetherAdc,
            ChipSelectLine::TemperatureAdc,
            ChipSelectLine::MiscAdc,
            ChipSelectLine::ApertureAdc,
        ];
        (PayloadSPIChipSelectPins { digipot, dac, tether_adc, temperature_adc, misc_adc, aperture_test_adc }, deselect)
    }
    /// Chip selects that `disable_all` drives high (deselected): every one
    /// but the aperture test board's.
    pub fn disable_all(&self) -> (lines: Vec<ChipSelectLine>)
        ensures
            lines@ == seq![
                ChipSelectLine::Digipot,
                ChipSelectLine::Dac,
                ChipSelectLine::TetherAdc,
                ChipSelectLine::TemperatureAdc,
                ChipSelectLine::MiscAdc,
            ],
    {
        vec![
            ChipSelectLine::Digipot,
            ChipSelectLine::Dac,
            ChipSelectLine::TetherAdc,
            ChipSelectLine::TemperatureAdc,
            ChipSelectLine::MiscAdc,
        ]
    }
}

/// One of the payload SPI chip-select lines.
#[derive(Clone, Copy, Debug, PartialEq, Eq, Structural)]
pub enum ChipSelectLine {
    Digipot,
    Dac,
    TetherAdc,
    TemperatureAdc,
    MiscAdc,
    ApertureAdc,
}

/// Payload SPI pins in peripheral (eUSCI_B1) mode.
pub struct PayloadSPIPins<Miso, Mosi, Sck> {
    pub miso: Miso,
    pub mosi: Mosi,
    pub sck: Sck,
}

/// Payload SPI pins as plain GPIO for bit banging.
pub struct PayloadSPIBitBangPins<Miso, Mosi, Sck> {
    pub miso: Miso,
    pub mosi: Mosi,
    pub sck: Sck,
}

/// On-board-computer SPI pins (eUSCI_A1).
pub struct OBCSPIPins<Miso, Mosi, Sck, Cs, CsInterrupt> {
    pub miso: Miso,
    pub mosi: Mosi,
    pub sck: Sck,
    pub chip_select: Cs,
    pub chip_select_interrupt: CsInterrupt,
}

/// Debug serial port pins.
pub struct DebugSerialPins<Rx, Tx> {
    pub rx: Rx,
    pub tx: Tx,
}

/// Pins that switch payload power and connections.
pub struct PayloadControlPins<PayloadEnable, HeaterEnable, CathodeSwitch, TetherSwitch> {
    /// Turns on most payload devices (power supplies, isolators, etc.).
    pub payload_enable: PayloadEnable,
    /// Turns on the heater step-down converter.
    pub heater_enable: HeaterEnable,
    /// Connects cathode offset+ to the exterior.
    pub cathode_switch: CathodeSwitch,
    /// Connects tether bias+ to the tether.
    pub tether_switch: TetherSwitch,
}

/// Deployment sense switches.
pub struct DeploySensePins<Endmass1, Endmass2, Pinpuller> {
    /// Detects whether the endmass has ejected.
    pub endmass_sense_1: Endmass1,
    /// Detects whether the endmass has ejected.
    pub endmass_sense_2: Endmass2,
    /// Detects whether the pinpuller has deployed.
    pub pinpuller_sense: Pinpuller,
}

/// Length measurement system control pins.
pub struct TetherLMSPins<ReceiverEnable, LedEnable> {
    pub lms_receiver_enable: ReceiverEnable,
    pub lms_led_enable: LedEnable,
}

/// The four redundant pinpuller burn-wire lines.
pub struct PinpullerActivationPins<Bw1, Bw1Backup, Bw2, Bw2Backup> {
    pub burn_wire_1: Bw1,
    pub burn_wire_1_backup: Bw1Backup,
    pub burn_wire_2: Bw2,
    pub burn_wire_2_backup: Bw2Backup,
}

} // verus!
