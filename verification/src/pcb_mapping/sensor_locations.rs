//! Which ADC channel each sensor is wired to.
use vstd::prelude::*;
use crate::adc::{ADCChannel, TetherSensor, TemperatureSensor, MiscSensor, VccType};

verus! {

// Tether ADC (nothing on channel 2)
pub const REPELLER_VOLTAGE_CHANNEL: ADCChannel = ADCChannel::IN0;
pub const HEATER_VOLTAGE_CHANNEL: ADCChannel = ADCChannel::IN1;
pub const HEATER_CURRENT_CHANNEL: ADCChannel = ADCChannel::IN3;
pub const CATHODE_OFFSET_CURRENT_CHANNEL: ADCChannel = ADCChannel::IN4;
pub const TETHER_BIAS_CURRENT_CHANNEL: ADCChannel = ADCChannel::IN5;
pub const TETHER_BIAS_VOLTAGE_CHANNEL: ADCChannel = ADCChannel::IN6;
pub const CATHODE_OFFSET_VOLTAGE_CHANNEL: ADCChannel = ADCChannel::IN7;

// Misc ADC (nothing after channel 4)
pub const PINPULLER_CURRENT_CHANNEL: ADCChannel = ADCChannel::IN0;
pub const LMS_RECEIVER_1_CHANNEL: ADCChannel = ADCChannel::IN1;
pub const LMS_RECEIVER_2_CHANNEL: ADCChannel = ADCChannel::IN2;
pub const LMS_RECEIVER_3_CHANNEL: ADCChannel = ADCChannel::IN3;
pub const APERTURE_CURRENT_CHANNEL: ADCChannel = ADCChannel::IN4;

/// A sensor on the tether ADC.
pub fn tether_sensor(channel: ADCChannel) -> (s: TetherSensor)
    ensures
        s.channel == channel,
{
    TetherSensor { channel }
}

/// A sensor on the miscellaneous ADC.
pub fn misc_sensor(channel: ADCChannel) -> (s: MiscSensor)
    ensures
        s.channel == channel,
{
    MiscSensor { channel }
}

/// The eight temperature sensors: LMS emitter and receiver (3.3 V dividers),
/// then MSP430, heater supply, HVDC supplies, tether monitoring, tether
/// connector and MSP 3.3 V supply (5 V dividers), on channels 0 to 7.
pub fn temperature_sensor(index: u8) -> (s: TemperatureSensor)
    requires
        index < 8,
    ensures
        s.channel.spec_index() == index,
        s.vcc == (if index < 2 { VccType::LMS } else { VccType::Payload }),
{
    let channel = match index {
        0 => ADCChannel::IN0,
        1 => ADCChannel::IN1,
        2 => ADCChannel::IN2,
        3 => ADCChannel::IN3,
        4 => ADCChannel::IN4,
        5 => ADCChannel::IN5,
        6 => ADCChannel::IN6,
        _ => ADCChannel::IN7,
    };
    let vcc = if index < 2 { VccType::LMS } else { VccType::Payload };
    TemperatureSensor { channel, vcc }
}

} // verus!
