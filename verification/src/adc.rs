//! ADC128S052 analog-to-digital converters on the payload SPI bus. Several
//! ADCs share the bus; the sensor type of each ADC says which sensors it can
//! read, so readings are converted with the right supply voltage.
//!
//! A reading is one SPI transaction: `reading_request` gives the transaction
//! for a sensor, and `read_count_from` extracts the conversion from the word
//! the ADC answered with.
use vstd::prelude::*;
use core::marker::PhantomData;
use crate::spi::{SpiFrame, PayloadSpiOp};
use crate::wrap::{wrap_u16, lemma_u32_as_u16, lemma_div_le_bound};
use crate::pcb_mapping::peripheral_vcc_values::{ADC_VCC_VOLTAGE_MILLIVOLTS, ISOLATED_ADC_VCC_VOLTAGE_MILLIVOLTS};

verus! {

/// The ADCs on the payload board.
#[derive(Clone, Copy, Debug, PartialEq, Eq, Structural)]
pub enum TargetADC {
    TetherADC,
    TemperatureADC,
    MiscADC,
}

/// Input channel of an ADC.
#[derive(Clone, Copy, Debug, PartialEq, Eq, Structural)]
pub enum ADCChannel {
    IN0,
    IN1,
    IN2,
    IN3,
    IN4,
    IN5,
    IN6,
    IN7,
}

impl ADCChannel {
    /// Channel number, 0 to 7.
    pub open spec fn spec_index(self) -> u32 {
        match self {
            ADCChannel::IN0 => 0,
            ADCChannel::IN1 => 1,
            ADCChannel::IN2 => 2,
            ADCChannel::IN3 => 3,
            ADCChannel::IN4 => 4,
            ADCChannel::IN5 => 5,
            ADCChannel::IN6 => 6,
            ADCChannel::IN7 => 7,
        }
    }

    /// Channel number, 0 to 7.
    pub fn index(self) -> (i: u32)
        ensures
            i == self.spec_index(),
            i < 8,
    {
        match self {
            ADCChannel::IN0 => 0,
            ADCChannel::IN1 => 1,
            ADCChannel::IN2 => 2,
            ADCChannel::IN3 => 3,
            ADCChannel::IN4 => 4,
            ADCChannel::IN5 => 5,
            ADCChannel::IN6 => 6,
            ADCChannel::IN7 => 7,
        }
    }
}

/// Marker for the chip-select pin types of ADCs.
pub trait ADCCSPin {}

/// A sensor wired to some channel of one particular ADC.
pub trait ADCSensor {
    spec fn spec_channel(&self) -> ADCChannel;

    fn channel(&self) -> (c: ADCChannel)
        ensures
            c == self.spec_channel(),
    ;
}

/// A sensor on the tether ADC.
pub struct TetherSensor {
    pub channel: ADCChannel,
}

impl ADCSensor for TetherSensor {
    open spec fn spec_channel(&self) -> ADCChannel {
        self.channel
    }

    fn channel(&self) -> (c: ADCChannel) {
        self.channel
    }
}

/// A sensor on the miscellaneous ADC.
pub struct MiscSensor {
    pub channel: ADCChannel,
}

impl ADCSensor for MiscSensor {
    open spec fn spec_channel(&self) -> ADCChannel {
        self.channel
    }

    fn channel(&self) -> (c: ADCChannel) {
        self.channel
    }
}

/// A temperature sensor, with the supply its thermistor divider runs from.
pub struct TemperatureSensor {
    pub channel: ADCChannel,
    pub vcc: VccType,
}

impl ADCSensor for TemperatureSensor {
    open spec fn spec_channel(&self) -> ADCChannel {
        self.channel
    }

    fn channel(&self) -> (c: ADCChannel) {
        self.channel
    }
}

/// Supply of a temperature sensor's divider.
#[derive(Clone, Copy, Debug, PartialEq, Eq, Structural)]
pub enum VccType {
    /// 3.3 V
    LMS,
    /// 5.0 V
    Payload,
}

/// Full-scale count of the 12-bit converter.
pub const ADC_RESOLUTION: u16 = 4095;

pub const AQUIRE_CYCLES: u8 = 4;
pub const TRANSMIT_CYCLES: u8 = 12;
pub const NUM_CYCLES_FOR_ONE_READING: u8 = AQUIRE_CYCLES + TRANSMIT_CYCLES;
pub const NUM_CYCLES_FOR_TWO_READINGS: u8 = NUM_CYCLES_FOR_ONE_READING * 2;
pub const NUM_ADDRESS_BITS: u8 = 3;
pub const NUM_LEADING_ZEROES: u8 = 2;

/// An ADC: its supply voltage and chip-select pin.
pub struct ADC<CsPin, SensorType> {
    pub vcc_millivolts: u16,
    pub cs_pin: CsPin,
    pub _adc_type: PhantomData<SensorType>,
}

impl<CsPin> ADC<CsPin, TetherSensor> {
    /// The tether ADC, supplied from the isolated 5 V rail.
    pub fn new(cs_pin: CsPin) -> (adc: Self)
        ensures
            adc.vcc_millivolts == ISOLATED_ADC_VCC_VOLTAGE_MILLIVOLTS,
            adc.cs_pin == cs_pin,
    {
        ADC { vcc_millivolts: ISOLATED_ADC_VCC_VOLTAGE_MILLIVOLTS, cs_pin, _adc_type: PhantomData }
    }
}

impl<CsPin> ADC<CsPin, TemperatureSensor> {
    /// The temperature ADC, supplied from the 5 V rail.
    pub fn new(cs_pin: CsPin) -> (adc: Self)
        ensures
            adc.vcc_millivolts == ADC_VCC_VOLTAGE_MILLIVOLTS,
            adc.cs_pin == cs_pin,
    {
        ADC { vcc_millivolts: ADC_VCC_VOLTAGE_MILLIVOLTS, cs_pin, _adc_type: PhantomData }
    }
}

impl<CsPin> ADC<CsPin, MiscSensor> {
    /// The miscellaneous ADC, supplied from the 5 V rail.
    pub fn new(cs_pin: CsPin) -> (adc: Self)
        ensures
            adc.vcc_millivolts == ADC_VCC_VOLTAGE_MILLIVOLTS,
            adc.cs_pin == cs_pin,
    {
        ADC { vcc_millivolts: ADC_VCC_VOLTAGE_MILLIVOLTS, cs_pin, _adc_type: PhantomData }
    }
}

/// Packet that selects `channel` for the second conversion of a transaction:
/// the three address bits placed so that two zeroes precede them, `00AAA0...`.
pub open spec fn spec_channel_packet(channel: ADCChannel) -> u32 {
    channel.spec_index() << 27u32
}

/// The transaction that reads `channel`. The ADC always converts IN0 first
/// after being selected, so IN0 is read with a single 16-cycle receive; any
/// other channel needs a 32-cycle transfer that sends its address during the
/// first conversion.
pub open spec fn spec_reading_request(channel: ADCChannel) -> PayloadSpiOp {
    if channel == ADCChannel::IN0 {
        PayloadSpiOp::Receive(16)
    } else {
        PayloadSpiOp::SendReceive(SpiFrame { len: 32, data: spec_channel_packet(channel) })
    }
}

/// The conversion extracted from the ADC's answer: the 16 received bits for
/// IN0, otherwise the last 12 bits (the second conversion).
pub open spec fn spec_count_from_reply(channel: ADCChannel, reply: u32) -> int {
    if channel == ADCChannel::IN0 {
        wrap_u16(reply as int)
    } else {
        (reply & 0xFFF) as int
    }
}

/// Millivolts for a count: `count * vcc / 4095`, kept to 16 bits.
pub open spec fn spec_count_to_voltage(count: int, vcc: int) -> int {
    wrap_u16((count * vcc) / 4095)
}

impl<CsPin, SensorType: ADCSensor> ADC<CsPin, SensorType> {
    /// The SPI transaction that reads `wanted_sensor`.
    pub fn reading_request(&self, wanted_sensor: &SensorType) -> (op: PayloadSpiOp)
        ensures
            op == spec_reading_request(wanted_sensor.spec_channel()),
    {
        let channel = wanted_sensor.channel();
        if channel == ADCChannel::IN0 {
            PayloadSpiOp::Receive(NUM_CYCLES_FOR_ONE_READING)
        } else {
            let shift: u8 = NUM_CYCLES_FOR_TWO_READINGS - NUM_ADDRESS_BITS - NUM_LEADING_ZEROES;
            let data_packet: u32 = channel.index() << (shift as u32);
            PayloadSpiOp::SendReceive(SpiFrame { len: NUM_CYCLES_FOR_TWO_READINGS, data: data_packet })
        }
    }

    /// The count read from `wanted_sensor`, given the word the ADC answered
    /// the `reading_request` transaction with.
    pub fn read_count_from(&self, wanted_sensor: &SensorType, reply: u32) -> (count: u16)
        ensures
            count == spec_count_from_reply(wanted_sensor.spec_channel(), reply),
            // The reply answers the request for the channel: for IN0 a
            // 16-bit receive (the count is what was received), otherwise a
            // 32-bit exchange sending the channel packet (the count is the
            // last 12 bits, the second conversion).
            wanted_sensor.spec_channel() == ADCChannel::IN0 ==> spec_reading_request(wanted_sensor.spec_channel())
                == PayloadSpiOp::Receive(16) && count == reply % 0x1_0000,
            wanted_sensor.spec_channel() != ADCChannel::IN0 ==> spec_reading_request(wanted_sensor.spec_channel())
                == PayloadSpiOp::SendReceive(SpiFrame { len: 32, data: spec_channel_packet(wanted_sensor.spec_channel()) })
                && count == reply % 0x1000,
    {
        if wanted_sensor.channel() == ADCChannel::IN0 {
            proof {
                lemma_u32_as_u16(reply);
            }
            reply as u16
        } else {
            let low = reply & 0xFFF;
            assert(low <= 0xFFF && low == reply % 0x1000) by (bit_vector)
                requires
                    low == reply & 0xFFF,
            ;
            low as u16
        }
    }

    /// Converts a count to millivolts at the ADC input.
    pub fn count_to_voltage(&self, count: u16) -> (mv: u16)
        ensures
            mv == spec_count_to_voltage(count as int, self.vcc_millivolts as int),
    {
        assert(count * self.vcc_millivolts <= 65535 * 65535) by (nonlinear_arith)
            requires
                count <= 65535,
                self.vcc_millivolts <= 65535,
        ;
        let x: u32 = (count as u32 * self.vcc_millivolts as u32) / ADC_RESOLUTION as u32;
        proof {
            lemma_u32_as_u16(x);
        }
        x as u16
    }

    /// Millivolts at the input of `wanted_sensor`, given the ADC's answer.
    pub fn read_voltage_from(&self, wanted_sensor: &SensorType, reply: u32) -> (mv: u16)
        ensures
            mv == spec_count_to_voltage(
                spec_count_from_reply(wanted_sensor.spec_channel(), reply),
                self.vcc_millivolts as int,
            ),
    {
        let count = self.read_count_from(wanted_sensor, reply);
        self.count_to_voltage(count)
    }
}

/// Law: the request for any channel but IN0 is a 32-cycle transfer whose
/// packet is `00AAA` followed by zeroes, `AAA` being the channel number.
pub proof fn adc_request_encodes_channel(channel: ADCChannel)
    requires
        channel != ADCChannel::IN0,
    ensures
        spec_reading_request(channel) matches PayloadSpiOp::SendReceive(frame) && frame.len == 32
            && frame.data >> 27u32 == channel.spec_index() && frame.data & 0x07FF_FFFFu32 == 0,
{
    let i = channel.spec_index();
    assert(i < 8);
    assert((i << 27u32) >> 27u32 == i && (i << 27u32) & 0x07FF_FFFFu32 == 0) by (bit_vector)
        requires
            i < 8,
    ;
}

proof fn lemma_scaled_count_bound(n: int, vcc: int)
    requires
        0 <= n <= 4095,
        0 <= vcc <= 65535,
    ensures
        0 <= (n * vcc) / 4095 <= vcc,
        wrap_u16((n * vcc) / 4095) == (n * vcc) / 4095,
{
    assert(0 <= n * vcc <= vcc * 4095) by (nonlinear_arith)
        requires
            0 <= n <= 4095,
            vcc >= 0,
    ;
    lemma_div_le_bound(n * vcc, 4095, vcc);
}

/// Law: a count from any channel but IN0 is at most 4095, and the voltage of
/// such a count never exceeds the ADC supply and grows with the count.
pub proof fn adc_voltage_within_supply(channel: ADCChannel, reply: u32, other: u16, vcc: u16)
    requires
        channel != ADCChannel::IN0,
        other <= 4095,
    ensures
        0 <= spec_count_from_reply(channel, reply) <= 4095,
        spec_count_to_voltage(other as int, vcc as int) <= vcc,
        other <= spec_count_from_reply(channel, reply) ==> spec_count_to_voltage(other as int, vcc as int)
            <= spec_count_to_voltage(spec_count_from_reply(channel, reply), vcc as int),
{
    let c = reply & 0xFFF;
    assert(c <= 0xFFF) by (bit_vector)
        requires
            c == reply & 0xFFF,
    ;
    lemma_scaled_count_bound(other as int, vcc as int);
    lemma_scaled_count_bound(c as int, vcc as int);
    if other <= c {
        assert(other * vcc <= c * vcc) by (nonlinear_arith)
            requires
                other <= c,
                vcc >= 0,
        ;
        vstd::arithmetic::div_mod::lemma_div_is_ordered(other * vcc, c * vcc, 4095);
    }
}

} // verus!
