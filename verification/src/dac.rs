//! LTC2634 digital-to-analog converter on the payload SPI bus.
//!
//! Packet format, 24 bits sent most significant first:
//! `C3 C2 C1 C0 A3 A2 A1 A0 D11 ... D0 X X X X` where C is the command, A the
//! address (channel), D the data and X don't-care.
use vstd::prelude::*;
use crate::spi::SpiFrame;
use crate::wrap::lemma_div_le_bound;
use crate::pcb_mapping::peripheral_vcc_values::DAC_VCC_VOLTAGE_MILLIVOLTS;

verus! {

/// Full-scale count of the 12-bit converter.
pub const DAC_RESOLUTION: u16 = 4095;

/// DAC commands.
#[derive(Clone, Copy, Debug, PartialEq, Eq, Structural)]
pub enum DACCommand {
    WriteToRegisterX,
    UpdateRegisterX,
    WriteToRegisterXAndUpdateAll,
    WriteToAndUpdateRegisterX,
    PowerOffChannelX,
    PowerOffChip,
    SelectInternalReference,
    SelectExternalReference,
    NoOp,
}

impl DACCommand {
    /// The command's 4-bit code.
    pub open spec fn spec_code(self) -> u32 {
        match self {
            DACCommand::WriteToRegisterX => 0b0000,
            DACCommand::UpdateRegisterX => 0b0001,
            DACCommand::WriteToRegisterXAndUpdateAll => 0b0010,
            DACCommand::WriteToAndUpdateRegisterX => 0b0011,
            DACCommand::PowerOffChannelX => 0b0100,
            DACCommand::PowerOffChip => 0b0101,
            DACCommand::SelectInternalReference => 0b0110,
            DACCommand::SelectExternalReference => 0b0111,
            DACCommand::NoOp => 0b1111,
        }
    }

    /// The command's 4-bit code.
    pub fn code(self) -> (c: u32)
        ensures
            c == self.spec_code(),
    {
        match self {
            DACCommand::WriteToRegisterX => 0b0000,
            DACCommand::UpdateRegisterX => 0b0001,
            DACCommand::WriteToRegisterXAndUpdateAll => 0b0010,
            DACCommand::WriteToAndUpdateRegisterX => 0b0011,
            DACCommand::PowerOffChannelX => 0b0100,
            DACCommand::PowerOffChip => 0b0101,
            DACCommand::SelectInternalReference => 0b0110,
            DACCommand::SelectExternalReference => 0b0111,
            DACCommand::NoOp => 0b1111,
        }
    }
}

/// DAC output channels.
#[derive(Clone, Copy, Debug, PartialEq, Eq, Structural)]
pub enum DACChannel {
    ChannelA,
    ChannelB,
    ChannelC,
    ChannelD,
    AllChannels,
}

impl DACChannel {
    /// The channel's 4-bit address.
    pub open spec fn spec_code(self) -> u32 {
        match self {
            DACChannel::ChannelA => 0b0000,
            DACChannel::ChannelB => 0b0001,
            DACChannel::ChannelC => 0b0010,
            DACChannel::ChannelD => 0b0011,
            DACChannel::AllChannels => 0b1111,
        }
    }

    /// The channel's 4-bit address.
    pub fn code(self) -> (c: u32)
        ensures
            c == self.spec_code(),
    {
        match self {
            DACChannel::ChannelA => 0b0000,
            DACChannel::ChannelB => 0b0001,
            DACChannel::ChannelC => 0b0010,
            DACChannel::ChannelD => 0b0011,
            DACChannel::AllChannels => 0b1111,
        }
    }
}

pub const NUM_COMMAND_BITS: u8 = 4;
pub const NUM_ADDRESS_BITS: u8 = 4;
pub const NUM_DATA_BITS: u8 = 12;
pub const NUM_DONT_CARE_BITS: u8 = 4;
pub const NUM_BITS_IN_PACKET: u8 = NUM_COMMAND_BITS + NUM_ADDRESS_BITS + NUM_DATA_BITS + NUM_DONT_CARE_BITS;
pub const DATA_OFFSET: u8 = NUM_DONT_CARE_BITS;
pub const ADDRESS_OFFSET: u8 = NUM_DONT_CARE_BITS + NUM_DATA_BITS;
pub const COMMAND_OFFSET: u8 = NUM_ADDRESS_BITS + NUM_DONT_CARE_BITS + NUM_DATA_BITS;

/// The 24-bit command packet.
pub open spec fn spec_command_packet(command: DACCommand, channel: DACChannel, value: u16) -> u32 {
    (command.spec_code() << 20u32) | (channel.spec_code() << 16u32) | ((value as u32) << 4u32)
}

/// The SPI frame carrying a command.
pub open spec fn spec_command_frame(command: DACCommand, channel: DACChannel, value: u16) -> SpiFrame {
    SpiFrame { len: 24, data: spec_command_packet(command, channel, value) }
}

/// Count for a target output: the target clamped to the 5 V supply, then
/// `mv * 4095 / 5000`.
pub open spec fn spec_voltage_to_count(target_millivolts: int) -> int {
    let mv = if target_millivolts > 5000 { 5000 } else { target_millivolts };
    (mv * 4095) / 5000
}

/// The DAC and its chip-select pin.
pub struct DAC<CsPin> {
    pub cs_pin: CsPin,
}

impl<CsPin> DAC<CsPin> {
    /// Takes the DAC's chip select. Returns the DAC and the frame that must be
    /// sent to it first, which selects the external reference.
    pub fn new(cs_pin: CsPin) -> (r: (Self, SpiFrame))
        ensures
            r.0.cs_pin == cs_pin,
            r.1 == spec_command_frame(DACCommand::SelectExternalReference, DACChannel::ChannelA, 0),
    {
        let dac = DAC { cs_pin };
        let frame = dac.send_command(DACCommand::SelectExternalReference, DACChannel::ChannelA, 0x000);
        (dac, frame)
    }

    /// The frame that sends `command` for `channel` with data `value`.
    pub fn send_command(&self, command: DACCommand, channel: DACChannel, value: u16) -> (frame: SpiFrame)
        ensures
            frame == spec_command_frame(command, channel, value),
    {
        let c = command.code();
        let a = channel.code();
        let payload: u32 = (c << (COMMAND_OFFSET as u32)) | (a << (ADDRESS_OFFSET as u32)) | ((value as u32) << (
        DATA_OFFSET as u32));
        SpiFrame { len: NUM_BITS_IN_PACKET, data: payload }
    }

    /// Count that sets an output to `target_millivolts`; targets above the
    /// 5 V supply are clamped to it.
    pub fn voltage_to_count(&self, target_millivolts: u16) -> (count: u16)
        ensures
            count == spec_voltage_to_count(target_millivolts as int),
            count <= DAC_RESOLUTION,
    {
        let mut target_millivolts = target_millivolts;
        if target_millivolts > DAC_VCC_VOLTAGE_MILLIVOLTS {
            target_millivolts = DAC_VCC_VOLTAGE_MILLIVOLTS;
        }
        let x: u32 = (target_millivolts as u32 * DAC_RESOLUTION as u32) / DAC_VCC_VOLTAGE_MILLIVOLTS as u32;
        proof {
            lemma_div_le_bound(target_millivolts * 4095, 5000, 4095);
        }
        x as u16
    }
}

/// Law: a command packet with 12-bit data decodes back into its fields: the
/// command in bits 23..20, the channel in bits 19..16, the data in bits 15..4
/// and zero don't-care bits.
pub proof fn dac_packet_fields(command: DACCommand, channel: DACChannel, value: u16)
    requires
        value < 4096,
    ensures
        spec_command_packet(command, channel, value) >> 20u32 == command.spec_code(),
        (spec_command_packet(command, channel, value) >> 16u32) & 0xF == channel.spec_code(),
        (spec_command_packet(command, channel, value) >> 4u32) & 0xFFF == value,
        spec_command_packet(command, channel, value) & 0xF == 0,
{
    let c = command.spec_code();
    let a = channel.spec_code();
    let v = value as u32;
    assert(c < 16 && a < 16);
    assert(((c << 20u32) | (a << 16u32) | (v << 4u32)) >> 20u32 == c && (((c << 20u32) | (a << 16u32) | (v
        << 4u32)) >> 16u32) & 0xF == a && (((c << 20u32) | (a << 16u32) | (v << 4u32)) >> 4u32) & 0xFFF == v
        && ((c << 20u32) | (a << 16u32) | (v << 4u32)) & 0xF == 0) by (bit_vector)
        requires
            c < 16,
            a < 16,
            v < 4096,
    ;
}

/// Law: the count never exceeds full scale, and grows with the target.
pub proof fn dac_count_monotone(lo: u16, hi: u16)
    requires
        lo <= hi,
    ensures
        spec_voltage_to_count(lo as int) <= spec_voltage_to_count(hi as int) <= 4095,
        spec_voltage_to_count(5000) == 4095,
{
    let l = if lo > 5000 { 5000int } else { lo as int };
    let h = if hi > 5000 { 5000int } else { hi as int };
    vstd::arithmetic::div_mod::lemma_div_is_ordered(l * 4095, h * 4095, 5000);
    lemma_div_le_bound(h * 4095, 5000, 4095);
}

} // verus!
