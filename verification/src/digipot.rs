//! AD5162 digital potentiometer on the payload SPI bus.
use vstd::prelude::*;
use crate::spi::SpiFrame;
use crate::payload::{enforce_bounds, spec_enforce_bounds, lemma_enforce_bounds_u32};
use crate::wrap::{lemma_div_le_bound, lemma_div_lt_bound};

verus! {

/// Maximum (end-to-end) resistance in ohms.
pub const DIGIPOT_MAX_RESISTANCE: u32 = 100_000;
/// Wiper resistance in ohms.
pub const DIGIPOT_WIPER_RESISTANCE: u32 = 100;
/// Number of wiper steps.
pub const DIGIPOT_RESOLUTION: u32 = 255;
pub const DIGIPOT_NUM_ADDRESS_BITS: u8 = 1;
pub const DIGIPOT_NUM_DATA_BITS: u8 = 8;
pub const DIGIPOT_NUM_BITS_IN_PACKET: u8 = DIGIPOT_NUM_ADDRESS_BITS + DIGIPOT_NUM_DATA_BITS;

/// The two potentiometers of the package.
#[derive(Clone, Copy, Debug, PartialEq, Eq, Structural)]
pub enum DigipotChannel {
    Channel1,
    Channel2,
}

impl DigipotChannel {
    /// The channel's address bit.
    pub open spec fn spec_code(self) -> u16 {
        match self {
            DigipotChannel::Channel1 => 0,
            DigipotChannel::Channel2 => 1,
        }
    }
}

/// Wiper count for a resistance: the resistance clamped to
/// `[100, 100_000]` ohms, then `(r - 100) * 255 / 100_000`.
pub open spec fn spec_resistance_to_count(wanted_resistance: int) -> int {
    let r = if wanted_resistance > 100_000 {
        100_000
    } else if wanted_resistance < 100 {
        100
    } else {
        wanted_resistance
    };
    ((r - 100) * 255) / 100_000
}

/// The 9-bit packet that sets a channel's wiper: address bit then count.
pub open spec fn spec_channel_frame(channel: DigipotChannel, count: u8) -> SpiFrame {
    SpiFrame { len: 9, data: ((channel.spec_code() as u32) << 8u32) | (count as u32) }
}

/// The digital potentiometer and its chip-select pin.
pub struct Digipot<CsPin> {
    pub cs_pin: CsPin,
}

impl<CsPin> Digipot<CsPin> {
    pub fn new(cs_pin: CsPin) -> (digipot: Self)
        ensures
            digipot.cs_pin == cs_pin,
    {
        Digipot { cs_pin }
    }

    /// Wiper count nearest below `wanted_resistance` (clamped to the range the
    /// part can produce).
    pub fn resistance_to_count(&self, wanted_resistance: u32) -> (count: u8)
        ensures
            count == spec_resistance_to_count(wanted_resistance as int),
            count <= 254,
    {
        let r = enforce_bounds(DIGIPOT_WIPER_RESISTANCE, wanted_resistance, DIGIPOT_MAX_RESISTANCE);
        proof {
            lemma_enforce_bounds_u32(DIGIPOT_WIPER_RESISTANCE, wanted_resistance, DIGIPOT_MAX_RESISTANCE);
        }
        let x: u32 = ((r - DIGIPOT_WIPER_RESISTANCE) * DIGIPOT_RESOLUTION) / DIGIPOT_MAX_RESISTANCE;
        proof {
            lemma_div_lt_bound((r - 100) * 255, 100_000, 254);
        }
        x as u8
    }

    /// The frame that sets `channel` to `count`.
    pub fn set_channel_to_count(&self, channel: DigipotChannel, count: u8) -> (frame: SpiFrame)
        ensures
            frame == spec_channel_frame(channel, count),
    {
        let address: u16 = match channel {
            DigipotChannel::Channel1 => 0,
            DigipotChannel::Channel2 => 1,
        };
        let payload: u16 = (address << DIGIPOT_NUM_DATA_BITS as u16) | (count as u16);
        assert(payload as u32 == ((address as u32) << 8u32) | (count as u32)) by (bit_vector)
            requires
                address <= 1,
                payload == (address << 8u16) | (count as u16),
        ;
        SpiFrame { len: DIGIPOT_NUM_BITS_IN_PACKET, data: payload as u32 }
    }

    /// The frame that sets `channel` to the count for `wanted_resistance`.
    pub fn set_channel_to_resistance(&self, channel: DigipotChannel, wanted_resistance: u32) -> (frame: SpiFrame)
        ensures
            frame == spec_channel_frame(channel, spec_resistance_to_count(wanted_resistance as int) as u8),
    {
        let count = self.resistance_to_count(wanted_resistance);
        self.set_channel_to_count(channel, count)
    }
}

/// Law: the wiper count grows with the wanted resistance, is 0 at the wiper
/// resistance and 254 at the maximum resistance.
pub proof fn digipot_count_monotone(lo: u32, hi: u32)
    requires
        lo <= hi,
    ensures
        spec_resistance_to_count(lo as int) <= spec_resistance_to_count(hi as int),
        spec_resistance_to_count(100) == 0,
        spec_resistance_to_count(100_000) == 254,
{
    let l = if lo > 100_000 { 100_000int } else if lo < 100 { 100int } else { lo as int };
    let h = if hi > 100_000 { 100_000int } else if hi < 100 { 100int } else { hi as int };
    vstd::arithmetic::div_mod::lemma_div_is_ordered((l - 100) * 255, (h - 100) * 255, 100_000);
}

} // verus!
