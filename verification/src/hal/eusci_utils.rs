//! Settings shared by several eUSCI modes (UART, SPI, I2C).
use vstd::prelude::*;

verus! {

/// Loopback settings
#[derive(Clone, Copy, Debug, PartialEq, Eq, Structural)]
pub enum Loopback {
    /// No loopback
    NoLoop,
    /// Tx feeds into Rx
    Loopback,
}

impl Loopback {
    /// Value of the listen bit that selects this setting.
    pub fn to_bool(self) -> (b: bool)
        ensures
            b <==> self == Loopback::Loopback,
    {
        match self {
            Loopback::NoLoop => false,
            Loopback::Loopback => true,
        }
    }
}

/// Bit order of transmit and receive
#[derive(Clone, Copy, Debug, PartialEq, Eq, Structural)]
pub enum BitOrder {
    /// LSB first (typically the default)
    LsbFirst,
    /// MSB first
    MsbFirst,
}

impl BitOrder {
    /// Value of the MSB-first bit that selects this order.
    pub fn to_bool(self) -> (b: bool)
        ensures
            b <==> self == BitOrder::MsbFirst,
    {
        match self {
            BitOrder::LsbFirst => false,
            BitOrder::MsbFirst => true,
        }
    }
}

/// Number of bits per transaction
#[derive(Clone, Copy, Debug, PartialEq, Eq, Structural)]
pub enum BitCount {
    /// 8 bits
    EightBits,
    /// 7 bits
    SevenBits,
}

impl BitCount {
    /// Value of the seven-bit-character bit that selects this count.
    pub fn to_bool(self) -> (b: bool)
        ensures
            b <==> self == BitCount::SevenBits,
    {
        match self {
            BitCount::EightBits => false,
            BitCount::SevenBits => true,
        }
    }
}

} // verus!
