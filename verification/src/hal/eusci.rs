//! eUSCI control-register settings and the register writes that configure a
//! peripheral for SPI.
use vstd::prelude::*;

verus! {

/// UART clock sources.
#[derive(Clone, Copy, Debug, PartialEq, Eq, Structural)]
pub enum Ucssel {
    Uclk,
    Aclk,
    Smclk,
}

/// Valid SPI clock sources.
#[derive(Clone, Copy, Debug, PartialEq, Eq, Structural)]
pub enum UcsselSpi {
    /// Select ACLK for SPI
    Aclk,
    /// Use SMCLK for SPI
    Smclk,
}

impl UcsselSpi {
    /// Value of the UCSSEL field that selects this clock.
    pub open spec fn spec_bits(self) -> u8 {
        match self {
            UcsselSpi::Aclk => 0b01,
            UcsselSpi::Smclk => 0b10,
        }
    }

    /// Value of the UCSSEL field that selects this clock.
    pub fn bits(self) -> (b: u8)
        ensures
            b == self.spec_bits(),
    {
        match self {
            UcsselSpi::Aclk => 0b01,
            UcsselSpi::Smclk => 0b10,
        }
    }
}

/// UART settings of control register 0.
pub struct UcxCtl0Uart {
    pub ucpen: bool,
    pub ucpar: bool,
    pub ucmsb: bool,
    pub uc7bit: bool,
    pub ucspb: bool,
    pub ucssel: Ucssel,
    pub ucrxeie: bool,
}

/// SPI settings of control register 0 (3-wire mode only).
#[derive(Clone, Copy, Debug, PartialEq, Eq, Structural)]
pub struct UcxCtl0Spi {
    /// Clock phase: capture on the first edge.
    pub ucckph: bool,
    /// Clock polarity: idle high.
    pub ucckpl: bool,
    /// Most significant bit first.
    pub ucmsb: bool,
    /// Seven-bit characters.
    pub uc7bit: bool,
    /// Master mode.
    pub ucmst: bool,
    /// Clock source.
    pub ucssel: UcsselSpi,
}

/// One write to an eUSCI peripheral's registers. Apart from `Ctl0Reset`, each
/// is only valid while the peripheral is held in reset.
#[derive(Clone, Copy, Debug, PartialEq, Eq, Structural)]
pub enum SpiRegisterWrite {
    /// Hold the peripheral in reset (set UCSWRST).
    Ctl0Reset,
    /// Clear the modulation control register (eUSCI_A only; no effect on eUSCI_B).
    ClearMctlw,
    /// Set the bit-rate prescaler.
    BrwSettings(u16),
    /// Set the listen (loopback) bit.
    Loopback(bool),
    /// Write the SPI settings of control register 0.
    Ctl0Settings(UcxCtl0Spi),
}

} // verus!
