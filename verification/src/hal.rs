//! MSP430FR2x5x eUSCI peripheral support: settings shared by the eUSCI
//! modes, the control-register settings, and SPI bus configuration.
pub mod eusci_utils;
pub mod eusci;
pub mod spi;
