//! Verified core of the payload board firmware: peripheral protocols, sensor
//! equations, supply control, serial input parsing, self-test bookkeeping,
//! the thermal-vacuum test schedule and board bring-up decisions.
#![allow(unused_imports)]

pub mod hal;
pub mod fixed_point;
pub mod wrap;
pub mod pcb_mapping;
pub mod payload;
pub mod sensors;
pub mod pcb_common;
pub mod spi;
pub mod spi_peripheral;
pub mod adc;
pub mod dac;
pub mod digipot;
pub mod serial;
pub mod testing;
pub mod tvac;
pub mod board;
