//! Register-level drivers for STM32F030 general purpose I/O and I2C.
//!
//! Every hardware access is described as a [`regs::RegOp`] value: the
//! library decides what to write, and the platform layer performs the
//! volatile access. The effect of each access on the register file is
//! modelled by [`regs::apply_op`], and the proved properties of the pin and
//! bus drivers are stated over that model.
#![allow(non_camel_case_types)]

pub mod gpio;
pub mod i2c;
pub mod rcc;
pub mod regs;
pub mod time;
pub mod transfer;
