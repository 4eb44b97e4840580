//! Register-level driver for the Idd (supply-current) measurement subsystem of
//! an I2C-attached multi-function expander chip.
//!
//! The controller sequences register writes over an abstract bus to configure
//! shunt resistors, amplifier gain and measurement timing, triggers a
//! measurement, and decodes the raw 24-bit reading into a current value with
//! unit scaling. The bus, the wake-up pin and the delay source are abstract
//! collaborators, specified only at their interface.

pub mod ampere;
pub mod bus;
pub mod controller;
pub mod regs;
pub mod sim;
