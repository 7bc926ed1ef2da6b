//! Bare-metal peripheral-access layer for a Raspberry-Pi-class SoC: a
//! memory-mapped I/O primitive, a GPIO pin controller (function-select
//! multiplexing, pull-resistor configuration, digital output), and a polled
//! mini-UART transceiver built on two GPIO pins.
//!
//! Hardware registers themselves cannot be reasoned about directly, so the
//! crate is built around an explicit model of the SoC's register block
//! ([`bus::Bus`]): a value holding the latched state of every register the
//! layer touches, a script of values the read-only status/data registers will
//! deliver, and a log of every access in program order. All GPIO and UART
//! logic is verified against that model; replaying the log through raw
//! volatile writes is the only unverified step and lives outside this crate.

pub mod bus;
pub mod gpio;
pub mod miniuart;
pub mod protocol;
pub mod uart;
