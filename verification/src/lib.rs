//! A character-cell terminal for a small colour panel behind an SPI display
//! controller.
//!
//! The drivers in this crate never touch hardware themselves.  Every driver
//! call appends the register accesses it stands for to a queue of
//! [`peripherals::RegOp`] values; the firmware around the library performs the
//! queued accesses in order.  What reaches the bus is therefore an ordinary
//! value, and each contract pins that value down exactly.

pub mod board;
pub mod display;
pub mod font;
pub mod peripherals;
pub mod terminal;
pub mod wire;
