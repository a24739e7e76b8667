//! Driver for a memory-mapped true-random-number-generator peripheral.
//!
//! The driver governs the peripheral's clock lifecycle and exposes blocking
//! primitives that produce random 32-bit words and arbitrary-length byte
//! buffers.  The hardware itself — the register block, the shared bus-clock
//! gate and the frozen clock tree — is represented by explicitly owned model
//! types holding the register state as plain values, so that the sequencing,
//! validation and streaming logic can be stated and proved exactly.

pub mod clocks;
pub mod hw;
pub mod rng;

pub use clocks::{validate_clock_config, Clk48Source, ClockDescriptor, ConfigError, MsiFreq};
pub use hw::{BusGate, RngPeripheral};
pub use rng::{Error, Rng, RngExt};
