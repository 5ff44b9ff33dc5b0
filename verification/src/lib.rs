//! Register-level driver for the AD57xx family of multi-channel DACs on a
//! shared SPI bus.
//!
//! The driver translates high-level operations ("set channel A to value V",
//! "power up channel B") into the exact 3-byte frames the device's register
//! map expects, and decodes register read responses back into typed values.
//! The frame layout, the argument/command consistency checks, the shadow
//! register bookkeeping and the bit-exact register models are all verified.
//! The physical bus is consumed through the [`device::SpiTransport`]
//! interface, which the application binds to its hardware abstraction layer
//! (an `embedded_hal` SPI device, or a mock in tests).

pub mod ad57x2;
pub mod ad57x4;
pub mod bits;
pub mod command;
pub mod config;
pub mod device;
pub mod frame;
pub mod marker;

pub use command::{Command, DacChannel, Data, Error, Function, OutputRange, PowerRegister};
pub use config::Config;
pub use device::{Ad57xx, Ad57xxShared, SpiTransport};
