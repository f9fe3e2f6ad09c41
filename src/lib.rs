//! A driver for Adafruit's STEMMA capacitive soil sensor, a seesaw device on
//! a two-wire (I2C) bus.
//!
//! The driver is written without I/O of its own: each reading is an
//! [`exchange::Exchange`], a small state machine that says which bus
//! operation to perform next (write the register pair, wait the settle time,
//! read the reply) and is told how it went. [`SoilSensor`] validates the
//! address and the hardware id, and decodes replies into degrees Celsius and
//! moisture counts.

pub mod decode;
pub mod error;
pub mod exchange;
pub mod seesaw;
pub mod sensor;

pub use sensor::SoilSensor;
