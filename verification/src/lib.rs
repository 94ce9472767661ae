//! Driver core for a combined pressure/temperature/humidity sensor that
//! speaks over a two-wire register bus.
//!
//! The driver performs the device handshake, extracts the factory
//! calibration constants from the device's non-volatile memory, reads raw
//! analog-to-digital samples in one burst, and converts them into physical
//! units with the sensor family's integer compensation formulas. The bus
//! itself is an opaque capability supplied by the caller through the
//! [`bus::Bus`] trait; everything the driver does with it is recorded in a
//! ghost transaction log, so the contracts pin down the exact order of
//! register operations that the device requires.

pub mod bus;
pub mod calibration;
pub mod compensation;
pub mod driver;

mod clock;

pub use bus::{Bus, BusOp};
pub use calibration::CalibrationData;
pub use driver::{BME280Sensor, RawSample, SensorError, SensorReading};
