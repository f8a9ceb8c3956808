//! Decoder for the 32-byte telemetry frames of a PM2.5 particulate-matter
//! air-quality sensor.
//!
//! The sensor answers a bus read with one fixed-length frame. This crate
//! checks the frame's address marker and checksum and turns its payload into
//! a [`PM25Reading`]. The bus transaction itself is the caller's business.

use vstd::prelude::*;

pub mod bytes;
pub mod error;
pub mod frame;
pub mod reading;

pub use error::PM25Error;
pub use reading::PM25Reading;

verus! {

/// Bus address of the sensor, which every frame repeats in its first byte.
pub const PM25_ADDRESS: u8 = 0x12;

} // verus!
