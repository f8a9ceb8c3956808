//! Ways in which reading the sensor fails.

use vstd::prelude::*;

verus! {

/// Failure of one read of the sensor. `E` is the bus transport's own error.
#[allow(inconsistent_fields)]
pub enum PM25Error<E: core::fmt::Debug> {
    /// The frame's first byte is not the sensor's address.
    InvalidAddress { expected: u8, found: u8 },
    /// The checksum that the frame declares (`expected`) is not the sum of
    /// its bytes (`found`).
    InvalidChecksum { expected: u16, found: u16 },
    /// The bus transaction failed.
    I2C(E),
}

} // verus!
