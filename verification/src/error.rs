//! The ways in which the driver can fail.

use vstd::prelude::*;

verus! {

/// Why the sensor could not be brought up or read.
#[derive(Clone, Copy, Debug, PartialEq, Eq)]
pub enum PressureError {
    /// The bus could not be opened.
    BusUnavailable,
    /// The open channel could not be pointed at the sensor.
    ConfigurationError,
    /// A read transaction failed.
    ReadFailure,
}

} // verus!
