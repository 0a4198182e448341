//! What the driver asks of the bus, and what the bus answers.

use vstd::prelude::*;

verus! {

/// Bus address of the pressure sensor.
pub const ADDR_PRESSURE_SENSOR: u16 = 0x4D;

/// One piece of work for whoever owns the bus.
#[derive(Clone, Copy, Debug, PartialEq, Eq)]
pub enum BusCommand {
    /// Open a channel on the bus.
    Open,
    /// Point the open channel at the device with this address.
    SetAddress(u16),
    /// Read two bytes from the device in one transaction.
    Read,
}

/// What became of the last command.
///
/// An event that does not answer the command that was outstanding counts as
/// that command having failed.
#[derive(Clone, Copy, Debug, PartialEq, Eq)]
pub enum BusEvent {
    /// An `Open` or `SetAddress` command was carried out.
    Completed,
    /// A `Read` command was carried out and delivered these two bytes, in bus order.
    Received(u8, u8),
    /// The command could not be carried out.
    Failed,
}

} // verus!
