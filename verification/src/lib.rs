//! Driver core for a single pressure sensor on a two-wire serial bus.
//!
//! The core never touches the bus itself. It names the command that has to be
//! carried out next ([`bus::BusCommand`]), is told what the bus made of it
//! ([`bus::BusEvent`]), and decides from there: which step of start-up follows,
//! which error a failure amounts to, and what calibrated value two received
//! bytes stand for.

pub mod bus;
pub mod error;
pub mod pressure;
pub mod raw;
pub mod scale;

pub use bus::{BusCommand, BusEvent, ADDR_PRESSURE_SENSOR};
pub use error::PressureError;
pub use pressure::{Phase, Pressure, Progress};
