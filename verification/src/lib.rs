//! A serial (COM) port as a value: its configuration, the way that
//! configuration is written into the operating system's line-control state and
//! read back from it, and the open/close life cycle, all free of I/O.
//!
//! The port never touches the operating system itself. Every operation yields a
//! [`Step`]: either it is finished, or it names one request that the host has to
//! perform before handing the reply back.

use vstd::prelude::*;

pub mod builder;
pub mod communication;
pub mod config;
pub mod error;
pub mod windows;

pub use builder::{Configuration, SerialPortBuilder};
pub use communication::Communication;
pub use config::SerialPortInfo;
pub use error::Error;
pub use windows::com::{ComPort, Output, Pending, Step};
pub use windows::host::{Command, Handle, Reply, Request};

verus! {

/// Starts a builder for the port at `path` with the given baud rate; the other
/// settings are 8 data bits, no parity, 1 stop bit, no flow control and a
/// timeout of zero.
pub fn new(path: &str, baud_rate: u32) -> (r: SerialPortBuilder)
    ensures
        r@ == Configuration::initial(path@, baud_rate),
{
    SerialPortBuilder::new().path(path).baud_rate(baud_rate)
}

/// Gives the serial devices of the system as the host's device directory
/// listed them, in the directory's order, or the failure that the directory
/// reported. The directory is the host's: it is asked before the call and its
/// answer is handed in.
pub fn available_ports(listing: Result<Vec<SerialPortInfo>, Error>) -> (r: Result<
    Vec<SerialPortInfo>,
    Error,
>)
    ensures
        r == listing,
{
    listing
}

} // verus!
