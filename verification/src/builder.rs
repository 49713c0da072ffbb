//! The configuration of a port, and the builder that collects it.

use vstd::prelude::*;
use crate::config::{DataBits, FlowControl, Parity, StopBits, Timeout};
use crate::windows::com::{ComPort, Step};
use crate::windows::machine::PortState;

verus! {

/// The configuration of a port as a mathematical value: what a
/// [`SerialPortBuilder`] holds, with the device path as a sequence of
/// characters. An empty path means that the port is bound to no device.
pub struct Configuration {
    /// The device's path or name.
    pub path: Seq<char>,
    /// Symbols per second.
    pub baud_rate: u32,
    /// Data bits per character.
    pub data_bits: DataBits,
    /// How transmission is paused and resumed.
    pub flow_control: FlowControl,
    /// The parity bit.
    pub parity: Parity,
    /// Stop bits per character.
    pub stop_bits: StopBits,
    /// The time a read or a write may take.
    pub timeout: Timeout,
}

impl Configuration {
    /// The configuration that a fresh builder holds for the given path and
    /// baud rate: 8 data bits, no parity, 1 stop bit, no flow control, and a
    /// timeout of zero.
    pub open spec fn initial(path: Seq<char>, baud_rate: u32) -> Configuration {
        Configuration {
            path,
            baud_rate,
            data_bits: DataBits::Eight,
            flow_control: FlowControl::Off,
            parity: Parity::Off,
            stop_bits: StopBits::One,
            timeout: Timeout { secs: 0, nanos: 0 },
        }
    }

    /// Whether the configuration names a device.
    pub open spec fn is_bound(self) -> bool {
        self.path.len() > 0
    }
}

/// Collects the configuration of a port, one setting per call.
#[must_use]
#[derive(Debug, PartialEq, Eq)]
pub struct SerialPortBuilder {
    pub(crate) path: String,
    pub(crate) baud_rate: u32,
    pub(crate) data_bits: DataBits,
    pub(crate) flow_control: FlowControl,
    pub(crate) parity: Parity,
    pub(crate) stop_bits: StopBits,
    pub(crate) timeout: Timeout,
}

impl View for SerialPortBuilder {
    type V = Configuration;

    closed spec fn view(&self) -> Configuration {
        Configuration {
            path: self.path@,
            baud_rate: self.baud_rate,
            data_bits: self.data_bits,
            flow_control: self.flow_control,
            parity: self.parity,
            stop_bits: self.stop_bits,
            timeout: self.timeout,
        }
    }
}

impl SerialPortBuilder {
    /// Inside the crate the view is the fields, one for one.
    pub(crate) proof fn view_is_fields(&self)
        ensures
            self@ == (Configuration {
                path: self.path@,
                baud_rate: self.baud_rate,
                data_bits: self.data_bits,
                flow_control: self.flow_control,
                parity: self.parity,
                stop_bits: self.stop_bits,
                timeout: self.timeout,
            }),
    {
    }

    /// A builder with no device path, 9600 baud, 8 data bits, no parity, 1 stop
    /// bit, no flow control and a timeout of zero.
    pub fn new() -> (r: SerialPortBuilder)
        ensures
            r@ == Configuration::initial(Seq::empty(), 9600),
    {
        SerialPortBuilder {
            path: String::new(),
            baud_rate: 9600,
            data_bits: DataBits::Eight,
            flow_control: FlowControl::Off,
            parity: Parity::Off,
            stop_bits: StopBits::One,
            timeout: Timeout::zero(),
        }
    }

    /// Sets the device path; the empty path binds the port to no device.
    pub fn path(self, path: &str) -> (r: Self)
        ensures
            r@ == (Configuration { path: path@, ..self@ }),
    {
        SerialPortBuilder { path: path.to_owned(), ..self }
    }

    /// Sets the baud rate.
    pub fn baud_rate(self, baud_rate: u32) -> (r: Self)
        ensures
            r@ == (Configuration { baud_rate, ..self@ }),
    {
        SerialPortBuilder { baud_rate, ..self }
    }

    /// Sets the number of data bits per character.
    pub fn data_bits(self, data_bits: DataBits) -> (r: Self)
        ensures
            r@ == (Configuration { data_bits, ..self@ }),
    {
        SerialPortBuilder { data_bits, ..self }
    }

    /// Sets the flow control.
    pub fn flow_control(self, flow_control: FlowControl) -> (r: Self)
        ensures
            r@ == (Configuration { flow_control, ..self@ }),
    {
        SerialPortBuilder { flow_control, ..self }
    }

    /// Sets the parity.
    pub fn parity(self, parity: Parity) -> (r: Self)
        ensures
            r@ == (Configuration { parity, ..self@ }),
    {
        SerialPortBuilder { parity, ..self }
    }

    /// Sets the number of stop bits.
    pub fn stop_bits(self, stop_bits: StopBits) -> (r: Self)
        ensures
            r@ == (Configuration { stop_bits, ..self@ }),
    {
        SerialPortBuilder { stop_bits, ..self }
    }

    /// Sets the timeout of reads and writes; zero makes them non-blocking.
    pub fn timeout(self, timeout: Timeout) -> (r: Self)
        ensures
            r@ == (Configuration { timeout, ..self@ }),
    {
        SerialPortBuilder { timeout, ..self }
    }
}

impl SerialPortBuilder {
    /// Makes the port that the builder describes. A builder without a device
    /// path gives a closed port on the spot; one with a path has the port
    /// opened at once, so the first request to the host comes back.
    #[must_use]
    pub fn build(self) -> (step: Step)
        ensures
            step@ == PortState::create(self@),
            step@.wf(),
    {
        ComPort::new(self)
    }
}

impl Clone for SerialPortBuilder {
    /// A copy that holds the same configuration.
    fn clone(&self) -> (r: Self)
        ensures
            r@ == self@,
    {
        SerialPortBuilder {
            path: self.path.clone(),
            baud_rate: self.baud_rate,
            data_bits: self.data_bits,
            flow_control: self.flow_control,
            parity: self.parity,
            stop_bits: self.stop_bits,
            timeout: self.timeout,
        }
    }
}

impl Default for SerialPortBuilder {
    /// The builder that [`SerialPortBuilder::new`] gives.
    fn default() -> (r: Self)
        ensures
            r@ == Configuration::initial(Seq::empty(), 9600),
    {
        SerialPortBuilder::new()
    }
}

} // verus!
