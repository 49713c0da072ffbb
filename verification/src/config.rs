//! The line-control values of a serial port.

use vstd::prelude::*;

verus! {

/// Number of data bits per character.
#[derive(Debug, Clone, Copy, PartialEq, Eq, Structural)]
pub enum DataBits {
    /// 5 bits per character.
    Five,
    /// 6 bits per character.
    Six,
    /// 7 bits per character.
    Seven,
    /// 8 bits per character.
    Eight,
}

impl DataBits {
    /// The number of bits that this value stands for.
    pub open spec fn bits(self) -> u8 {
        match self {
            DataBits::Five => 5,
            DataBits::Six => 6,
            DataBits::Seven => 7,
            DataBits::Eight => 8,
        }
    }

    /// The text shown for this value: its number of bits.
    pub open spec fn text(self) -> Seq<char> {
        match self {
            DataBits::Five => "5"@,
            DataBits::Six => "6"@,
            DataBits::Seven => "7"@,
            DataBits::Eight => "8"@,
        }
    }

    /// Renders the value as its number of bits.
    pub fn to_string(&self) -> (r: String)
        ensures
            r@ == self.text(),
    {
        match *self {
            DataBits::Five => "5".to_owned(),
            DataBits::Six => "6".to_owned(),
            DataBits::Seven => "7".to_owned(),
            DataBits::Eight => "8".to_owned(),
        }
    }
}

/// How the two ends of the line keep each other from overrunning.
#[derive(Debug, Clone, Copy, PartialEq, Eq, Structural)]
pub enum FlowControl {
    /// No flow control.
    Off,
    /// In-band flow control with XON/XOFF bytes.
    Software,
    /// Flow control over the RTS/CTS handshake lines.
    Hardware,
}

impl FlowControl {
    /// The text shown for this value.
    pub open spec fn text(self) -> Seq<char> {
        match self {
            FlowControl::Off => "None"@,
            FlowControl::Software => "XON/XOFF"@,
            FlowControl::Hardware => "RTS/CTS"@,
        }
    }

    /// Renders the value by the name of its mechanism.
    pub fn to_string(&self) -> (r: String)
        ensures
            r@ == self.text(),
    {
        match *self {
            FlowControl::Off => "None".to_owned(),
            FlowControl::Software => "XON/XOFF".to_owned(),
            FlowControl::Hardware => "RTS/CTS".to_owned(),
        }
    }
}

/// The parity bit that follows the data bits of a character.
#[derive(Debug, Clone, Copy, PartialEq, Eq, Structural)]
pub enum Parity {
    /// No parity bit.
    Off,
    /// The number of 1 bits, parity bit included, is odd.
    Odd,
    /// The number of 1 bits, parity bit included, is even.
    Even,
    /// The parity bit is always 1.
    Mark,
    /// The parity bit is always 0.
    Space,
}

impl Parity {
    /// The text shown for this value.
    pub open spec fn text(self) -> Seq<char> {
        match self {
            Parity::Off => "None"@,
            Parity::Odd => "Odd"@,
            Parity::Even => "Even"@,
            Parity::Mark => "Mark"@,
            Parity::Space => "Space"@,
        }
    }

    /// Renders the value by its name.
    pub fn to_string(&self) -> (r: String)
        ensures
            r@ == self.text(),
    {
        match *self {
            Parity::Off => "None".to_owned(),
            Parity::Odd => "Odd".to_owned(),
            Parity::Even => "Even".to_owned(),
            Parity::Mark => "Mark".to_owned(),
            Parity::Space => "Space".to_owned(),
        }
    }
}

/// Number of stop bits that end a character.
#[derive(Debug, Clone, Copy, PartialEq, Eq, Structural)]
pub enum StopBits {
    /// One stop bit.
    One,
    /// One and a half stop bits.
    OnePointFive,
    /// Two stop bits.
    Two,
}

impl StopBits {
    /// The text shown for this value.
    pub open spec fn text(self) -> Seq<char> {
        match self {
            StopBits::One => "1"@,
            StopBits::OnePointFive => "1.5"@,
            StopBits::Two => "2"@,
        }
    }

    /// Renders the value as its number of stop bits.
    pub fn to_string(&self) -> (r: String)
        ensures
            r@ == self.text(),
    {
        match *self {
            StopBits::One => "1".to_owned(),
            StopBits::OnePointFive => "1.5".to_owned(),
            StopBits::Two => "2".to_owned(),
        }
    }
}

/// Which of the device's buffers an operation discards.
#[derive(Debug, Clone, Copy, PartialEq, Eq, Structural)]
pub enum ClearBuffer {
    /// The bytes received and not yet read.
    Input,
    /// The bytes written and not yet transmitted.
    Output,
    /// Both buffers.
    All,
}

/// What a USB serial device says of itself.
#[derive(Debug, Clone, Copy, PartialEq, Eq, Structural)]
pub struct UsbPortInfo {
    /// The vendor id.
    pub vid: u16,
    /// The product id.
    pub pid: u16,
}

/// The transport that a serial device is attached by.
#[derive(Debug, Clone, Copy, PartialEq, Eq, Structural)]
pub enum SerialPortType {
    /// A USB device, with its vendor and product ids.
    UsbPort(UsbPortInfo),
    /// A Bluetooth device.
    BluetoothPort,
    /// A device on the PCI bus.
    PciPort,
    /// The transport is not known.
    Unknown,
}

/// One serial device as the host's device directory lists it.
#[derive(Debug, Clone, PartialEq, Eq)]
pub struct SerialPortInfo {
    /// The name under which the device is opened.
    pub port_name: String,
    /// The transport that the device is attached by.
    pub port_type: SerialPortType,
}

/// The time that a read or a write may take, as whole seconds and a rest in
/// nanoseconds. Zero means that operations do not block.
#[derive(Debug, Clone, Copy, PartialEq, Eq, Structural)]
pub struct Timeout {
    /// Whole seconds.
    pub secs: u64,
    /// The rest, in nanoseconds.
    pub nanos: u32,
}

impl Timeout {
    /// The whole milliseconds that the timeout holds.
    pub open spec fn millis(self) -> nat {
        (self.secs * 1000 + self.nanos / 1_000_000) as nat
    }

    /// A timeout of the given seconds and nanoseconds.
    pub fn new(secs: u64, nanos: u32) -> (r: Timeout)
        ensures
            r == (Timeout { secs, nanos }),
    {
        Timeout { secs, nanos }
    }

    /// The timeout of no time at all: operations return at once.
    pub fn zero() -> (r: Timeout)
        ensures
            r == (Timeout { secs: 0, nanos: 0 }),
            r.millis() == 0,
    {
        Timeout { secs: 0, nanos: 0 }
    }

    /// A timeout of whole seconds.
    pub fn from_secs(secs: u64) -> (r: Timeout)
        ensures
            r == (Timeout { secs, nanos: 0 }),
            r.millis() == secs * 1000,
    {
        Timeout { secs, nanos: 0 }
    }

    /// A timeout of whole milliseconds.
    pub fn from_millis(millis: u64) -> (r: Timeout)
        ensures
            r == (Timeout { secs: millis / 1000, nanos: ((millis % 1000) * 1_000_000) as u32 }),
            r.millis() == millis,
    {
        let rest: u32 = (millis % 1000) as u32;
        Timeout { secs: millis / 1000, nanos: rest * 1_000_000 }
    }

    /// The whole milliseconds that the timeout holds; what is left of a
    /// millisecond is dropped.
    pub fn as_millis(&self) -> (r: u128)
        ensures
            r == self.millis(),
    {
        let whole: u128 = (self.secs as u128) * 1000;
        let rest: u32 = self.nanos / 1_000_000;
        whole + rest as u128
    }
}

} // verus!
