//! The device-control block: the operating system's record of a line's
//! parameters, how a configuration is written into it, and how it is read
//! back.

use vstd::prelude::*;
use crate::builder::{Configuration, SerialPortBuilder};
use crate::config::{ClearBuffer, DataBits, FlowControl, Parity, StopBits, Timeout};
use crate::error::Error;

verus! {

/// The parity field's value for no parity.
pub const NOPARITY: u8 = 0;

/// The parity field's value for odd parity.
pub const ODDPARITY: u8 = 1;

/// The parity field's value for even parity.
pub const EVENPARITY: u8 = 2;

/// The parity field's value for mark parity.
pub const MARKPARITY: u8 = 3;

/// The parity field's value for space parity.
pub const SPACEPARITY: u8 = 4;

/// The stop-bits field's value for one stop bit.
pub const ONESTOPBIT: u8 = 0;

/// The stop-bits field's value for one and a half stop bits.
pub const ONE5STOPBITS: u8 = 1;

/// The stop-bits field's value for two stop bits.
pub const TWOSTOPBITS: u8 = 2;

/// RTS flow control: the line stays off.
pub const RTS_CONTROL_DISABLE: u32 = 0;

/// RTS flow control: the line takes part in the handshake.
pub const RTS_CONTROL_HANDSHAKE: u32 = 2;

/// The largest value of a 32-bit word.
pub const MAXDWORD: u32 = 0xffff_ffff;

/// Purge: abort the writes that are under way.
pub const PURGE_TXABORT: u32 = 0x0001;

/// Purge: abort the reads that are under way.
pub const PURGE_RXABORT: u32 = 0x0002;

/// Purge: discard the output buffer.
pub const PURGE_TXCLEAR: u32 = 0x0004;

/// Purge: discard the input buffer.
pub const PURGE_RXCLEAR: u32 = 0x0008;

/// The bits of the flag word that flow control owns: CTS output flow (bit 2),
/// XON/XOFF on output (bit 8) and on input (bit 9), and RTS control (bits 12
/// and 13).
pub const FLOW_MASK: u32 = 0x3304;

/// The bits of the flag word that hardware flow control shows in.
pub const HARDWARE_MASK: u32 = 0x3004;

/// The bits of the flag word that software flow control shows in.
pub const SOFTWARE_MASK: u32 = 0x0300;

/// The field of `width_mask` bits that starts at bit `start` of `bits`.
pub open spec fn field(bits: u32, start: u32, width_mask: u32) -> u32 {
    (bits >> start) & width_mask
}

/// `bits` with the field of `width_mask` bits at bit `start` replaced by `val`,
/// of which the bits beyond the field are dropped.
pub open spec fn with_field(bits: u32, start: u32, width_mask: u32, val: u32) -> u32 {
    (bits & !(width_mask << start)) | ((val << start) & (width_mask << start))
}

/// The flag bits that stand for a flow control, the others being zero.
pub open spec fn flow_bits(flow_control: FlowControl) -> u32 {
    match flow_control {
        FlowControl::Off => 0x0000,
        FlowControl::Software => 0x0300,
        FlowControl::Hardware => 0x2004,
    }
}

/// The value of the byte-size field for a number of data bits.
pub open spec fn byte_size_of(data_bits: DataBits) -> u8 {
    data_bits.bits()
}

/// The value of the stop-bits field for a number of stop bits.
pub open spec fn stop_bits_code(stop_bits: StopBits) -> u8 {
    match stop_bits {
        StopBits::One => ONESTOPBIT,
        StopBits::OnePointFive => ONE5STOPBITS,
        StopBits::Two => TWOSTOPBITS,
    }
}

/// The value of the parity field for a parity.
pub open spec fn parity_code(parity: Parity) -> u8 {
    match parity {
        Parity::Off => NOPARITY,
        Parity::Odd => ODDPARITY,
        Parity::Even => EVENPARITY,
        Parity::Mark => MARKPARITY,
        Parity::Space => SPACEPARITY,
    }
}

/// The device-control block of a serial line, field for field as the
/// operating system keeps it. The flags share one 32-bit word.
#[derive(Debug, Clone, Copy, PartialEq, Eq, Structural)]
pub struct WindowsDCB {
    /// The size of the block in bytes.
    pub dcb_length: u32,
    /// Symbols per second.
    pub baud_rate: u32,
    /// The flag word.
    pub bit_fields: u32,
    /// Reserved; not used.
    pub reserved: u16,
    /// Bytes in the input buffer below which XON is sent.
    pub xon_lim: u16,
    /// Free bytes in the input buffer below which XOFF is sent.
    pub xoff_lim: u16,
    /// Data bits per character.
    pub byte_size: u8,
    /// The parity scheme, by its code.
    pub parity: u8,
    /// The stop bits, by their code.
    pub stop_bits: u8,
    /// The XON character.
    pub xon_char: i8,
    /// The XOFF character.
    pub xoff_char: i8,
    /// The character that replaces bytes with a parity error.
    pub error_char: i8,
    /// The character that signals the end of data.
    pub eof_char: i8,
    /// The character that signals an event.
    pub evt_char: i8,
    /// Reserved; not used.
    pub reserved1: u16,
}

impl WindowsDCB {
    /// The block with another baud rate.
    pub open spec fn with_baud_rate(self, baud_rate: u32) -> WindowsDCB {
        WindowsDCB { baud_rate, ..self }
    }

    /// The block with the byte size of the given data bits.
    pub open spec fn with_data_bits(self, data_bits: DataBits) -> WindowsDCB {
        WindowsDCB { byte_size: byte_size_of(data_bits), ..self }
    }

    /// The block with the code of the given stop bits.
    pub open spec fn with_stop_bits(self, stop_bits: StopBits) -> WindowsDCB {
        WindowsDCB { stop_bits: stop_bits_code(stop_bits), ..self }
    }

    /// The block with the code of the given parity.
    pub open spec fn with_parity(self, parity: Parity) -> WindowsDCB {
        WindowsDCB { parity: parity_code(parity), ..self }
    }

    /// The block with the flow-control bits of its flag word replaced by those
    /// of the given flow control; every other bit stays.
    pub open spec fn with_flow_control(self, flow_control: FlowControl) -> WindowsDCB {
        WindowsDCB {
            bit_fields: (self.bit_fields & !FLOW_MASK) | flow_bits(flow_control),
            ..self
        }
    }

    /// The block after a whole configuration has been written into it: baud
    /// rate, data bits, stop bits, parity and flow control.
    pub open spec fn updated(self, configuration: Configuration) -> WindowsDCB {
        self.with_baud_rate(configuration.baud_rate).with_data_bits(
            configuration.data_bits,
        ).with_stop_bits(configuration.stop_bits).with_parity(
            configuration.parity,
        ).with_flow_control(configuration.flow_control)
    }

    /// The data bits that the block stands for, if its byte size is one of 5 to 8.
    pub open spec fn decode_data_bits(self) -> Result<DataBits, Error> {
        if self.byte_size == 5 {
            Ok(DataBits::Five)
        } else if self.byte_size == 6 {
            Ok(DataBits::Six)
        } else if self.byte_size == 7 {
            Ok(DataBits::Seven)
        } else if self.byte_size == 8 {
            Ok(DataBits::Eight)
        } else {
            Err(Error::InvalidData)
        }
    }

    /// The stop bits that the block stands for, if its code is a known one.
    pub open spec fn decode_stop_bits(self) -> Result<StopBits, Error> {
        if self.stop_bits == ONESTOPBIT {
            Ok(StopBits::One)
        } else if self.stop_bits == ONE5STOPBITS {
            Ok(StopBits::OnePointFive)
        } else if self.stop_bits == TWOSTOPBITS {
            Ok(StopBits::Two)
        } else {
            Err(Error::InvalidData)
        }
    }

    /// The parity that the block stands for, if its code is a known one.
    pub open spec fn decode_parity(self) -> Result<Parity, Error> {
        if self.parity == NOPARITY {
            Ok(Parity::Off)
        } else if self.parity == ODDPARITY {
            Ok(Parity::Odd)
        } else if self.parity == EVENPARITY {
            Ok(Parity::Even)
        } else if self.parity == MARKPARITY {
            Ok(Parity::Mark)
        } else if self.parity == SPACEPARITY {
            Ok(Parity::Space)
        } else {
            Err(Error::InvalidData)
        }
    }

    /// The flow control that the flag word shows. Hardware wins over software:
    /// a block with any hardware bit set reads as hardware flow control,
    /// whatever its software bits are.
    pub open spec fn decode_flow_control(self) -> FlowControl {
        if self.bit_fields & HARDWARE_MASK != 0 {
            FlowControl::Hardware
        } else if self.bit_fields & SOFTWARE_MASK != 0 {
            FlowControl::Software
        } else {
            FlowControl::Off
        }
    }

    /// Whether the block holds the line-control values of a configuration:
    /// reading it back gives each of them again.
    pub open spec fn carries(self, configuration: Configuration) -> bool {
        &&& self.baud_rate == configuration.baud_rate
        &&& self.decode_data_bits() == Ok::<DataBits, Error>(configuration.data_bits)
        &&& self.decode_stop_bits() == Ok::<StopBits, Error>(configuration.stop_bits)
        &&& self.decode_parity() == Ok::<Parity, Error>(configuration.parity)
        &&& self.decode_flow_control() == configuration.flow_control
    }

    /// The flag for flow control of the output by the CTS line (bit 2).
    pub fn outx_cts_flow(&self) -> (r: u32)
        ensures
            r == field(self.bit_fields, 2, 0x1),
    {
        (self.bit_fields >> 2) & 0x1
    }

    /// Sets the flag for flow control of the output by the CTS line.
    pub fn set_outx_cts_flow(&mut self, val: u32)
        ensures
            *final(self) == (WindowsDCB {
                bit_fields: with_field(old(self).bit_fields, 2, 0x1, val),
                ..*old(self)
            }),
    {
        self.bit_fields = (self.bit_fields & !(0x1u32 << 2)) | ((val << 2) & (0x1u32 << 2));
    }

    /// The flag for XON/XOFF flow control of the output (bit 8).
    pub fn out_x(&self) -> (r: u32)
        ensures
            r == field(self.bit_fields, 8, 0x1),
    {
        (self.bit_fields >> 8) & 0x1
    }

    /// Sets the flag for XON/XOFF flow control of the output.
    pub fn set_out_x(&mut self, val: u32)
        ensures
            *final(self) == (WindowsDCB {
                bit_fields: with_field(old(self).bit_fields, 8, 0x1, val),
                ..*old(self)
            }),
    {
        self.bit_fields = (self.bit_fields & !(0x1u32 << 8)) | ((val << 8) & (0x1u32 << 8));
    }

    /// The flag for XON/XOFF flow control of the input (bit 9).
    pub fn in_x(&self) -> (r: u32)
        ensures
            r == field(self.bit_fields, 9, 0x1),
    {
        (self.bit_fields >> 9) & 0x1
    }

    /// Sets the flag for XON/XOFF flow control of the input.
    pub fn set_in_x(&mut self, val: u32)
        ensures
            *final(self) == (WindowsDCB {
                bit_fields: with_field(old(self).bit_fields, 9, 0x1, val),
                ..*old(self)
            }),
    {
        self.bit_fields = (self.bit_fields & !(0x1u32 << 9)) | ((val << 9) & (0x1u32 << 9));
    }

    /// The RTS control mode (bits 12 and 13).
    pub fn rts_control(&self) -> (r: u32)
        ensures
            r == field(self.bit_fields, 12, 0x3),
    {
        (self.bit_fields >> 12) & 0x3
    }

    /// Sets the RTS control mode.
    pub fn set_rts_control(&mut self, val: u32)
        ensures
            *final(self) == (WindowsDCB {
                bit_fields: with_field(old(self).bit_fields, 12, 0x3, val),
                ..*old(self)
            }),
    {
        self.bit_fields = (self.bit_fields & !(0x3u32 << 12)) | ((val << 12) & (0x3u32 << 12));
    }

    /// Writes a whole configuration into the block: baud rate, data bits, stop
    /// bits, parity and flow control. Nothing else in the block changes.
    pub fn update(&mut self, builder: &SerialPortBuilder) -> (r: &mut Self)
        ensures
            *r == old(self).updated(builder@),
            *final(self) == *final(r),
    {
        proof {
            builder.view_is_fields();
        }
        self.baud_rate(builder.baud_rate).data_bits(builder.data_bits).stop_bits(
            builder.stop_bits,
        ).parity(builder.parity).flow_control(builder.flow_control)
    }

    /// Writes the baud rate into the block.
    pub fn baud_rate(&mut self, baud_rate: u32) -> (r: &mut Self)
        ensures
            *r == old(self).with_baud_rate(baud_rate),
            *final(self) == *final(r),
    {
        self.baud_rate = baud_rate;
        self
    }

    /// Writes the data bits into the block, as its byte size.
    pub fn data_bits(&mut self, data_bits: DataBits) -> (r: &mut Self)
        ensures
            *r == old(self).with_data_bits(data_bits),
            *final(self) == *final(r),
    {
        self.byte_size = match data_bits {
            DataBits::Five => 5,
            DataBits::Six => 6,
            DataBits::Seven => 7,
            DataBits::Eight => 8,
        };
        self
    }

    /// Writes the stop bits into the block, by their code.
    pub fn stop_bits(&mut self, stop_bits: StopBits) -> (r: &mut Self)
        ensures
            *r == old(self).with_stop_bits(stop_bits),
            *final(self) == *final(r),
    {
        self.stop_bits = match stop_bits {
            StopBits::One => ONESTOPBIT,
            StopBits::OnePointFive => ONE5STOPBITS,
            StopBits::Two => TWOSTOPBITS,
        };
        self
    }

    /// Writes the parity into the block, by its code.
    pub fn parity(&mut self, parity: Parity) -> (r: &mut Self)
        ensures
            *r == old(self).with_parity(parity),
            *final(self) == *final(r),
    {
        self.parity = match parity {
            Parity::Off => NOPARITY,
            Parity::Odd => ODDPARITY,
            Parity::Even => EVENPARITY,
            Parity::Mark => MARKPARITY,
            Parity::Space => SPACEPARITY,
        };
        self
    }

    /// Writes the flow control into the flag word: no flow control clears the
    /// CTS, RTS and XON/XOFF flags, software flow control sets XON/XOFF in both
    /// directions only, hardware flow control sets the CTS flag and the RTS
    /// handshake only. The other flags stay as they are.
    pub fn flow_control(&mut self, flow_control: FlowControl) -> (r: &mut Self)
        ensures
            *r == old(self).with_flow_control(flow_control),
            *final(self) == *final(r),
    {
        let ghost before = self.bit_fields;
        match flow_control {
            FlowControl::Off => {
                self.set_outx_cts_flow(0);
                self.set_rts_control(RTS_CONTROL_DISABLE);
                self.set_out_x(0);
                self.set_in_x(0);
                assert(with_field(
                    with_field(with_field(with_field(before, 2, 0x1, 0), 12, 0x3, 0), 8, 0x1, 0),
                    9,
                    0x1,
                    0,
                ) == (before & !0x3304u32) | 0x0000u32) by (bit_vector);
            },
            FlowControl::Software => {
                self.set_outx_cts_flow(0);
                self.set_rts_control(RTS_CONTROL_DISABLE);
                self.set_out_x(1);
                self.set_in_x(1);
                assert(with_field(
                    with_field(with_field(with_field(before, 2, 0x1, 0), 12, 0x3, 0), 8, 0x1, 1),
                    9,
                    0x1,
                    1,
                ) == (before & !0x3304u32) | 0x0300u32) by (bit_vector);
            },
            FlowControl::Hardware => {
                self.set_outx_cts_flow(1);
                self.set_rts_control(RTS_CONTROL_HANDSHAKE);
                self.set_out_x(0);
                self.set_in_x(0);
                assert(with_field(
                    with_field(with_field(with_field(before, 2, 0x1, 1), 12, 0x3, 2), 8, 0x1, 0),
                    9,
                    0x1,
                    0,
                ) == (before & !0x3304u32) | 0x2004u32) by (bit_vector);
            },
        }
        self
    }

    /// Reads the baud rate from the block.
    pub fn read_baud_rate(&self) -> (r: u32)
        ensures
            r == self.baud_rate,
    {
        self.baud_rate
    }

    /// Reads the data bits back from the block. A byte size other than 5, 6, 7
    /// or 8 is `InvalidData`.
    pub fn read_data_bits(&self) -> (r: Result<DataBits, Error>)
        ensures
            r == self.decode_data_bits(),
    {
        match self.byte_size {
            5 => Ok(DataBits::Five),
            6 => Ok(DataBits::Six),
            7 => Ok(DataBits::Seven),
            8 => Ok(DataBits::Eight),
            _ => Err(Error::InvalidData),
        }
    }

    /// Reads the stop bits back from the block. A code that stands for none of
    /// the three is `InvalidData`.
    pub fn read_stop_bits(&self) -> (r: Result<StopBits, Error>)
        ensures
            r == self.decode_stop_bits(),
    {
        if self.stop_bits == ONESTOPBIT {
            Ok(StopBits::One)
        } else if self.stop_bits == ONE5STOPBITS {
            Ok(StopBits::OnePointFive)
        } else if self.stop_bits == TWOSTOPBITS {
            Ok(StopBits::Two)
        } else {
            Err(Error::InvalidData)
        }
    }

    /// Reads the parity back from the block. A code that stands for none of
    /// the five is `InvalidData`.
    pub fn read_parity(&self) -> (r: Result<Parity, Error>)
        ensures
            r == self.decode_parity(),
    {
        if self.parity == NOPARITY {
            Ok(Parity::Off)
        } else if self.parity == ODDPARITY {
            Ok(Parity::Odd)
        } else if self.parity == EVENPARITY {
            Ok(Parity::Even)
        } else if self.parity == MARKPARITY {
            Ok(Parity::Mark)
        } else if self.parity == SPACEPARITY {
            Ok(Parity::Space)
        } else {
            Err(Error::InvalidData)
        }
    }

    /// Reads the flow control back from the flag word. The reading loses
    /// information: where the CTS flag is set or RTS control is not disabled
    /// the answer is hardware flow control, whatever the XON/XOFF flags say;
    /// only with both of those clear do the XON/XOFF flags decide between
    /// software flow control and none.
    pub fn read_flow_control(&self) -> (r: FlowControl)
        ensures
            r == self.decode_flow_control(),
    {
        let bits = self.bit_fields;
        assert((field(bits, 2, 0x1) != 0 || field(bits, 12, 0x3) != 0) <==> bits & 0x3004u32 != 0)
            by (bit_vector);
        assert((field(bits, 8, 0x1) != 0 || field(bits, 9, 0x1) != 0) <==> bits & 0x0300u32 != 0)
            by (bit_vector);
        if self.outx_cts_flow() != 0 || self.rts_control() != RTS_CONTROL_DISABLE {
            FlowControl::Hardware
        } else if self.out_x() != 0 || self.in_x() != 0 {
            FlowControl::Software
        } else {
            FlowControl::Off
        }
    }
}

/// Writing a flow control into any flag word and reading the word back gives
/// that flow control again, and the bits that flow control does not own are
/// untouched.
pub proof fn lemma_flow_control_round_trip(block: WindowsDCB, flow_control: FlowControl)
    ensures
        block.with_flow_control(flow_control).decode_flow_control() == flow_control,
        block.with_flow_control(flow_control).bit_fields & !FLOW_MASK == block.bit_fields
            & !FLOW_MASK,
{
    let bits = block.bit_fields;
    assert(((bits & !0x3304u32) | 0x0000u32) & 0x3004u32 == 0 && ((bits & !0x3304u32) | 0x0000u32)
        & 0x0300u32 == 0 && ((bits & !0x3304u32) | 0x0000u32) & !0x3304u32 == bits & !0x3304u32)
        by (bit_vector);
    assert(((bits & !0x3304u32) | 0x0300u32) & 0x3004u32 == 0 && ((bits & !0x3304u32) | 0x0300u32)
        & 0x0300u32 != 0 && ((bits & !0x3304u32) | 0x0300u32) & !0x3304u32 == bits & !0x3304u32)
        by (bit_vector);
    assert(((bits & !0x3304u32) | 0x2004u32) & 0x3004u32 != 0 && ((bits & !0x3304u32) | 0x2004u32)
        & !0x3304u32 == bits & !0x3304u32) by (bit_vector);
}

/// Writing a configuration into any block and reading the block back gives the
/// configuration's baud rate, data bits, stop bits, parity and flow control
/// again.
pub proof fn lemma_update_round_trip(block: WindowsDCB, configuration: Configuration)
    ensures
        block.updated(configuration).carries(configuration),
{
    let written = block.with_baud_rate(configuration.baud_rate).with_data_bits(
        configuration.data_bits,
    ).with_stop_bits(configuration.stop_bits).with_parity(configuration.parity);
    lemma_flow_control_round_trip(written, configuration.flow_control);
}

/// The time limits that the operating system puts on reads and writes, in
/// milliseconds.
#[derive(Debug, Clone, Copy, PartialEq, Eq, Structural)]
pub struct CommTimeouts {
    /// The longest gap between two bytes of one read.
    pub read_interval_timeout: u32,
    /// Time per requested byte of a read.
    pub read_total_timeout_multiplier: u32,
    /// Time added once to each read.
    pub read_total_timeout_constant: u32,
    /// Time per byte of a write.
    pub write_total_timeout_multiplier: u32,
    /// Time added once to each write.
    pub write_total_timeout_constant: u32,
}

impl CommTimeouts {
    /// The milliseconds of a timeout as the operating system takes them: the
    /// whole milliseconds, and `MAXDWORD - 1` where there are more than that.
    pub open spec fn clamped_millis(timeout: Timeout) -> u32 {
        if timeout.millis() <= MAXDWORD - 1 {
            timeout.millis() as u32
        } else {
            (MAXDWORD - 1) as u32
        }
    }

    /// The time limits that stand for a timeout: reads and writes each get the
    /// clamped milliseconds as their constant, nothing per byte, and a read
    /// never waits for the gap between two bytes. A timeout of zero therefore
    /// makes a read return at once with what is there.
    pub open spec fn of(timeout: Timeout) -> CommTimeouts {
        CommTimeouts {
            read_interval_timeout: MAXDWORD,
            read_total_timeout_multiplier: 0,
            read_total_timeout_constant: Self::clamped_millis(timeout),
            write_total_timeout_multiplier: 0,
            write_total_timeout_constant: Self::clamped_millis(timeout),
        }
    }

    /// Turns a timeout into the operating system's time limits. One
    /// timeout governs reads and writes alike; a timeout beyond what 32 bits of
    /// milliseconds hold is clamped, not wrapped.
    pub fn from_timeout(timeout: Timeout) -> (r: CommTimeouts)
        ensures
            r == CommTimeouts::of(timeout),
    {
        let limit: u128 = (MAXDWORD - 1) as u128;
        let whole: u128 = timeout.as_millis();
        let milliseconds: u32 = if whole <= limit {
            whole as u32
        } else {
            MAXDWORD - 1
        };
        CommTimeouts {
            read_interval_timeout: MAXDWORD,
            read_total_timeout_multiplier: 0,
            read_total_timeout_constant: milliseconds,
            write_total_timeout_multiplier: 0,
            write_total_timeout_constant: milliseconds,
        }
    }
}

/// The purge flags that discard a buffer: clearing a direction also aborts the
/// transfer that is under way in it.
pub open spec fn purge_flags_of(buffer: ClearBuffer) -> u32 {
    match buffer {
        ClearBuffer::Input => 0x000a,
        ClearBuffer::Output => 0x0005,
        ClearBuffer::All => 0x000f,
    }
}

/// Computes the purge flags for a buffer selection: the abort and the clear
/// flag of the input, of the output, or of both.
pub fn purge_flags(buffer: ClearBuffer) -> (r: u32)
    ensures
        r == purge_flags_of(buffer),
{
    assert(0x0002u32 | 0x0008u32 == 0x000au32) by (bit_vector);
    assert(0x0001u32 | 0x0004u32 == 0x0005u32) by (bit_vector);
    assert(0x0002u32 | 0x0008u32 | 0x0001u32 | 0x0004u32 == 0x000fu32) by (bit_vector);
    match buffer {
        ClearBuffer::Input => PURGE_RXABORT | PURGE_RXCLEAR,
        ClearBuffer::Output => PURGE_TXABORT | PURGE_TXCLEAR,
        ClearBuffer::All => PURGE_RXABORT | PURGE_RXCLEAR | PURGE_TXABORT | PURGE_TXCLEAR,
    }
}

} // verus!
