//! # 16550 UART
//!
//! What the serial driver decides: the register layout of a port, the
//! program that configures it, which bytes go out for each byte sent, and
//! how the line-status register is read. The port accesses themselves are
//! the caller's.
use vstd::prelude::*;

verus! {

/// The base I/O ports of the serial lines. COM1 and COM2 are reliable;
/// COM3 and COM4 less so.
#[derive(Clone, Copy, PartialEq, Eq, Debug, Structural)]
pub enum PortAddress {
    COM1,
    COM2,
    COM3,
    COM4,
}

impl PortAddress {
    /// The base I/O port of the line.
    pub open spec fn spec_base(self) -> u16 {
        match self {
            PortAddress::COM1 => 0x3F8,
            PortAddress::COM2 => 0x2F8,
            PortAddress::COM3 => 0x3E8,
            PortAddress::COM4 => 0x2E8,
        }
    }

    /// The base I/O port of the line.
    pub fn base(self) -> (r: u16)
        ensures
            r == self.spec_base(),
    {
        match self {
            PortAddress::COM1 => 0x3F8,
            PortAddress::COM2 => 0x2F8,
            PortAddress::COM3 => 0x3E8,
            PortAddress::COM4 => 0x2E8,
        }
    }
}

/// Line status: a received byte waits in the data register.
pub const INPUT_FULL: u8 = 1;

/// Line status: the transmitter can take a byte.
pub const OUTPUT_EMPTY: u8 = 1 << 5;

/// The backspace byte.
pub const BACKSPACE: u8 = 0x08;

/// The delete byte.
pub const DELETE: u8 = 0x7F;

/// The I/O ports of the registers of one serial line.
#[derive(Clone, Copy, PartialEq, Eq, Debug, Structural)]
pub struct SerialPort {
    pub data: u16,
    pub int_en: u16,
    pub fifo_ctrl: u16,
    pub line_ctrl: u16,
    pub modem_ctrl: u16,
    pub line_sts: u16,
}

impl SerialPort {
    /// The registers of the line at `base`, at the six ports from its base
    /// up.
    pub fn new(base: PortAddress) -> (r: SerialPort)
        ensures
            r.data == base.spec_base(),
            r.int_en == base.spec_base() + 1,
            r.fifo_ctrl == base.spec_base() + 2,
            r.line_ctrl == base.spec_base() + 3,
            r.modem_ctrl == base.spec_base() + 4,
            r.line_sts == base.spec_base() + 5,
    {
        let base = base.base();
        SerialPort {
            data: base,
            int_en: base + 1,
            fifo_ctrl: base + 2,
            line_ctrl: base + 3,
            modem_ctrl: base + 4,
            line_sts: base + 5,
        }
    }

    /// The writes that configure the line, in order: interrupts off, divisor
    /// 3 (38400 baud), 8 bits with no parity and one stop bit, FIFOs on and
    /// cleared, modem lines up, then the received-data interrupt on.
    pub open spec fn spec_init_sequence(self) -> Seq<(u16, u8)> {
        seq![
            (self.int_en, 0x00u8),
            (self.line_ctrl, 0x80u8),
            (self.data, 0x03u8),
            (self.int_en, 0x00u8),
            (self.line_ctrl, 0x03u8),
            (self.fifo_ctrl, 0xC7u8),
            (self.modem_ctrl, 0x0Bu8),
            (self.int_en, 0x01u8),
        ]
    }

    /// The writes that configure the line, as (port, value) pairs in order.
    pub fn init_sequence(&self) -> (r: Vec<(u16, u8)>)
        ensures
            r@ == self.spec_init_sequence(),
    {
        let mut r: Vec<(u16, u8)> = Vec::new();
        r.push((self.int_en, 0x00));
        r.push((self.line_ctrl, 0x80));
        r.push((self.data, 0x03));
        r.push((self.int_en, 0x00));
        r.push((self.line_ctrl, 0x03));
        r.push((self.fifo_ctrl, 0xC7));
        r.push((self.modem_ctrl, 0x0B));
        r.push((self.int_en, 0x01));
        assert(r@ =~= self.spec_init_sequence());
        r
    }
}

/// The bytes that go out on the line to send `data`: a backspace or a
/// delete erases the previous character (back, space, back); any other byte
/// goes out as it is.
pub open spec fn spec_send_sequence(data: u8) -> Seq<u8> {
    if data == BACKSPACE || data == DELETE {
        seq![BACKSPACE, 0x20u8, BACKSPACE]
    } else {
        seq![data]
    }
}

/// The bytes that go out on the line to send `data`, in order.
pub fn send_sequence(data: u8) -> (r: Vec<u8>)
    ensures
        r@ == spec_send_sequence(data),
{
    let mut r: Vec<u8> = Vec::new();
    if data == BACKSPACE || data == DELETE {
        r.push(BACKSPACE);
        r.push(0x20);
        r.push(BACKSPACE);
    } else {
        r.push(data);
    }
    assert(r@ =~= spec_send_sequence(data));
    r
}

/// Whether a line-status byte says the transmitter can take a byte.
pub fn output_empty(status: u8) -> (r: bool)
    ensures
        r == (status & OUTPUT_EMPTY == OUTPUT_EMPTY),
{
    status & OUTPUT_EMPTY == OUTPUT_EMPTY
}

/// Whether a line-status byte says a received byte is waiting.
pub fn input_full(status: u8) -> (r: bool)
    ensures
        r == (status & INPUT_FULL == INPUT_FULL),
{
    status & INPUT_FULL == INPUT_FULL
}

} // verus!
