//! The serial port (a 16550 UART): where its registers are, how it is set up, and the bytes
//! that carry each character written to it.
use vstd::prelude::*;
use vstd::string::StrSliceExecFns;

use crate::port::Port;
use crate::port::PortGeneric;

verus! {

/// The first serial port.
pub const COM1: u16 = 0x3F8;

/// The registers of one serial port, each a port above its base.
pub struct Writer {
    pub p_read_write: Port<u8>,
    pub p_interrupt: Port<u8>,
    pub p_fifo_control: Port<u8>,
    pub p_line_control: Port<u8>,
    pub p_modem_control: Port<u8>,
    pub p_line_status: Port<u8>,
}

/// Which register a set-up step writes.
#[derive(Clone, Copy, Debug, PartialEq, Eq, Structural)]
pub enum SerialRegister {
    ReadWrite,
    Interrupt,
    FifoControl,
    LineControl,
    ModemControl,
}

/// The bytes that encode `c` in UTF-8.
pub open spec fn utf8(c: char) -> Seq<u8> {
    let v = c as int;
    if v < 0x80 {
        seq![v as u8]
    } else if v < 0x800 {
        seq![(0xC0 + v / 64) as u8, (0x80 + v % 64) as u8]
    } else if v < 0x1_0000 {
        seq![(0xE0 + v / 4096) as u8, (0x80 + (v / 64) % 64) as u8, (0x80 + v % 64) as u8]
    } else {
        seq![
            (0xF0 + v / 0x4_0000) as u8,
            (0x80 + (v / 4096) % 64) as u8,
            (0x80 + (v / 64) % 64) as u8,
            (0x80 + v % 64) as u8,
        ]
    }
}

/// The bytes that encode the characters `cs` one after the other.
pub open spec fn utf8_all(cs: Seq<char>) -> Seq<u8>
    decreases cs.len(),
{
    if cs.len() == 0 {
        Seq::empty()
    } else {
        utf8_all(cs.drop_last()) + utf8(cs.last())
    }
}

/// The byte that the loopback test sends and expects back.
pub const LOOPBACK_TEST_BYTE: u8 = 0xAE;

impl Writer {
    /// The registers of the serial port at `port`.
    pub fn new(port: u16) -> (r: Writer)
        requires
            port + 5 <= u16::MAX,
        ensures
            r.p_read_write.port == port,
            r.p_interrupt.port == port + 1,
            r.p_fifo_control.port == port + 2,
            r.p_line_control.port == port + 3,
            r.p_modem_control.port == port + 4,
            r.p_line_status.port == port + 5,
    {
        Writer {
            p_read_write: PortGeneric::new(port),
            p_interrupt: PortGeneric::new(port + 1),
            p_fifo_control: PortGeneric::new(port + 2),
            p_line_control: PortGeneric::new(port + 3),
            p_modem_control: PortGeneric::new(port + 4),
            p_line_status: PortGeneric::new(port + 5),
        }
    }

    /// The writes that set the port up, in order, up to the loopback test: no interrupts,
    /// divisor 3 (38400 baud), 8 bits with no parity and one stop bit, FIFOs on and cleared
    /// with a 14-byte threshold, interrupts and RTS/DSR on, then loopback mode and the test
    /// byte.
    pub fn init_serial() -> (r: Vec<(SerialRegister, u8)>)
        ensures
            r@ == seq![
                (SerialRegister::Interrupt, 0x00u8),
                (SerialRegister::LineControl, 0x80u8),
                (SerialRegister::ReadWrite, 0x03u8),
                (SerialRegister::Interrupt, 0x00u8),
                (SerialRegister::LineControl, 0x03u8),
                (SerialRegister::FifoControl, 0xC7u8),
                (SerialRegister::ModemControl, 0x0Bu8),
                (SerialRegister::ModemControl, 0x1Eu8),
                (SerialRegister::ReadWrite, LOOPBACK_TEST_BYTE),
            ],
    {
        let mut r: Vec<(SerialRegister, u8)> = Vec::new();
        r.push((SerialRegister::Interrupt, 0x00));
        r.push((SerialRegister::LineControl, 0x80));
        r.push((SerialRegister::ReadWrite, 0x03));
        r.push((SerialRegister::Interrupt, 0x00));
        r.push((SerialRegister::LineControl, 0x03));
        r.push((SerialRegister::FifoControl, 0xC7));
        r.push((SerialRegister::ModemControl, 0x0B));
        r.push((SerialRegister::ModemControl, 0x1E));
        r.push((SerialRegister::ReadWrite, LOOPBACK_TEST_BYTE));
        r
    }

    /// The value for the modem control register once the loopback test read back
    /// `echoed`: normal operation (IRQs, OUT1 and OUT2 on), or none when the chip is faulty.
    pub fn after_loopback(echoed: u8) -> (r: Option<u8>)
        ensures
            r == (if echoed == LOOPBACK_TEST_BYTE {
                Some(0x0Fu8)
            } else {
                None
            }),
    {
        if echoed != LOOPBACK_TEST_BYTE {
            return None;
        }
        Some(0x0F)
    }

    /// Whether the line status `status` reports a received byte.
    pub fn serial_received(status: u8) -> (r: bool)
        ensures
            r == (status & 1 == 1),
    {
        (status & 1) == 1
    }

    /// Whether the line status `status` reports room to send.
    pub fn is_transmit_empty(status: u8) -> (r: bool)
        ensures
            r == (status & 0x20 != 0),
    {
        (status & 0x20) != 0
    }

    /// The bytes to send, in order, to write the character `a`: its UTF-8 encoding.
    pub fn write_char(&self, a: char) -> (r: Vec<u8>)
        ensures
            r@ == utf8(a),
    {
        let v = a as u32;
        let mut r: Vec<u8> = Vec::new();
        if v < 0x80 {
            r.push(v as u8);
        } else if v < 0x800 {
            r.push((0xC0 + v / 64) as u8);
            r.push((0x80 + v % 64) as u8);
        } else if v < 0x1_0000 {
            r.push((0xE0 + v / 4096) as u8);
            r.push((0x80 + (v / 64) % 64) as u8);
            r.push((0x80 + v % 64) as u8);
        } else {
            r.push((0xF0 + v / 0x4_0000) as u8);
            r.push((0x80 + (v / 4096) % 64) as u8);
            r.push((0x80 + (v / 64) % 64) as u8);
            r.push((0x80 + v % 64) as u8);
        }
        assert(r@ =~= utf8(a));
        r
    }

    /// The bytes to send, in order, to write `s`: the UTF-8 encoding of each of its
    /// characters.
    pub fn write_string(&self, s: &str) -> (r: Vec<u8>)
        ensures
            r@ == utf8_all(s@),
    {
        let n = s.unicode_len();
        let mut out: Vec<u8> = Vec::new();
        let mut i: usize = 0;
        while i < n
            invariant
                n == s@.len(),
                i <= n,
                out@ == utf8_all(s@.subrange(0, i as int)),
            decreases n - i,
        {
            let bytes = self.write_char(s.get_char(i));
            let mut k: usize = 0;
            let ghost before = out@;
            while k < bytes.len()
                invariant
                    k <= bytes@.len(),
                    out@ == before + bytes@.subrange(0, k as int),
                decreases bytes@.len() - k,
            {
                out.push(bytes[k]);
                k = k + 1;
                assert(out@ =~= before + bytes@.subrange(0, k as int));
            }
            assert(bytes@.subrange(0, k as int) =~= bytes@);
            assert(s@.subrange(0, i + 1).drop_last() =~= s@.subrange(0, i as int));
            i = i + 1;
        }
        assert(s@.subrange(0, n as int) =~= s@);
        out
    }
}

} // verus!
