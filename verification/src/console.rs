//! The console: a 16550-style UART reached through memory-mapped registers,
//! and I/O ports reached through `iocsrrd`/`iocsrwr`.
//!
//! The UART protocol is written as step functions: the caller performs the
//! register access that a step asks for and hands its result to the next step.
use vstd::prelude::*;

verus! {

/// Physical (uncached window) address of the console UART.
pub const UART_ADDR: u64 = 0x9000_0000_1FE0_01E0;

/// Offset of the data register (transmit holding / receive buffer).
pub const UART_DATA: u64 = 0;

/// Offset of the line status register.
pub const UART_LSR: u64 = 5;

/// Line status: the transmit holding register is empty.
pub const LSR_THRE: u8 = 0x20;

/// Line status: received data is ready.
pub const LSR_DR: u8 = 0x01;

/// Carriage return.
pub const CR: u8 = 0x0d;

/// Line feed.
pub const LF: u8 = 0x0a;

/// An I/O port, reached with `iocsrrd.w` and `iocsrwr.w`.
pub struct Port {
    port: u16,
}

impl Port {
    /// The port number.
    pub closed spec fn number_spec(&self) -> u16 {
        self.port
    }

    /// Creates an I/O port with the given port number.
    pub fn new(port: u16) -> (r: Port)
        ensures
            r.number_spec() == port,
    {
        Port { port }
    }

    /// The port number.
    pub fn number(&self) -> (r: u16)
        ensures
            r == self.number_spec(),
    {
        self.port
    }
}

/// A UART with its registers at `base_address`.
pub struct Uart {
    base_address: u64,
}

/// What transmitting a byte asks of the caller next.
#[derive(Clone, Copy, Debug, PartialEq, Eq, Structural)]
pub enum TxStep {
    /// Read the byte at `addr` (the line status) and pass it to the next step.
    ReadStatus { addr: u64 },
    /// Write `byte` at `addr` (the data register); the byte is then sent.
    Write { addr: u64, byte: u8 },
}

/// What receiving a byte has learnt so far.
#[derive(Clone, Copy, Debug, PartialEq, Eq, Structural)]
pub enum RxState {
    /// Nothing read yet.
    Start,
    /// The line status was read.
    Status(u8),
    /// The data register was read.
    Data(u8),
}

/// What receiving a byte asks of the caller next.
#[derive(Clone, Copy, Debug, PartialEq, Eq, Structural)]
pub enum RxStep {
    /// Read the line status at `addr`, then step with [`RxState::Status`].
    ReadStatus { addr: u64 },
    /// Read the data register at `addr`, then step with [`RxState::Data`].
    ReadData { addr: u64 },
    /// Receiving is over, with the byte if there was one.
    Done(Option<u8>),
}

/// Whether a line status shows an empty transmit holding register.
pub open spec fn can_transmit(lsr: u8) -> bool {
    lsr & LSR_THRE != 0
}

/// Whether a line status shows received data.
pub open spec fn has_data(lsr: u8) -> bool {
    lsr & LSR_DR != 0
}

impl Uart {
    /// The address of the UART's registers.
    pub closed spec fn base_spec(&self) -> u64 {
        self.base_address
    }

    /// The UART's registers lie in the address space.
    pub open spec fn wf(&self) -> bool {
        self.base_spec() + UART_LSR <= u64::MAX
    }

    /// The UART whose registers are at `base_address`.
    pub fn new(base_address: u64) -> (r: Uart)
        ensures
            r.base_spec() == base_address,
    {
        Uart { base_address }
    }

    /// The address of the UART's registers.
    pub fn base_address(&self) -> (r: u64)
        ensures
            r == self.base_spec(),
    {
        self.base_address
    }

    /// Transmits the byte `c`: the line status is polled until the transmit
    /// holding register is empty, then `c` is written to the data register.
    /// `status` is the line status read in the previous step, if any.
    pub fn putchar(&self, c: u8, status: Option<u8>) -> (r: TxStep)
        requires
            self.wf(),
        ensures
            match status {
                Some(lsr) if can_transmit(lsr) => r == TxStep::Write {
                    addr: (self.base_spec() + UART_DATA) as u64,
                    byte: c,
                },
                _ => r == TxStep::ReadStatus { addr: (self.base_spec() + UART_LSR) as u64 },
            },
    {
        match status {
            Some(lsr) => {
                if lsr & LSR_THRE != 0 {
                    TxStep::Write { addr: self.base_address + UART_DATA, byte: c }
                } else {
                    TxStep::ReadStatus { addr: self.base_address + UART_LSR }
                }
            },
            None => TxStep::ReadStatus { addr: self.base_address + UART_LSR },
        }
    }

    /// Receives a byte: the line status is read once; without received data
    /// the result is `None`, otherwise the data register is read and its byte
    /// is the result.
    pub fn getchar(&self, state: RxState) -> (r: RxStep)
        requires
            self.wf(),
        ensures
            match state {
                RxState::Start => r == RxStep::ReadStatus {
                    addr: (self.base_spec() + UART_LSR) as u64,
                },
                RxState::Status(lsr) => if has_data(lsr) {
                    r == RxStep::ReadData { addr: (self.base_spec() + UART_DATA) as u64 }
                } else {
                    r == RxStep::Done(None)
                },
                RxState::Data(d) => r == RxStep::Done(Some(d)),
            },
    {
        match state {
            RxState::Start => RxStep::ReadStatus { addr: self.base_address + UART_LSR },
            RxState::Status(lsr) => {
                if lsr & LSR_DR == 0 {
                    RxStep::Done(None)
                } else {
                    RxStep::ReadData { addr: self.base_address + UART_DATA }
                }
            },
            RxState::Data(d) => RxStep::Done(Some(d)),
        }
    }
}

/// The console UART.
pub fn com1() -> (r: Uart)
    ensures
        r.base_spec() == UART_ADDR,
        r.wf(),
{
    Uart::new(UART_ADDR)
}

/// The bytes that writing `c` to the console sends to the UART, in order: a
/// line feed goes out as carriage return and line feed.
pub open spec fn console_bytes(c: u8) -> Seq<u8> {
    if c == LF {
        seq![CR, LF]
    } else {
        seq![c]
    }
}

/// Writes a byte to the console: the bytes to transmit on the console UART,
/// in order.
pub fn putchar(c: u8) -> (r: Vec<u8>)
    ensures
        r@ == console_bytes(c),
{
    let mut out: Vec<u8> = Vec::new();
    if c == LF {
        out.push(CR);
        out.push(LF);
    } else {
        out.push(c);
    }
    out
}

/// Reads a byte from the console: the next step of receiving from the
/// console UART, which ends with `None` if no input is available.
pub fn getchar(state: RxState) -> (r: RxStep)
    ensures
        match state {
            RxState::Start => r == RxStep::ReadStatus { addr: (UART_ADDR + UART_LSR) as u64 },
            RxState::Status(lsr) => if has_data(lsr) {
                r == RxStep::ReadData { addr: (UART_ADDR + UART_DATA) as u64 }
            } else {
                r == RxStep::Done(None)
            },
            RxState::Data(d) => r == RxStep::Done(Some(d)),
        },
{
    com1().getchar(state)
}

/// The UART may take a byte exactly when bit 5 of the line status (THRE)
/// is set, and has received data exactly when bit 0 (DR) is set; no other
/// status bit matters.
pub proof fn lemma_line_status_bits(lsr: u8)
    ensures
        can_transmit(lsr) <==> (lsr >> 5u8) & 1 == 1,
        has_data(lsr) <==> lsr % 2 == 1,
        can_transmit(lsr) <==> (lsr / 32) % 2 == 1,
{
    assert(lsr & 0x20 != 0 <==> (lsr >> 5u8) & 1 == 1) by (bit_vector);
    assert(lsr & 0x20 != 0 <==> (lsr / 32) % 2 == 1) by (bit_vector);
    assert(lsr & 0x01 != 0 <==> lsr % 2 == 1) by (bit_vector);
}

/// The console sends a line feed as carriage return and line feed, and every
/// other byte, control bytes included, unchanged and alone.
pub proof fn lemma_console_bytes(c: u8)
    ensures
        c != 10 ==> console_bytes(c) == seq![c],
        console_bytes(10) == seq![13u8, 10u8],
        console_bytes(c).len() >= 1,
        console_bytes(c).last() == c,
{
}

} // verus!
