//! Decoding of the exception status and the decisions of the trap handler.
use crate::bits::{field, read_field};
use crate::csr::{Csr, CsrFile, CsrWrite, ESTAT_IS_TIMER};
use crate::time::{clear_timer, ticlr_cleared};
use vstd::prelude::*;
use vstd::std_specs::bits::u64_trailing_zeros;

verus! {

/// ESTAT.IS: the pending interrupt bits.
pub const ESTAT_IS: u64 = 0;

/// Width of ESTAT.IS.
pub const ESTAT_IS_WIDTH: u64 = 13;

/// ESTAT.Ecode: the exception code.
pub const ESTAT_ECODE: u64 = 16;

/// Width of ESTAT.Ecode.
pub const ESTAT_ECODE_WIDTH: u64 = 6;

/// An interrupt, by its bit in ESTAT.IS.
#[derive(Clone, Copy, Debug, PartialEq, Eq, Structural)]
pub enum Interrupt {
    /// Software interrupt 0 or 1 (bits 0 and 1).
    Software(u32),
    /// Hardware interrupt 0 to 7 (bits 2 to 9).
    Hardware(u32),
    /// Performance monitor overflow (bit 10).
    PerformanceMonitor,
    /// Timer (bit 11).
    Timer,
    /// Inter-processor interrupt (bit 12).
    InterProcessor,
}

/// An exception, by its code in ESTAT.Ecode.
#[derive(Clone, Copy, Debug, PartialEq, Eq, Structural)]
pub enum Exception {
    /// Page invalid on a load (0x1).
    LoadPageFault,
    /// Page invalid on a store (0x2).
    StorePageFault,
    /// Page invalid on an instruction fetch (0x3).
    FetchPageFault,
    /// Page modification on a clean page (0x4).
    PageModifyFault,
    /// Page not readable (0x5).
    PageNonReadableFault,
    /// Page not executable (0x6).
    PageNonExecutableFault,
    /// Page privilege level illegal (0x7).
    PagePrivilegeIllegal,
    /// Address error (0x8).
    AddressError,
    /// Address not aligned (0x9).
    AddressNotAligned,
    /// Bound check failed (0xa).
    BoundsCheckFault,
    /// System call (0xb).
    Syscall,
    /// Breakpoint (0xc).
    Breakpoint,
    /// Instruction does not exist (0xd).
    InstructionNotExist,
    /// Instruction privilege error (0xe).
    InstructionPrivilegeError,
    /// Floating-point instruction disabled (0xf).
    FloatingPointUnavailable,
    /// TLB refill (0x3f).
    TlbRefill,
    /// Any other exception code.
    Other(u64),
}

/// The cause of a trap.
#[derive(Clone, Copy, Debug, PartialEq, Eq, Structural)]
pub enum Trap {
    Interrupt(Interrupt),
    Exception(Exception),
    /// An interrupt code with no pending interrupt bit.
    Unknown,
}

/// The interrupt of bit `n` of ESTAT.IS (`n < 13`).
pub open spec fn interrupt_of(n: u32) -> Interrupt {
    if n < 2 {
        Interrupt::Software(n)
    } else if n < 10 {
        Interrupt::Hardware((n - 2) as u32)
    } else if n == 10 {
        Interrupt::PerformanceMonitor
    } else if n == 11 {
        Interrupt::Timer
    } else {
        Interrupt::InterProcessor
    }
}

/// The exception of a nonzero exception code.
pub open spec fn exception_of(ecode: u64) -> Exception {
    if ecode == 0x1 {
        Exception::LoadPageFault
    } else if ecode == 0x2 {
        Exception::StorePageFault
    } else if ecode == 0x3 {
        Exception::FetchPageFault
    } else if ecode == 0x4 {
        Exception::PageModifyFault
    } else if ecode == 0x5 {
        Exception::PageNonReadableFault
    } else if ecode == 0x6 {
        Exception::PageNonExecutableFault
    } else if ecode == 0x7 {
        Exception::PagePrivilegeIllegal
    } else if ecode == 0x8 {
        Exception::AddressError
    } else if ecode == 0x9 {
        Exception::AddressNotAligned
    } else if ecode == 0xa {
        Exception::BoundsCheckFault
    } else if ecode == 0xb {
        Exception::Syscall
    } else if ecode == 0xc {
        Exception::Breakpoint
    } else if ecode == 0xd {
        Exception::InstructionNotExist
    } else if ecode == 0xe {
        Exception::InstructionPrivilegeError
    } else if ecode == 0xf {
        Exception::FloatingPointUnavailable
    } else if ecode == 0x3f {
        Exception::TlbRefill
    } else {
        Exception::Other(ecode)
    }
}

/// The cause that an ESTAT value reports: an exception when the exception
/// code is nonzero, otherwise the lowest pending interrupt.
pub open spec fn cause_of(estat: u64) -> Trap {
    let ecode = field(estat, ESTAT_ECODE, ESTAT_ECODE_WIDTH);
    let is = field(estat, ESTAT_IS, ESTAT_IS_WIDTH);
    if ecode != 0 {
        Trap::Exception(exception_of(ecode))
    } else if is == 0 {
        Trap::Unknown
    } else {
        Trap::Interrupt(interrupt_of(u64_trailing_zeros(is)))
    }
}

fn interrupt_from_bit(n: u32) -> (r: Interrupt)
    ensures
        r == interrupt_of(n),
{
    if n < 2 {
        Interrupt::Software(n)
    } else if n < 10 {
        Interrupt::Hardware(n - 2)
    } else if n == 10 {
        Interrupt::PerformanceMonitor
    } else if n == 11 {
        Interrupt::Timer
    } else {
        Interrupt::InterProcessor
    }
}

fn exception_from_code(ecode: u64) -> (r: Exception)
    ensures
        r == exception_of(ecode),
{
    if ecode == 0x1 {
        Exception::LoadPageFault
    } else if ecode == 0x2 {
        Exception::StorePageFault
    } else if ecode == 0x3 {
        Exception::FetchPageFault
    } else if ecode == 0x4 {
        Exception::PageModifyFault
    } else if ecode == 0x5 {
        Exception::PageNonReadableFault
    } else if ecode == 0x6 {
        Exception::PageNonExecutableFault
    } else if ecode == 0x7 {
        Exception::PagePrivilegeIllegal
    } else if ecode == 0x8 {
        Exception::AddressError
    } else if ecode == 0x9 {
        Exception::AddressNotAligned
    } else if ecode == 0xa {
        Exception::BoundsCheckFault
    } else if ecode == 0xb {
        Exception::Syscall
    } else if ecode == 0xc {
        Exception::Breakpoint
    } else if ecode == 0xd {
        Exception::InstructionNotExist
    } else if ecode == 0xe {
        Exception::InstructionPrivilegeError
    } else if ecode == 0xf {
        Exception::FloatingPointUnavailable
    } else if ecode == 0x3f {
        Exception::TlbRefill
    } else {
        Exception::Other(ecode)
    }
}

/// Decodes the cause of a trap from an ESTAT value.
pub fn cause(estat: u64) -> (r: Trap)
    ensures
        r == cause_of(estat),
{
    let ecode = read_field(estat, ESTAT_ECODE, ESTAT_ECODE_WIDTH);
    let is = read_field(estat, ESTAT_IS, ESTAT_IS_WIDTH);
    if ecode != 0 {
        Trap::Exception(exception_from_code(ecode))
    } else if is == 0 {
        Trap::Unknown
    } else {
        Trap::Interrupt(interrupt_from_bit(is.trailing_zeros()))
    }
}

/// The number of the lowest pending interrupt of a saved ESTAT value (64 when
/// none is pending).
pub fn irq_number(estat: usize) -> (r: usize)
    ensures
        r == u64_trailing_zeros(estat as u64),
{
    proof {
        vstd::std_specs::bits::axiom_u64_trailing_zeros(estat as u64);
    }
    (estat as u64).trailing_zeros() as usize
}

/// Whether the trap handler handles a cause: interrupts and breakpoints.
pub open spec fn handled(cause: Trap) -> bool {
    cause is Interrupt || cause == Trap::Exception(Exception::Breakpoint)
}

/// Whether the trap handler handles `cause`; on any other cause the kernel
/// panics, reporting the cause.
pub fn handles(cause: Trap) -> (r: bool)
    ensures
        r == handled(cause),
{
    match cause {
        Trap::Interrupt(_) => true,
        Trap::Exception(Exception::Breakpoint) => true,
        _ => false,
    }
}

/// What the trap handler does with a trap.
#[derive(Clone, Copy, Debug, PartialEq, Eq, Structural)]
pub enum TrapAction {
    /// Report the breakpoint at the saved exception return address.
    Breakpoint,
    /// Hand the IRQ with this number to the interrupt dispatcher.
    Irq(usize),
}

/// The trap handler: decodes the cause from the current ESTAT; a timer
/// interrupt is cleared first; any interrupt goes to the dispatcher with the
/// number of the lowest pending interrupt of the saved ESTAT (`frame_estat`);
/// a breakpoint is reported. It takes only the causes it handles (see
/// [`handles`]): the kernel panics on any other.
pub fn loongarch64_trap_handler(csrs: &mut CsrFile, frame_estat: usize) -> (r: TrapAction)
    requires
        handled(cause_of(old(csrs).regs.estat)),
    ensures
        ({
            let cause = cause_of(old(csrs).regs.estat);
            let irq = u64_trailing_zeros(frame_estat as u64) as usize;
            &&& cause == Trap::Interrupt(Interrupt::Timer) ==> {
                &&& r == TrapAction::Irq(irq)
                &&& field(final(csrs).regs.estat, ESTAT_IS_TIMER, 1) == 0
                &&& final(csrs).regs == old(csrs).regs.written(
                    Csr::Ticlr,
                    ticlr_cleared(old(csrs).regs.ticlr),
                )
                &&& final(csrs).writes@ == old(csrs).writes@.push(
                    CsrWrite { csr: Csr::Ticlr, value: ticlr_cleared(old(csrs).regs.ticlr) },
                )
            }
            &&& cause != Trap::Interrupt(Interrupt::Timer) ==> {
                &&& final(csrs).regs == old(csrs).regs
                &&& final(csrs).writes@ == old(csrs).writes@
            }
            &&& cause == Trap::Exception(Exception::Breakpoint) ==> r == TrapAction::Breakpoint
            &&& (cause is Interrupt && cause != Trap::Interrupt(Interrupt::Timer)) ==> r
                == TrapAction::Irq(irq)
        }),
{
    let cause = cause(csrs.read(Csr::Estat));
    match cause {
        Trap::Interrupt(Interrupt::Timer) => {
            clear_timer(csrs);
            TrapAction::Irq(irq_number(frame_estat))
        },
        Trap::Interrupt(_) => TrapAction::Irq(irq_number(frame_estat)),
        _ => TrapAction::Breakpoint,
    }
}

/// The ISA's exception-code table: an ESTAT whose Ecode field (bits 21..16)
/// holds code `k` reports the exception of that code, whatever its other bits.
pub proof fn lemma_exception_codes(estat: u64)
    ensures
        ({
            let k = (estat >> 16u64) & 0x3f;
            &&& k == 0x1 ==> cause_of(estat) == Trap::Exception(Exception::LoadPageFault)
            &&& k == 0x2 ==> cause_of(estat) == Trap::Exception(Exception::StorePageFault)
            &&& k == 0x3 ==> cause_of(estat) == Trap::Exception(Exception::FetchPageFault)
            &&& k == 0x4 ==> cause_of(estat) == Trap::Exception(Exception::PageModifyFault)
            &&& k == 0x5 ==> cause_of(estat) == Trap::Exception(Exception::PageNonReadableFault)
            &&& k == 0x6 ==> cause_of(estat) == Trap::Exception(Exception::PageNonExecutableFault)
            &&& k == 0x7 ==> cause_of(estat) == Trap::Exception(Exception::PagePrivilegeIllegal)
            &&& k == 0x8 ==> cause_of(estat) == Trap::Exception(Exception::AddressError)
            &&& k == 0x9 ==> cause_of(estat) == Trap::Exception(Exception::AddressNotAligned)
            &&& k == 0xa ==> cause_of(estat) == Trap::Exception(Exception::BoundsCheckFault)
            &&& k == 0xb ==> cause_of(estat) == Trap::Exception(Exception::Syscall)
            &&& k == 0xc ==> cause_of(estat) == Trap::Exception(Exception::Breakpoint)
            &&& k == 0xd ==> cause_of(estat) == Trap::Exception(Exception::InstructionNotExist)
            &&& k == 0xe ==> cause_of(estat) == Trap::Exception(
                Exception::InstructionPrivilegeError,
            )
            &&& k == 0xf ==> cause_of(estat) == Trap::Exception(
                Exception::FloatingPointUnavailable,
            )
            &&& k == 0x3f ==> cause_of(estat) == Trap::Exception(Exception::TlbRefill)
            &&& (0x10 <= k < 0x3f) ==> cause_of(estat) == Trap::Exception(Exception::Other(k))
        }),
{
    assert(field(estat, ESTAT_ECODE, ESTAT_ECODE_WIDTH) == (estat >> 16u64) & 0x3f)
        by (bit_vector);
}

/// The exception code `k` placed in the Ecode field, with no interrupt
/// pending, is the ESTAT value `k << 16`.
pub proof fn lemma_ecode_value(k: u64)
    requires
        k < 0x40,
    ensures
        ((k << 16u64) >> 16u64) & 0x3f == k,
        field(k << 16u64, ESTAT_IS, ESTAT_IS_WIDTH) == 0,
{
    assert(((k << 16u64) >> 16u64) & 0x3f == k) by (bit_vector)
        requires
            k < 0x40,
    ;
    assert(field(k << 16u64, ESTAT_IS, ESTAT_IS_WIDTH) == 0) by (bit_vector)
        requires
            k < 0x40,
    ;
}

/// With no exception code, the cause is the lowest pending interrupt line:
/// the line numbers of the ISA (software 0 and 1, hardware 0 to 7, the
/// performance monitor, the timer at line 11, inter-processor at line 12).
pub proof fn lemma_interrupt_lines(estat: u64, n: u32)
    requires
        (estat >> 16u64) & 0x3f == 0,
        n < 13,
        (estat >> (n as u64)) & 1 == 1,
        forall|j: u64| j < n ==> (#[trigger] (estat >> j)) & 1 == 0,
    ensures
        n == 0 ==> cause_of(estat) == Trap::Interrupt(Interrupt::Software(0)),
        n == 1 ==> cause_of(estat) == Trap::Interrupt(Interrupt::Software(1)),
        2 <= n < 10 ==> cause_of(estat) == Trap::Interrupt(Interrupt::Hardware((n - 2) as u32)),
        n == 10 ==> cause_of(estat) == Trap::Interrupt(Interrupt::PerformanceMonitor),
        n == 11 ==> cause_of(estat) == Trap::Interrupt(Interrupt::Timer),
        n == 12 ==> cause_of(estat) == Trap::Interrupt(Interrupt::InterProcessor),
{
    let is = field(estat, ESTAT_IS, ESTAT_IS_WIDTH);
    assert(field(estat, ESTAT_ECODE, ESTAT_ECODE_WIDTH) == (estat >> 16u64) & 0x3f)
        by (bit_vector);
    assert(field(estat, ESTAT_IS, ESTAT_IS_WIDTH) == estat & 0x1fff) by (bit_vector);
    let nn = n as u64;
    assert forall|j: u64| j < nn implies #[trigger] (is >> j) & 1 == 0 by {
        assert((estat >> j) & 1 == 0);
        assert(j < 13 && (estat >> j) & 1 == 0 ==> ((estat & 0x1fff) >> j) & 1 == 0)
            by (bit_vector);
    }
    assert(nn < 13 && (estat >> nn) & 1 == 1 ==> ((estat & 0x1fff) >> nn) & 1 == 1)
        by (bit_vector);
    assert(is != 0) by {
        assert(((is >> nn) & 1 == 1) ==> is != 0) by (bit_vector);
    }
    vstd::std_specs::bits::axiom_u64_trailing_zeros(is);
    let tz = u64_trailing_zeros(is) as u64;
    if tz < nn {
        assert((is >> tz) & 1 == 0);
    } else if tz > nn {
        assert((is >> nn) & 1 == 0);
    }
    assert(u64_trailing_zeros(is) == n);
}

/// The trap handler accepts exactly the interrupts and the breakpoint: every
/// other exception, page faults and system calls among them, and an unknown
/// cause are refused.
pub proof fn lemma_handled_causes(c: Trap)
    ensures
        c is Interrupt ==> handled(c),
        handled(Trap::Exception(Exception::Breakpoint)),
        c matches Trap::Exception(e) && e != Exception::Breakpoint ==> !handled(c),
        !handled(Trap::Unknown),
        !handled(Trap::Exception(Exception::StorePageFault)),
        !handled(Trap::Exception(Exception::LoadPageFault)),
        !handled(Trap::Exception(Exception::Syscall)),
{
}

} // verus!
