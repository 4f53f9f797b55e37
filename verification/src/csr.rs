//! Control and status registers (CSRs).
//!
//! [`Csrs`] holds the values of the CSRs that the kernel reads and writes;
//! [`CsrFile`] pairs them with the ordered list of writes performed so far.
//! Code that owns the hardware fills a `CsrFile` from the registers, runs an
//! operation of this crate on it, and replays `writes` with `csrwr`.
use crate::bits::{
    field, fits, lemma_field_of_with_field, lemma_field_of_with_other_field, read_field,
    with_field, write_field,
};
use vstd::prelude::*;

verus! {

/// The CSRs that this crate reads or writes.
#[derive(Clone, Copy, Debug, PartialEq, Eq, Structural)]
pub enum Csr {
    /// Current mode information.
    Crmd,
    /// Exception status.
    Estat,
    /// Exception configuration (local interrupt enables).
    Ecfg,
    /// Bad virtual address of the last address-related exception.
    Badv,
    /// Exception entry base address.
    Eentry,
    /// Page global directory base address for the lower half.
    Pgdl,
    /// Page global directory base address for the higher half.
    Pgdh,
    /// Page walk controller, lower half.
    Pwcl,
    /// Page walk controller, higher half.
    Pwch,
    /// STLB page size.
    Stlbps,
    /// Timer configuration.
    Tcfg,
    /// Timer interrupt clearing.
    Ticlr,
    /// TLB refill exception entry base address.
    TlbrEntry,
    /// TLB refill exception entry high-order bits.
    TlbrEhi,
}

impl Csr {
    /// The CSR number that `csrrd` and `csrwr` take.
    pub open spec fn number_spec(self) -> u16 {
        match self {
            Csr::Crmd => 0x0,
            Csr::Estat => 0x5,
            Csr::Ecfg => 0x4,
            Csr::Badv => 0x7,
            Csr::Eentry => 0xc,
            Csr::Pgdl => 0x19,
            Csr::Pgdh => 0x1a,
            Csr::Pwcl => 0x1c,
            Csr::Pwch => 0x1d,
            Csr::Stlbps => 0x1e,
            Csr::Tcfg => 0x41,
            Csr::Ticlr => 0x44,
            Csr::TlbrEntry => 0x88,
            Csr::TlbrEhi => 0x8e,
        }
    }

    /// The CSR number that `csrrd` and `csrwr` take.
    pub fn number(&self) -> (r: u16)
        ensures
            r == self.number_spec(),
    {
        match self {
            Csr::Crmd => 0x0,
            Csr::Estat => 0x5,
            Csr::Ecfg => 0x4,
            Csr::Badv => 0x7,
            Csr::Eentry => 0xc,
            Csr::Pgdl => 0x19,
            Csr::Pgdh => 0x1a,
            Csr::Pwcl => 0x1c,
            Csr::Pwch => 0x1d,
            Csr::Stlbps => 0x1e,
            Csr::Tcfg => 0x41,
            Csr::Ticlr => 0x44,
            Csr::TlbrEntry => 0x88,
            Csr::TlbrEhi => 0x8e,
        }
    }
}

/// TICLR.CLR: writing 1 clears the pending timer interrupt.
pub const TICLR_CLR: u64 = 0;

/// ESTAT.IS bit of the timer interrupt.
pub const ESTAT_IS_TIMER: u64 = 11;

/// BADV bit that selects the higher-half page directory.
pub const BADV_HIGH_HALF: u64 = 63;

/// The page-aligned part of an address: its 12 low bits cleared.
pub open spec fn page_base(value: u64) -> u64 {
    value & 0xffff_ffff_ffff_f000
}

/// The CSRs that hold a page-aligned address, their 12 low bits reading as
/// zero.
pub open spec fn holds_page_base(csr: Csr) -> bool {
    csr == Csr::Eentry || csr == Csr::Pgdl || csr == Csr::Pgdh || csr == Csr::TlbrEntry
}

/// The values of the CSRs of one CPU.
#[derive(Clone, Copy, Debug, PartialEq, Eq, Structural)]
pub struct Csrs {
    pub crmd: u64,
    pub estat: u64,
    pub ecfg: u64,
    pub badv: u64,
    pub eentry: u64,
    pub pgdl: u64,
    pub pgdh: u64,
    pub pwcl: u64,
    pub pwch: u64,
    pub stlbps: u64,
    pub tcfg: u64,
    pub ticlr: u64,
    pub tlbrentry: u64,
    pub tlbrehi: u64,
}

impl Csrs {
    /// The value of `csr`.
    pub open spec fn get(self, csr: Csr) -> u64 {
        match csr {
            Csr::Crmd => self.crmd,
            Csr::Estat => self.estat,
            Csr::Ecfg => self.ecfg,
            Csr::Badv => self.badv,
            Csr::Eentry => self.eentry,
            Csr::Pgdl => self.pgdl,
            Csr::Pgdh => self.pgdh,
            Csr::Pwcl => self.pwcl,
            Csr::Pwch => self.pwch,
            Csr::Stlbps => self.stlbps,
            Csr::Tcfg => self.tcfg,
            Csr::Ticlr => self.ticlr,
            Csr::TlbrEntry => self.tlbrentry,
            Csr::TlbrEhi => self.tlbrehi,
        }
    }

    /// These values with `csr` replaced by `value`.
    pub open spec fn set(self, csr: Csr, value: u64) -> Csrs {
        match csr {
            Csr::Crmd => Csrs { crmd: value, ..self },
            Csr::Estat => Csrs { estat: value, ..self },
            Csr::Ecfg => Csrs { ecfg: value, ..self },
            Csr::Badv => Csrs { badv: value, ..self },
            Csr::Eentry => Csrs { eentry: value, ..self },
            Csr::Pgdl => Csrs { pgdl: value, ..self },
            Csr::Pgdh => Csrs { pgdh: value, ..self },
            Csr::Pwcl => Csrs { pwcl: value, ..self },
            Csr::Pwch => Csrs { pwch: value, ..self },
            Csr::Stlbps => Csrs { stlbps: value, ..self },
            Csr::Tcfg => Csrs { tcfg: value, ..self },
            Csr::Ticlr => Csrs { ticlr: value, ..self },
            Csr::TlbrEntry => Csrs { tlbrentry: value, ..self },
            Csr::TlbrEhi => Csrs { tlbrehi: value, ..self },
        }
    }

    /// The value that PGD reads outside a TLB refill: the page directory base
    /// of the half of the address space that BADV lies in (PGDL for the lower
    /// half, PGDH for the higher half).
    pub open spec fn pgd(self) -> u64 {
        if field(self.badv, BADV_HIGH_HALF, 1) == 0 {
            self.pgdl
        } else {
            self.pgdh
        }
    }

    /// The registers after `value` is written into `csr`. A write to TICLR
    /// with CLR set clears the pending timer interrupt in ESTAT; TICLR itself
    /// reads as zero. The address registers EENTRY, PGDL, PGDH and TLBRENTRY
    /// keep only the page-aligned part of `value` (their 12 low bits read as
    /// zero). Any other write stores `value`.
    pub open spec fn written(self, csr: Csr, value: u64) -> Csrs {
        if csr == Csr::Ticlr {
            Csrs {
                ticlr: 0,
                estat: if field(value, TICLR_CLR, 1) == 1 {
                    with_field(self.estat, ESTAT_IS_TIMER, 1, 0)
                } else {
                    self.estat
                },
                ..self
            }
        } else if holds_page_base(csr) {
            self.set(csr, page_base(value))
        } else {
            self.set(csr, value)
        }
    }

    /// The value that PGD reads.
    pub fn read_pgd(&self) -> (r: u64)
        ensures
            r == self.pgd(),
    {
        if read_field(self.badv, BADV_HIGH_HALF, 1) == 0 {
            self.pgdl
        } else {
            self.pgdh
        }
    }

    /// All registers zero.
    pub fn zeroed() -> (r: Csrs)
        ensures
            forall|c: Csr| #[trigger] r.get(c) == 0,
    {
        Csrs {
            crmd: 0,
            estat: 0,
            ecfg: 0,
            badv: 0,
            eentry: 0,
            pgdl: 0,
            pgdh: 0,
            pwcl: 0,
            pwch: 0,
            stlbps: 0,
            tcfg: 0,
            ticlr: 0,
            tlbrentry: 0,
            tlbrehi: 0,
        }
    }

    /// The value of `csr`.
    pub fn read(&self, csr: Csr) -> (r: u64)
        ensures
            r == self.get(csr),
    {
        match csr {
            Csr::Crmd => self.crmd,
            Csr::Estat => self.estat,
            Csr::Ecfg => self.ecfg,
            Csr::Badv => self.badv,
            Csr::Eentry => self.eentry,
            Csr::Pgdl => self.pgdl,
            Csr::Pgdh => self.pgdh,
            Csr::Pwcl => self.pwcl,
            Csr::Pwch => self.pwch,
            Csr::Stlbps => self.stlbps,
            Csr::Tcfg => self.tcfg,
            Csr::Ticlr => self.ticlr,
            Csr::TlbrEntry => self.tlbrentry,
            Csr::TlbrEhi => self.tlbrehi,
        }
    }
}

/// Reading a register after writing it gives the value written (its
/// page-aligned part for an address register), TICLR aside; the other registers keep their values, but for ESTAT under a TICLR
/// write.
pub proof fn lemma_get_written(regs: Csrs, csr: Csr, value: u64, other: Csr)
    ensures
        csr != Csr::Ticlr && !holds_page_base(csr) ==> regs.written(csr, value).get(csr)
            == value,
        holds_page_base(csr) ==> regs.written(csr, value).get(csr) == page_base(value),
        other != csr && !(csr == Csr::Ticlr && other == Csr::Estat) ==> regs.written(
            csr,
            value,
        ).get(other) == regs.get(other),
{
}

/// Writing TICLR with CLR set clears the pending timer interrupt and keeps
/// the other pending interrupts.
pub proof fn lemma_ticlr_clears_timer(regs: Csrs, value: u64, n: u64)
    requires
        field(value, TICLR_CLR, 1) == 1,
        n < 13,
        n != ESTAT_IS_TIMER,
    ensures
        field(regs.written(Csr::Ticlr, value).estat, ESTAT_IS_TIMER, 1) == 0,
        field(regs.written(Csr::Ticlr, value).estat, n, 1) == field(regs.estat, n, 1),
{
    assert(fits(0, 1)) by (bit_vector);
    lemma_field_of_with_field(regs.estat, ESTAT_IS_TIMER, 1, 0);
    lemma_field_of_with_other_field(regs.estat, ESTAT_IS_TIMER, 1, 0, n, 1);
}

/// One write of `value` into `csr`.
#[derive(Clone, Copy, Debug, PartialEq, Eq, Structural)]
pub struct CsrWrite {
    pub csr: Csr,
    pub value: u64,
}

/// The CSR values of one CPU and the writes made to them, oldest first.
pub struct CsrFile {
    pub regs: Csrs,
    pub writes: Vec<CsrWrite>,
}

impl CsrFile {
    /// A register file holding `regs`, with no writes made yet.
    pub fn new(regs: Csrs) -> (r: CsrFile)
        ensures
            r.regs == regs,
            r.writes@ == Seq::<CsrWrite>::empty(),
    {
        CsrFile { regs, writes: Vec::new() }
    }

    /// The value of `csr`.
    pub fn read(&self, csr: Csr) -> (r: u64)
        ensures
            r == self.regs.get(csr),
    {
        self.regs.read(csr)
    }

    /// Writes `value` into `csr` and records the write.
    pub fn write(&mut self, csr: Csr, value: u64)
        ensures
            final(self).regs == old(self).regs.written(csr, value),
            final(self).writes@ == old(self).writes@.push(CsrWrite { csr, value }),
    {
        match csr {
            Csr::Crmd => self.regs.crmd = value,
            Csr::Estat => self.regs.estat = value,
            Csr::Ecfg => self.regs.ecfg = value,
            Csr::Badv => self.regs.badv = value,
            Csr::Eentry => self.regs.eentry = value & 0xffff_ffff_ffff_f000,
            Csr::Pgdl => self.regs.pgdl = value & 0xffff_ffff_ffff_f000,
            Csr::Pgdh => self.regs.pgdh = value & 0xffff_ffff_ffff_f000,
            Csr::Pwcl => self.regs.pwcl = value,
            Csr::Pwch => self.regs.pwch = value,
            Csr::Stlbps => self.regs.stlbps = value,
            Csr::Tcfg => self.regs.tcfg = value,
            Csr::Ticlr => {
                if read_field(value, TICLR_CLR, 1) == 1 {
                    proof {
                        assert(fits(0, 1)) by (bit_vector);
                    }
                    self.regs.estat = write_field(self.regs.estat, ESTAT_IS_TIMER, 1, 0);
                }
                self.regs.ticlr = 0;
            },
            Csr::TlbrEntry => self.regs.tlbrentry = value & 0xffff_ffff_ffff_f000,
            Csr::TlbrEhi => self.regs.tlbrehi = value,
        }
        self.writes.push(CsrWrite { csr, value });
    }
}

/// PGD reads PGDL for an address of the lower half of the address space (top
/// bit of BADV clear) and PGDH for one of the higher half (top bit set); no
/// other bit of BADV matters.
pub proof fn lemma_pgd_by_half(regs: Csrs)
    ensures
        regs.badv < 0x8000_0000_0000_0000 ==> regs.pgd() == regs.pgdl,
        regs.badv >= 0x8000_0000_0000_0000 ==> regs.pgd() == regs.pgdh,
{
    let b = regs.badv;
    assert(b < 0x8000_0000_0000_0000 <==> field(b, 63, 1) == 0) by (bit_vector);
}

} // verus!
