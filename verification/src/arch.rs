//! Interrupt enabling, the exception entry, the TLB refill entry and the
//! page-table root, on the CSR model of [`crate::csr`].
use crate::bits::{
    field, fits, get_bits, lemma_field_of_with_field, lemma_field_of_with_other_field, read_field,
    valid_field, with_field, write_field,
};
use crate::csr::{page_base, Csr, CsrFile, CsrWrite, Csrs};
use vstd::prelude::*;

verus! {

/// CRMD.IE: the global interrupt enable bit.
pub const CRMD_IE: u64 = 2;

/// EENTRY.VA: bits 63..12 of the exception entry address.
pub const EENTRY_VA: u64 = 12;

/// Width of EENTRY.VA.
pub const EENTRY_VA_WIDTH: u64 = 52;

/// STLBPS.PS and TLBREHI.PS: the page size, as a power of two.
pub const PS_FIELD: u64 = 0;

/// Width of the page-size fields.
pub const PS_WIDTH: u64 = 6;

/// The page size of 4 KiB, as the exponent that STLBPS.PS and TLBREHI.PS hold.
pub const PAGE_SIZE_4K_SHIFT: u64 = 0xc;

/// Whether a CRMD value has interrupts enabled.
pub open spec fn ie_of(crmd: u64) -> bool {
    field(crmd, CRMD_IE, 1) == 1
}

/// `crmd` with the interrupt enable bit set to `ie`.
pub open spec fn crmd_with_ie(crmd: u64, ie: bool) -> u64 {
    with_field(crmd, CRMD_IE, 1, if ie { 1 } else { 0 })
}

/// The EENTRY value that makes `eentry` the exception entry: bits 63..12 of
/// `eentry`, the bits below reading as zero.
pub open spec fn eentry_value(eentry: usize) -> u64 {
    with_field(0, EENTRY_VA, EENTRY_VA_WIDTH, (eentry as u64) >> 12)
}

/// A page-size register (STLBPS or TLBREHI) set to 4 KiB pages.
pub open spec fn with_4k_pages(old: u64) -> u64 {
    with_field(old, PS_FIELD, PS_WIDTH, PAGE_SIZE_4K_SHIFT)
}

/// The TLBRENTRY value for a refill handler at `entry`: its 32 low bits.
pub open spec fn tlbrentry_of(entry: usize) -> u64 {
    field(entry as u64, 0, 32)
}

fn crmd_set_ie(crmd: u64, ie: bool) -> (r: u64)
    ensures
        r == crmd_with_ie(crmd, ie),
{
    proof {
        assert(fits(1, 1) && fits(0, 1)) by (bit_vector);
        assert(valid_field(CRMD_IE, 1));
    }
    write_field(crmd, CRMD_IE, 1, if ie { 1 } else { 0 })
}

/// Returns whether the current CPU is allowed to respond to interrupts.
pub fn irqs_enabled(csrs: &CsrFile) -> (r: bool)
    ensures
        r == ie_of(csrs.regs.crmd),
{
    read_field(csrs.read(Csr::Crmd), CRMD_IE, 1) == 1
}

/// Allows the current CPU to respond to interrupts.
pub fn enable_irqs(csrs: &mut CsrFile)
    ensures
        final(csrs).regs == old(csrs).regs.written(Csr::Crmd, crmd_with_ie(old(csrs).regs.crmd, true)),
        final(csrs).writes@ == old(csrs).writes@.push(
            CsrWrite { csr: Csr::Crmd, value: crmd_with_ie(old(csrs).regs.crmd, true) },
        ),
{
    let v = crmd_set_ie(csrs.read(Csr::Crmd), true);
    csrs.write(Csr::Crmd, v);
}

/// Makes the current CPU ignore interrupts.
pub fn disable_irqs(csrs: &mut CsrFile)
    ensures
        final(csrs).regs == old(csrs).regs.written(Csr::Crmd, crmd_with_ie(old(csrs).regs.crmd, false)),
        final(csrs).writes@ == old(csrs).writes@.push(
            CsrWrite { csr: Csr::Crmd, value: crmd_with_ie(old(csrs).regs.crmd, false) },
        ),
{
    let v = crmd_set_ie(csrs.read(Csr::Crmd), false);
    csrs.write(Csr::Crmd, v);
}

/// Reads the register that stores the current page table root (PGD): the
/// physical address of the page table root.
pub fn read_page_table_root(csrs: &CsrFile) -> (r: u64)
    ensures
        r == csrs.regs.pgd(),
{
    csrs.regs.read_pgd()
}

/// Writes the registers to update the current page table root: PGDL and
/// PGDH are both written with `root_paddr` unless the current root already is
/// `root_paddr`. A page-aligned root then reads back exactly, whichever half of
/// the address space BADV lies in; after a write, the root reads back as the
/// page-aligned part of `root_paddr`.
pub fn write_page_table_root(csrs: &mut CsrFile, root_paddr: u64)
    ensures
        root_paddr % 0x1000 == 0 ==> final(csrs).regs.pgd() == root_paddr,
        old(csrs).regs.pgd() != root_paddr ==> final(csrs).regs.pgd() == page_base(root_paddr),
        old(csrs).regs.pgd() != root_paddr ==> {
            &&& final(csrs).regs == old(csrs).regs.written(Csr::Pgdl, root_paddr).written(
                Csr::Pgdh,
                root_paddr,
            )
            &&& final(csrs).writes@ == old(csrs).writes@.push(
                CsrWrite { csr: Csr::Pgdl, value: root_paddr },
            ).push(CsrWrite { csr: Csr::Pgdh, value: root_paddr })
        },
        old(csrs).regs.pgd() == root_paddr ==> {
            &&& final(csrs).regs == old(csrs).regs
            &&& final(csrs).writes@ == old(csrs).writes@
        },
{
    let old_root = read_page_table_root(csrs);
    proof {
        lemma_page_base(root_paddr);
    }
    if old_root != root_paddr {
        csrs.write(Csr::Pgdl, root_paddr);
        csrs.write(Csr::Pgdh, root_paddr);
    }
}

/// Taking the page-aligned part twice changes nothing, and a page-aligned
/// root is its own page-aligned part.
proof fn lemma_page_base(root: u64)
    ensures
        page_base(page_base(root)) == page_base(root),
        root % 0x1000 == 0 ==> page_base(root) == root,
        page_base(root) % 0x1000 == 0,
{
    assert(root & 0xffff_ffff_ffff_f000 & 0xffff_ffff_ffff_f000 == root & 0xffff_ffff_ffff_f000)
        by (bit_vector);
    assert(root % 0x1000 == 0 ==> root & 0xffff_ffff_ffff_f000 == root) by (bit_vector);
    assert((root & 0xffff_ffff_ffff_f000) % 0x1000 == 0) by (bit_vector);
}

/// Writes the exception entry base address (`eentry`) with interrupts
/// disabled, then enables interrupts. A page-aligned `eentry` is then the
/// exception entry exactly.
pub fn set_trap_vector_base(csrs: &mut CsrFile, eentry: usize)
    ensures
        (eentry as u64) % 0x1000 == 0 ==> final(csrs).regs.eentry == eentry as u64,
        ie_of(final(csrs).regs.crmd),
        ({
            let crmd0 = crmd_with_ie(old(csrs).regs.crmd, false);
            let base = eentry_value(eentry);
            let crmd1 = crmd_with_ie(crmd0, true);
            &&& final(csrs).regs == old(csrs).regs.written(Csr::Crmd, crmd0).written(Csr::Eentry, base).written(
                Csr::Crmd,
                crmd1,
            )
            &&& final(csrs).writes@ == old(csrs).writes@.push(
                CsrWrite { csr: Csr::Crmd, value: crmd0 },
            ).push(CsrWrite { csr: Csr::Eentry, value: base }).push(
                CsrWrite { csr: Csr::Crmd, value: crmd1 },
            )
        }),
{
    disable_irqs(csrs);
    let e = eentry as u64;
    let va = e >> 12;
    proof {
        assert(fits(e >> 12, 52)) by (bit_vector);
    }
    let v = write_field(0, EENTRY_VA, EENTRY_VA_WIDTH, va);
    csrs.write(Csr::Eentry, v);
    enable_irqs(csrs);
    proof {
        lemma_trap_vector_base(crmd_with_ie(old(csrs).regs.crmd, false), eentry);
    }
}

fn set_4k_pages(old: u64) -> (r: u64)
    ensures
        r == with_4k_pages(old),
{
    proof {
        assert(fits(0xc, 6)) by (bit_vector);
    }
    write_field(old, PS_FIELD, PS_WIDTH, PAGE_SIZE_4K_SHIFT)
}

/// Sets the page size of the STLB and of TLB refills to 4 KiB, and makes
/// `tlb_refill_entry` the TLB refill exception entry.
pub fn init_tlb(csrs: &mut CsrFile, tlb_refill_entry: usize)
    ensures
        ({
            let stlbps = with_4k_pages(old(csrs).regs.stlbps);
            let tlbrehi = with_4k_pages(old(csrs).regs.tlbrehi);
            let entry = tlbrentry_of(tlb_refill_entry);
            &&& final(csrs).regs == old(csrs).regs.written(Csr::Stlbps, stlbps).written(
                Csr::TlbrEhi,
                tlbrehi,
            ).written(Csr::TlbrEntry, entry)
            &&& final(csrs).writes@ == old(csrs).writes@.push(
                CsrWrite { csr: Csr::Stlbps, value: stlbps },
            ).push(CsrWrite { csr: Csr::TlbrEhi, value: tlbrehi }).push(
                CsrWrite { csr: Csr::TlbrEntry, value: entry },
            )
        }),
{
    let v = set_4k_pages(csrs.read(Csr::Stlbps));
    csrs.write(Csr::Stlbps, v);
    let v = set_4k_pages(csrs.read(Csr::TlbrEhi));
    csrs.write(Csr::TlbrEhi, v);
    set_tlb_handler(csrs, tlb_refill_entry);
}

/// Writes the TLB refill exception entry base address (TLBRENTRY) with the
/// 32 low bits of `tlb_refill_entry`.
pub fn set_tlb_handler(csrs: &mut CsrFile, tlb_refill_entry: usize)
    ensures
        final(csrs).regs == old(csrs).regs.written(Csr::TlbrEntry, tlbrentry_of(tlb_refill_entry)),
        final(csrs).writes@ == old(csrs).writes@.push(
            CsrWrite { csr: Csr::TlbrEntry, value: tlbrentry_of(tlb_refill_entry) },
        ),
{
    let v = get_bits(tlb_refill_entry as u64, 0, 32);
    csrs.write(Csr::TlbrEntry, v);
}

/// Setting the interrupt enable bit and reading it back gives what was set,
/// and every other CRMD field is kept.
pub proof fn lemma_crmd_ie(crmd: u64, ie: bool, lo: u64, w: u64)
    requires
        valid_field(lo, w),
        lo + w <= CRMD_IE || CRMD_IE + 1 <= lo,
    ensures
        ie_of(crmd_with_ie(crmd, ie)) == ie,
        field(crmd_with_ie(crmd, ie), lo, w) == field(crmd, lo, w),
{
    let f: u64 = if ie { 1 } else { 0 };
    assert(fits(1, 1) && fits(0, 1)) by (bit_vector);
    lemma_field_of_with_field(crmd, CRMD_IE, 1, f);
    lemma_field_of_with_other_field(crmd, CRMD_IE, 1, f, lo, w);
}

/// After `set_trap_vector_base(eentry)` interrupts are enabled, the
/// exception entry holds `eentry` with its 12 low bits cleared, and a
/// page-aligned `eentry` exactly.
pub proof fn lemma_trap_vector_base(crmd: u64, eentry: usize)
    ensures
        ie_of(crmd_with_ie(crmd, true)),
        eentry_value(eentry) == (eentry as u64) & !0xfffu64,
        page_base(eentry_value(eentry)) == eentry_value(eentry),
        (eentry as u64) % 0x1000 == 0 ==> eentry_value(eentry) == eentry as u64,
{
    lemma_crmd_ie(crmd, true, 0, 1);
    let e = eentry as u64;
    assert(with_field(0, 12, 52, e >> 12) == e & !0xfffu64) by (bit_vector);
    assert(e % 0x1000 == 0 ==> e & !0xfffu64 == e) by (bit_vector);
    assert((e & !0xfffu64) & 0xffff_ffff_ffff_f000 == e & !0xfffu64) by (bit_vector);
}

/// Writing the page-table root into PGDL and PGDH and reading it back gives
/// the root written (its page-aligned part), whichever half of the address
/// space BADV lies in.
pub proof fn lemma_page_table_root_round_trip(regs: Csrs, root_paddr: u64)
    ensures
        regs.written(Csr::Pgdl, root_paddr).written(Csr::Pgdh, root_paddr).pgd() == page_base(
            root_paddr,
        ),
        root_paddr % 0x1000 == 0 ==> regs.written(Csr::Pgdl, root_paddr).written(
            Csr::Pgdh,
            root_paddr,
        ).pgd() == root_paddr,
{
    lemma_page_base(root_paddr);
}

/// The TLB refill entry holds the refill handler address modulo 2^32.
pub proof fn lemma_tlbrentry(entry: usize)
    ensures
        tlbrentry_of(entry) == (entry as u64) % 0x1_0000_0000,
{
    let e = entry as u64;
    assert(((e >> 0u64) & !(u64::MAX << 32u64)) == e % 0x1_0000_0000) by (bit_vector);
}

} // verus!
