//! Boot-time set-up of the TLB and of the hardware page-table walker.
use crate::arch::{init_tlb, tlbrentry_of, with_4k_pages};
use crate::bits::{field, fits, with_field, write_field};
use crate::csr::{Csr, CsrFile, CsrWrite};
use vstd::prelude::*;

verus! {

/// The PWCL value that describes the kernel's page tables: 4 KiB pages
/// (PTbase 12) with 9-bit page tables and two directory levels of 9 bits at
/// bits 21 and 30.
pub open spec fn pwcl_config(pwcl: u64) -> u64 {
    with_field(
        with_field(
            with_field(
                with_field(with_field(with_field(pwcl, 0, 5, 12), 5, 5, 9), 10, 5, 21),
                15,
                5,
                9,
            ),
            20,
            5,
            30,
        ),
        25,
        5,
        9,
    )
}

/// The PWCH value that describes the kernel's page tables: a third directory
/// level of 9 bits at bit 39 and no fourth level.
pub open spec fn pwch_config(pwch: u64) -> u64 {
    with_field(with_field(with_field(pwch, 0, 6, 39), 6, 6, 9), 18, 6, 0)
}

/// Sets up the TLB (see [`init_tlb`]) and the page walk controller for a
/// four-level page table of 4 KiB pages.
pub fn init_mmu(csrs: &mut CsrFile, tlb_refill_entry: usize)
    ensures
        ({
            let stlbps = with_4k_pages(old(csrs).regs.stlbps);
            let tlbrehi = with_4k_pages(old(csrs).regs.tlbrehi);
            let entry = tlbrentry_of(tlb_refill_entry);
            let pwcl = pwcl_config(old(csrs).regs.pwcl);
            let pwch = pwch_config(old(csrs).regs.pwch);
            &&& final(csrs).regs == old(csrs).regs.written(Csr::Stlbps, stlbps).written(
                Csr::TlbrEhi,
                tlbrehi,
            ).written(Csr::TlbrEntry, entry).written(Csr::Pwcl, pwcl).written(Csr::Pwch, pwch)
            &&& final(csrs).writes@ == old(csrs).writes@.push(
                CsrWrite { csr: Csr::Stlbps, value: stlbps },
            ).push(CsrWrite { csr: Csr::TlbrEhi, value: tlbrehi }).push(
                CsrWrite { csr: Csr::TlbrEntry, value: entry },
            ).push(CsrWrite { csr: Csr::Pwcl, value: pwcl }).push(
                CsrWrite { csr: Csr::Pwch, value: pwch },
            )
        }),
{
    init_tlb(csrs, tlb_refill_entry);
    proof {
        assert(fits(12, 5) && fits(9, 5) && fits(21, 5) && fits(30, 5)) by (bit_vector);
        assert(fits(39, 6) && fits(9, 6) && fits(0, 6)) by (bit_vector);
    }
    let v = csrs.read(Csr::Pwcl);
    let v = write_field(v, 0, 5, 12);  // page table base: bit 12
    let v = write_field(v, 5, 5, 9);  // page table index: 9 bits
    let v = write_field(v, 10, 5, 21);  // first directory level: bit 21
    let v = write_field(v, 15, 5, 9);  // first directory index: 9 bits
    let v = write_field(v, 20, 5, 30);  // second directory level: bit 30
    let v = write_field(v, 25, 5, 9);  // second directory index: 9 bits
    csrs.write(Csr::Pwcl, v);
    let v = csrs.read(Csr::Pwch);
    let v = write_field(v, 0, 6, 39);  // third directory level: bit 39
    let v = write_field(v, 6, 6, 9);  // third directory index: 9 bits
    let v = write_field(v, 18, 6, 0);  // no fourth directory level
    csrs.write(Csr::Pwch, v);
}

/// The page walk controller describes 4 KiB pages and three directory levels
/// of 9 index bits each, above the page-table level, and keeps the PTE width
/// field of PWCL.
pub proof fn lemma_walker_config(pwcl: u64, pwch: u64)
    ensures
        field(pwcl_config(pwcl), 0, 5) == 12,
        field(pwcl_config(pwcl), 5, 5) == 9,
        field(pwcl_config(pwcl), 10, 5) == 21,
        field(pwcl_config(pwcl), 15, 5) == 9,
        field(pwcl_config(pwcl), 20, 5) == 30,
        field(pwcl_config(pwcl), 25, 5) == 9,
        field(pwcl_config(pwcl), 30, 2) == field(pwcl, 30, 2),
        field(pwch_config(pwch), 0, 6) == 39,
        field(pwch_config(pwch), 6, 6) == 9,
        field(pwch_config(pwch), 18, 6) == 0,
        field(pwch_config(pwch), 12, 6) == field(pwch, 12, 6),
{
    assert({
        &&& field(pwcl_config(pwcl), 0, 5) == 12
        &&& field(pwcl_config(pwcl), 5, 5) == 9
        &&& field(pwcl_config(pwcl), 10, 5) == 21
        &&& field(pwcl_config(pwcl), 15, 5) == 9
        &&& field(pwcl_config(pwcl), 20, 5) == 30
        &&& field(pwcl_config(pwcl), 25, 5) == 9
        &&& field(pwcl_config(pwcl), 30, 2) == field(pwcl, 30, 2)
    }) by (bit_vector);
    assert({
        &&& field(pwch_config(pwch), 0, 6) == 39
        &&& field(pwch_config(pwch), 6, 6) == 9
        &&& field(pwch_config(pwch), 18, 6) == 0
        &&& field(pwch_config(pwch), 12, 6) == field(pwch, 12, 6)
    }) by (bit_vector);
}

} // verus!
