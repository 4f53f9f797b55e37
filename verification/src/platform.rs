//! Platform set-up of the QEMU LoongArch virt machine.
use crate::arch::crmd_with_ie;
use crate::csr::{Csr, CsrFile, CsrWrite};
use crate::time::ticlr_cleared;
use vstd::prelude::*;

verus! {

/// Initializes the platform devices for the primary CPU: the interrupt
/// set-up ([`crate::irq::init_primary`]), then the timer set-up
/// ([`crate::time::init_primary`]).
pub fn platform_init(csrs: &mut CsrFile)
    ensures
        ({
            let crmd0 = crmd_with_ie(old(csrs).regs.crmd, false);
            let crmd1 = crmd_with_ie(crmd0, false);
            let ticlr = ticlr_cleared(old(csrs).regs.ticlr);
            &&& final(csrs).regs == old(csrs).regs.written(Csr::Crmd, crmd0).written(Csr::Crmd, crmd1).written(
                Csr::Ticlr,
                ticlr,
            )
            &&& final(csrs).writes@ == old(csrs).writes@.push(
                CsrWrite { csr: Csr::Crmd, value: crmd0 },
            ).push(CsrWrite { csr: Csr::Crmd, value: crmd1 }).push(
                CsrWrite { csr: Csr::Ticlr, value: ticlr },
            )
        }),
{
    crate::irq::init_primary(csrs);
    crate::time::init_primary(csrs);
}

/// Initializes the platform devices for secondary CPUs: there is nothing to
/// set up.
pub fn platform_init_secondary() {
}

} // verus!
