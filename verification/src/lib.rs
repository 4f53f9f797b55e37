//! A verified model of the LoongArch64 hardware-abstraction layer of a small
//! kernel: control and status register (CSR) updates, trap decoding, the
//! 16550-style console protocol, the IRQ handler table and timer arithmetic.
//!
//! Registers are modelled as plain `u64` values held in a [`csr::CsrFile`];
//! every operation records the CSR writes it performs, in order, so that the
//! code that owns the hardware can replay them.

pub mod bits;
pub mod csr;
pub mod arch;
pub mod time;
pub mod irq;
pub mod boot;
pub mod platform;
pub mod trap;
pub mod console;

