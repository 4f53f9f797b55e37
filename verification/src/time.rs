//! Timer ticks, nanoseconds and the timer CSRs.
use crate::arch::{crmd_with_ie, disable_irqs};
use crate::bits::{
    field, fits, lemma_field_of_with_field, lemma_field_of_with_other_field, with_field,
    write_field,
};
use crate::csr::{lemma_ticlr_clears_timer, Csr, CsrFile, CsrWrite, ESTAT_IS_TIMER, TICLR_CLR};
use vstd::prelude::*;

verus! {

/// Nanoseconds in a second.
pub const NANOS_PER_SEC: u64 = 1_000_000_000;

/// Frequency of the stable counter of the QEMU LoongArch virt machine (Hz).
pub const TIMER_FREQUENCY: u64 = 100_000_000;

/// Nanoseconds per hardware tick.
pub const NANOS_PER_TICK: u64 = NANOS_PER_SEC / TIMER_FREQUENCY;

/// TCFG.En: the timer enable bit.
pub const TCFG_EN: u64 = 0;

/// TCFG.Periodic: the periodic (loop) mode bit.
pub const TCFG_PERIODIC: u64 = 1;

/// TCFG.InitVal: the initial count, without its two low bits.
pub const TCFG_INITVAL: u64 = 2;

/// Width of TCFG.InitVal.
pub const TCFG_INITVAL_WIDTH: u64 = 62;

/// `tcfg` with the initial count `initval` (its two low bits dropped).
pub open spec fn tcfg_with_initval(tcfg: u64, initval: u64) -> u64 {
    with_field(tcfg, TCFG_INITVAL, TCFG_INITVAL_WIDTH, initval >> 2)
}

/// `tcfg` with the enable bit set to `en`.
pub open spec fn tcfg_with_enable(tcfg: u64, en: bool) -> u64 {
    with_field(tcfg, TCFG_EN, 1, if en { 1 } else { 0 })
}

/// `tcfg` with the periodic bit set to `periodic`.
pub open spec fn tcfg_with_loop(tcfg: u64, periodic: bool) -> u64 {
    with_field(tcfg, TCFG_PERIODIC, 1, if periodic { 1 } else { 0 })
}

/// `ticlr` with the clear bit set.
pub open spec fn ticlr_cleared(ticlr: u64) -> u64 {
    with_field(ticlr, TICLR_CLR, 1, 1)
}

/// Sets the initial count of a TCFG value.
pub fn tcfg_set_initval(tcfg: u64, initval: u64) -> (r: u64)
    ensures
        r == tcfg_with_initval(tcfg, initval),
{
    proof {
        assert(fits(initval >> 2, 62)) by (bit_vector);
    }
    write_field(tcfg, TCFG_INITVAL, TCFG_INITVAL_WIDTH, initval >> 2)
}

/// Sets the enable bit of a TCFG value.
pub fn tcfg_set_enable(tcfg: u64, en: bool) -> (r: u64)
    ensures
        r == tcfg_with_enable(tcfg, en),
{
    proof {
        assert(fits(1, 1) && fits(0, 1)) by (bit_vector);
    }
    write_field(tcfg, TCFG_EN, 1, if en { 1 } else { 0 })
}

/// Sets the periodic bit of a TCFG value.
pub fn tcfg_set_loop(tcfg: u64, periodic: bool) -> (r: u64)
    ensures
        r == tcfg_with_loop(tcfg, periodic),
{
    proof {
        assert(fits(1, 1) && fits(0, 1)) by (bit_vector);
    }
    write_field(tcfg, TCFG_PERIODIC, 1, if periodic { 1 } else { 0 })
}

/// Sets the clear bit of a TICLR value.
pub fn ticlr_clear_timer(ticlr: u64) -> (r: u64)
    ensures
        r == ticlr_cleared(ticlr),
{
    proof {
        assert(fits(1, 1)) by (bit_vector);
    }
    write_field(ticlr, TICLR_CLR, 1, 1)
}

/// Converts hardware ticks to nanoseconds.
pub fn ticks_to_nanos(ticks: u64) -> (r: u64)
    requires
        ticks * NANOS_PER_TICK <= u64::MAX,
    ensures
        r == ticks * NANOS_PER_TICK,
{
    ticks * NANOS_PER_TICK
}

/// Converts nanoseconds to hardware ticks.
pub fn nanos_to_ticks(nanos: u64) -> (r: u64)
    ensures
        r == nanos / NANOS_PER_TICK,
{
    nanos / NANOS_PER_TICK
}

/// Converting ticks to nanoseconds and back gives the ticks again; converting
/// nanoseconds to ticks and back rounds down to a whole tick.
pub proof fn lemma_tick_conversions(ticks: u64, nanos: u64)
    requires
        ticks * NANOS_PER_TICK <= u64::MAX,
    ensures
        (ticks * NANOS_PER_TICK) / (NANOS_PER_TICK as int) == ticks,
        (nanos / NANOS_PER_TICK) * NANOS_PER_TICK <= nanos,
        nanos < (nanos / NANOS_PER_TICK) * NANOS_PER_TICK + NANOS_PER_TICK,
{
    assert(NANOS_PER_TICK == 10);
}

/// The number of whole ticks from `now_ticks` to the tick of `deadline_ns`,
/// or 0 when that tick has come.
pub open spec fn ticks_until(now_ticks: u64, deadline_ns: u64) -> int {
    let deadline = deadline_ns / NANOS_PER_TICK;
    if deadline > now_ticks {
        deadline - now_ticks
    } else {
        0
    }
}

/// The TCFG.InitVal field of a one-shot timer that is to fire `ticks` ticks
/// from now: the count in units of four ticks, rounded up, and at least one.
pub open spec fn oneshot_field(ticks: int) -> int {
    if ticks <= 4 {
        1
    } else {
        (ticks + 3) / 4
    }
}

/// `tcfg` set up as an enabled one-shot timer that fires at `deadline_ns`.
pub open spec fn tcfg_oneshot(tcfg: u64, now_ticks: u64, deadline_ns: u64) -> u64 {
    with_field(
        tcfg_with_loop(tcfg_with_enable(tcfg, true), false),
        TCFG_INITVAL,
        TCFG_INITVAL_WIDTH,
        oneshot_field(ticks_until(now_ticks, deadline_ns)) as u64,
    )
}

/// Sets a one-shot timer.
///
/// A timer interrupt will be triggered at the given deadline (in
/// nanoseconds), `now_ticks` being the current clock time in ticks: the timer
/// is enabled in one-shot mode and counts down the ticks to the deadline,
/// rounded up to the four-tick unit of its initial count. A deadline that has
/// passed fires as soon as the timer can.
pub fn set_oneshot_timer(csrs: &mut CsrFile, now_ticks: u64, deadline_ns: u64)
    ensures
        final(csrs).regs == old(csrs).regs.written(
            Csr::Tcfg,
            tcfg_oneshot(old(csrs).regs.tcfg, now_ticks, deadline_ns),
        ),
        final(csrs).writes@ == old(csrs).writes@.push(
            CsrWrite {
                csr: Csr::Tcfg,
                value: tcfg_oneshot(old(csrs).regs.tcfg, now_ticks, deadline_ns),
            },
        ),
{
    let deadline = nanos_to_ticks(deadline_ns);
    assert(NANOS_PER_TICK == 10);
    assert(deadline < 0x2000_0000_0000_0000);
    let ticks = if deadline > now_ticks {
        deadline - now_ticks
    } else {
        0
    };
    let count: u64 = if ticks <= 4 {
        1
    } else {
        (ticks + 3) / 4
    };
    proof {
        assert(fits(count, 62)) by (bit_vector)
            requires
                count < 0x1000_0000_0000_0000,
        ;
    }
    let v = tcfg_set_enable(csrs.read(Csr::Tcfg), true);
    let v = tcfg_set_loop(v, false);
    let v = write_field(v, TCFG_INITVAL, TCFG_INITVAL_WIDTH, count);
    csrs.write(Csr::Tcfg, v);
}

/// Clears a pending timer interrupt: ESTAT no longer shows the timer
/// interrupt, and the other pending interrupts stay as they are.
pub fn clear_timer(csrs: &mut CsrFile)
    ensures
        field(final(csrs).regs.estat, ESTAT_IS_TIMER, 1) == 0,
        forall|n: u64|
            n < 13 && n != ESTAT_IS_TIMER ==> #[trigger] field(final(csrs).regs.estat, n, 1) == field(
                old(csrs).regs.estat,
                n,
                1,
            ),
        final(csrs).regs == old(csrs).regs.written(Csr::Ticlr, ticlr_cleared(old(csrs).regs.ticlr)),
        final(csrs).writes@ == old(csrs).writes@.push(
            CsrWrite { csr: Csr::Ticlr, value: ticlr_cleared(old(csrs).regs.ticlr) },
        ),
{
    let v = ticlr_clear_timer(csrs.read(Csr::Ticlr));
    proof {
        assert(fits(1, 1)) by (bit_vector);
        lemma_field_of_with_field(csrs.regs.ticlr, TICLR_CLR, 1, 1);
        assert forall|n: u64| n < 13 && n != ESTAT_IS_TIMER implies field(
            csrs.regs.written(Csr::Ticlr, v).estat,
            n,
            1,
        ) == field(csrs.regs.estat, n, 1) by {
            lemma_ticlr_clears_timer(csrs.regs, v, n);
        }
        lemma_ticlr_clears_timer(csrs.regs, v, 0);
    }
    csrs.write(Csr::Ticlr, v);
}

/// Timer set-up of the primary CPU: interrupts are disabled, then a pending
/// timer interrupt is cleared.
pub fn init_primary(csrs: &mut CsrFile)
    ensures
        field(final(csrs).regs.estat, ESTAT_IS_TIMER, 1) == 0,
        ({
            let crmd = crmd_with_ie(old(csrs).regs.crmd, false);
            let ticlr = ticlr_cleared(old(csrs).regs.ticlr);
            &&& final(csrs).regs == old(csrs).regs.written(Csr::Crmd, crmd).written(Csr::Ticlr, ticlr)
            &&& final(csrs).writes@ == old(csrs).writes@.push(
                CsrWrite { csr: Csr::Crmd, value: crmd },
            ).push(CsrWrite { csr: Csr::Ticlr, value: ticlr })
        }),
{
    disable_irqs(csrs);
    clear_timer(csrs);
}

/// A one-shot timer is enabled, not periodic, and counts down a whole
/// number of four-tick units; when the deadline lies ahead it fires at the
/// deadline's tick or less than four ticks after it, and otherwise four ticks
/// from now.
pub proof fn lemma_oneshot_fires_at_deadline(tcfg: u64, now_ticks: u64, deadline_ns: u64)
    ensures
        ({
            let v = tcfg_oneshot(tcfg, now_ticks, deadline_ns);
            let count = field(v, TCFG_INITVAL, TCFG_INITVAL_WIDTH);
            let deadline = deadline_ns / NANOS_PER_TICK;
            &&& field(v, TCFG_EN, 1) == 1
            &&& field(v, TCFG_PERIODIC, 1) == 0
            &&& count == oneshot_field(ticks_until(now_ticks, deadline_ns))
            &&& deadline > now_ticks ==> deadline <= now_ticks + 4 * count < deadline + 4
            &&& deadline <= now_ticks ==> count == 1
        }),
{
    let t = ticks_until(now_ticks, deadline_ns);
    let f = oneshot_field(t);
    assert(NANOS_PER_TICK == 10);
    assert(deadline_ns / NANOS_PER_TICK < 0x2000_0000_0000_0000);
    assert(0 <= t < 0x2000_0000_0000_0000);
    assert(1 <= f < 0x1000_0000_0000_0000);
    let fu = f as u64;
    assert(fits(1, 1) && fits(0, 1)) by (bit_vector);
    assert(fits(fu, 62)) by (bit_vector)
        requires
            fu < 0x1000_0000_0000_0000,
    ;
    let t1 = tcfg_with_enable(tcfg, true);
    let t2 = tcfg_with_loop(t1, false);
    lemma_field_of_with_field(tcfg, TCFG_EN, 1, 1);
    lemma_field_of_with_other_field(t1, TCFG_PERIODIC, 1, 0, TCFG_EN, 1);
    lemma_field_of_with_field(t1, TCFG_PERIODIC, 1, 0);
    lemma_field_of_with_field(t2, TCFG_INITVAL, TCFG_INITVAL_WIDTH, fu);
    lemma_field_of_with_other_field(t2, TCFG_INITVAL, TCFG_INITVAL_WIDTH, fu, TCFG_EN, 1);
    lemma_field_of_with_other_field(t2, TCFG_INITVAL, TCFG_INITVAL_WIDTH, fu, TCFG_PERIODIC, 1);
}

} // verus!
