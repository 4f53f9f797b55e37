//! Interrupt numbers, the IRQ handler table and interrupt set-up.
use crate::arch::{crmd_with_ie, disable_irqs};
use crate::bits::{
    field, fits, lemma_field_of_with_field, lemma_field_of_with_other_field, with_field,
    write_field,
};
use crate::csr::{Csr, CsrFile, CsrWrite, Csrs};
use crate::time::{
    tcfg_set_enable, tcfg_set_initval, tcfg_set_loop, tcfg_with_enable, tcfg_with_initval,
    tcfg_with_loop,
};
use vstd::prelude::*;

verus! {

/// Shift of ECFG.VS, the vectored-interrupt spacing.
pub const CSR_ECFG_VS_SHIFT: usize = 16;

/// Bit of ECFG.LIE that enables the timer interrupt.
pub const CSR_ECFG_LIE_TI_SHIFT: usize = 11;

/// ECFG.LIE mask of the timer interrupt.
pub const TI_VEC: usize = 0x1 << CSR_ECFG_LIE_TI_SHIFT;

/// ECFG.LIE mask of the hardware interrupts.
pub const HWI_VEC: usize = 0x3fc;

/// The software interrupt number.
pub const SWI_IRQ_NUM: usize = 0;

/// The maximum number of IRQs.
pub const MAX_IRQ_COUNT: usize = 1024;

/// The timer IRQ number.
pub const TIMER_IRQ_NUM: usize = 11;

/// The initial count that enabling the timer IRQ programs.
pub const TIMER_ENABLE_INITVAL: u64 = 800_000_000;

/// The TCFG value that enabling the timer IRQ writes: enabled, one-shot, with
/// the initial count [`TIMER_ENABLE_INITVAL`].
pub open spec fn tcfg_timer_enabled(tcfg: u64) -> u64 {
    tcfg_with_loop(tcfg_with_initval(tcfg_with_enable(tcfg, true), TIMER_ENABLE_INITVAL), false)
}

/// The number of local interrupt lines, one per bit of ECFG.LIE and ESTAT.IS.
pub const LOCAL_IRQ_COUNT: usize = 13;

/// `ecfg` with the local interrupt enable bit of line `vector` set to `en`.
pub open spec fn ecfg_with_lie(ecfg: u64, vector: usize, en: bool) -> u64 {
    with_field(ecfg, vector as u64, 1, if en { 1 } else { 0 })
}

/// The TCFG value that switching the timer IRQ writes: when enabling, the
/// timer is started in one-shot mode with the initial count
/// [`TIMER_ENABLE_INITVAL`]; when disabling, it is stopped.
pub open spec fn tcfg_timer_switched(tcfg: u64, enabled: bool) -> u64 {
    if enabled {
        tcfg_timer_enabled(tcfg)
    } else {
        tcfg_with_enable(tcfg, false)
    }
}

/// The writes that `set_enable(vector, enabled)` makes on `regs`, in order:
/// ECFG.LIE for a local line, then TCFG for the timer.
pub open spec fn set_enable_writes(regs: Csrs, vector: usize, enabled: bool) -> Seq<CsrWrite> {
    let lie = if vector < LOCAL_IRQ_COUNT {
        seq![CsrWrite { csr: Csr::Ecfg, value: ecfg_with_lie(regs.ecfg, vector, enabled) }]
    } else {
        Seq::<CsrWrite>::empty()
    };
    let timer = if vector == TIMER_IRQ_NUM {
        seq![CsrWrite { csr: Csr::Tcfg, value: tcfg_timer_switched(regs.tcfg, enabled) }]
    } else {
        Seq::<CsrWrite>::empty()
    };
    lie + timer
}

/// The registers after `set_enable(vector, enabled)`.
pub open spec fn set_enable_regs(regs: Csrs, vector: usize, enabled: bool) -> Csrs {
    let r1 = if vector < LOCAL_IRQ_COUNT {
        regs.written(Csr::Ecfg, ecfg_with_lie(regs.ecfg, vector, enabled))
    } else {
        regs
    };
    if vector == TIMER_IRQ_NUM {
        r1.written(Csr::Tcfg, tcfg_timer_switched(regs.tcfg, enabled))
    } else {
        r1
    }
}

/// Enables or disables the given IRQ. A local interrupt line (below
/// [`LOCAL_IRQ_COUNT`]) is switched by its ECFG.LIE bit; the timer IRQ is also
/// switched at the timer: enabling starts it in one-shot mode with the initial
/// count [`TIMER_ENABLE_INITVAL`], disabling stops it. Other IRQs have no
/// switch here and are left as they are.
pub fn set_enable(csrs: &mut CsrFile, vector: usize, enabled: bool)
    ensures
        final(csrs).regs == set_enable_regs(old(csrs).regs, vector, enabled),
        final(csrs).writes@ == old(csrs).writes@ + set_enable_writes(
            old(csrs).regs,
            vector,
            enabled,
        ),
        vector < LOCAL_IRQ_COUNT ==> field(final(csrs).regs.ecfg, vector as u64, 1) == (if enabled {
            1u64
        } else {
            0u64
        }),
{
    let ghost regs0 = csrs.regs;
    let ghost writes0 = csrs.writes@;
    if vector < LOCAL_IRQ_COUNT {
        let en: u64 = if enabled {
            1
        } else {
            0
        };
        proof {
            assert(fits(1, 1) && fits(0, 1)) by (bit_vector);
            lemma_field_of_with_field(regs0.ecfg, vector as u64, 1, en);
        }
        let v = write_field(csrs.read(Csr::Ecfg), vector as u64, 1, en);
        csrs.write(Csr::Ecfg, v);
    }
    let ghost writes1 = csrs.writes@;
    if vector == TIMER_IRQ_NUM {
        if enabled {
            let v = tcfg_set_enable(csrs.read(Csr::Tcfg), true);
            let v = tcfg_set_initval(v, TIMER_ENABLE_INITVAL);
            let v = tcfg_set_loop(v, false);
            csrs.write(Csr::Tcfg, v);
        } else {
            let v = tcfg_set_enable(csrs.read(Csr::Tcfg), false);
            csrs.write(Csr::Tcfg, v);
        }
    }
    assert(csrs.writes@ =~= writes0 + set_enable_writes(regs0, vector, enabled));
}

/// After `set_enable(vector, enabled)` on a local line, the line's enable bit
/// is `enabled` and every other line's enable bit is kept.
pub proof fn lemma_set_enable_lie(regs: Csrs, vector: usize, enabled: bool, other: usize)
    requires
        vector < LOCAL_IRQ_COUNT,
        other < LOCAL_IRQ_COUNT,
        other != vector,
    ensures
        field(set_enable_regs(regs, vector, enabled).ecfg, vector as u64, 1) == (if enabled {
            1u64
        } else {
            0u64
        }),
        field(set_enable_regs(regs, vector, enabled).ecfg, other as u64, 1) == field(
            regs.ecfg,
            other as u64,
            1,
        ),
{
    let en: u64 = if enabled {
        1
    } else {
        0
    };
    assert(fits(1, 1) && fits(0, 1)) by (bit_vector);
    lemma_field_of_with_field(regs.ecfg, vector as u64, 1, en);
    lemma_field_of_with_other_field(regs.ecfg, vector as u64, 1, en, other as u64, 1);
}

/// A table of IRQ handlers, one slot per IRQ number below [`MAX_IRQ_COUNT`].
pub struct HandlerTable<H> {
    slots: Vec<Option<H>>,
}

impl<H> HandlerTable<H> {
    /// One slot per IRQ number.
    pub closed spec fn wf(&self) -> bool {
        self.slots.len() == MAX_IRQ_COUNT
    }

    /// The handler registered for each IRQ number.
    pub closed spec fn view(&self) -> Seq<Option<H>> {
        self.slots@
    }

    /// A well-formed table has a slot for each IRQ number.
    pub proof fn lemma_len(&self)
        requires
            self.wf(),
        ensures
            self@.len() == MAX_IRQ_COUNT,
    {
    }
}

impl<H: Copy> HandlerTable<H> {
    /// A table with no handler registered.
    pub fn new() -> (r: Self)
        ensures
            r.wf(),
            r@ == Seq::new(MAX_IRQ_COUNT as nat, |i: int| None::<H>),
    {
        let mut slots: Vec<Option<H>> = Vec::new();
        while slots.len() < MAX_IRQ_COUNT
            invariant
                slots.len() <= MAX_IRQ_COUNT,
                forall|i: int| 0 <= i < slots.len() ==> slots@[i] is None,
            decreases MAX_IRQ_COUNT - slots.len(),
        {
            slots.push(None);
        }
        let r = HandlerTable { slots };
        assert(r@ == Seq::new(MAX_IRQ_COUNT as nat, |i: int| None::<H>));
        r
    }

    /// The number of slots, [`MAX_IRQ_COUNT`].
    pub fn len(&self) -> (r: usize)
        requires
            self.wf(),
        ensures
            r == MAX_IRQ_COUNT,
            r == self@.len(),
    {
        self.slots.len()
    }

    /// The handler registered for `vector`, if any.
    pub fn get(&self, vector: usize) -> (r: Option<H>)
        requires
            self.wf(),
        ensures
            vector < MAX_IRQ_COUNT ==> r == self@[vector as int],
            vector >= MAX_IRQ_COUNT ==> r is None,
    {
        if vector < self.slots.len() {
            self.slots[vector]
        } else {
            None
        }
    }

    /// Stores `handler` for `vector` if the slot exists and is free.
    fn register(&mut self, vector: usize, handler: H) -> (r: bool)
        requires
            old(self).wf(),
        ensures
            final(self).wf(),
            r == (vector < MAX_IRQ_COUNT && old(self)@[vector as int] is None),
            r ==> final(self)@ == old(self)@.update(vector as int, Some(handler)),
            !r ==> final(self)@ == old(self)@,
    {
        if vector < self.slots.len() && self.slots[vector].is_none() {
            self.slots.set(vector, Some(handler));
            true
        } else {
            false
        }
    }
}

/// Registers an IRQ handler for the given IRQ.
///
/// It also enables the IRQ if the registration succeeds. It returns `false`
/// if the registration failed: the IRQ number is not below
/// [`MAX_IRQ_COUNT`], or a handler is registered for it already.
pub fn register_handler<H: Copy>(
    table: &mut HandlerTable<H>,
    csrs: &mut CsrFile,
    vector: usize,
    handler: H,
) -> (r: bool)
    requires
        old(table).wf(),
    ensures
        final(table).wf(),
        r == (vector < MAX_IRQ_COUNT && old(table)@[vector as int] is None),
        r ==> final(table)@ == old(table)@.update(vector as int, Some(handler)),
        !r ==> final(table)@ == old(table)@,
        r ==> {
            &&& final(csrs).regs == set_enable_regs(old(csrs).regs, vector, true)
            &&& final(csrs).writes@ == old(csrs).writes@ + set_enable_writes(
                old(csrs).regs,
                vector,
                true,
            )
        },
        !r ==> {
            &&& final(csrs).regs == old(csrs).regs
            &&& final(csrs).writes@ == old(csrs).writes@
        },
{
    if table.register(vector, handler) {
        set_enable(csrs, vector, true);
        true
    } else {
        false
    }
}

/// The handler that dispatching `vector` finds in a table whose slots are
/// `slots`.
pub open spec fn dispatched<H>(slots: Seq<Option<H>>, vector: usize) -> Option<H> {
    if vector < MAX_IRQ_COUNT {
        slots[vector as int]
    } else {
        None
    }
}

/// Dispatches the IRQ: the handler registered for `vector`, which the caller
/// then calls; `None` when there is none.
pub fn dispatch_irq<H: Copy>(table: &HandlerTable<H>, vector: usize) -> (r: Option<H>)
    requires
        table.wf(),
    ensures
        r == dispatched(table@, vector),
        vector < MAX_IRQ_COUNT ==> r == table@[vector as int],
        vector >= MAX_IRQ_COUNT ==> r is None,
{
    table.get(vector)
}

/// Interrupt set-up of the primary CPU: interrupts are disabled.
pub fn init_primary(csrs: &mut CsrFile)
    ensures
        final(csrs).regs == old(csrs).regs.written(Csr::Crmd, crmd_with_ie(old(csrs).regs.crmd, false)),
        final(csrs).writes@ == old(csrs).writes@.push(
            CsrWrite { csr: Csr::Crmd, value: crmd_with_ie(old(csrs).regs.crmd, false) },
        ),
{
    disable_irqs(csrs);
}

/// After a successful registration of `handler` for `vector`, dispatching
/// `vector` gives `handler` and dispatching any other IRQ gives what it gave
/// before; after a failed registration every dispatch gives what it gave
/// before. `before` and `after` are the table's slots before and after the
/// registration, related as `register_handler` ensures.
pub proof fn lemma_register_then_dispatch<H>(
    before: Seq<Option<H>>,
    after: Seq<Option<H>>,
    vector: usize,
    handler: H,
    registered: bool,
    other: usize,
)
    requires
        before.len() == MAX_IRQ_COUNT,
        registered == (vector < MAX_IRQ_COUNT && before[vector as int] is None),
        registered ==> after == before.update(vector as int, Some(handler)),
        !registered ==> after == before,
    ensures
        registered ==> dispatched(after, vector) == Some(handler),
        other != vector ==> dispatched(after, other) == dispatched(before, other),
        !registered ==> dispatched(after, other) == dispatched(before, other),
{
}

/// Enabling the timer IRQ leaves the timer enabled, in one-shot mode, with
/// the initial count [`TIMER_ENABLE_INITVAL`] (without its two low bits).
pub proof fn lemma_timer_enabled(tcfg: u64)
    ensures
        field(tcfg_timer_enabled(tcfg), 0, 1) == 1,
        field(tcfg_timer_enabled(tcfg), 1, 1) == 0,
        field(tcfg_timer_enabled(tcfg), 2, 62) == TIMER_ENABLE_INITVAL / 4,
{
    let iv = TIMER_ENABLE_INITVAL;
    assert(fits(1, 1) && fits(0, 1) && fits(iv >> 2, 62) && iv >> 2 == iv / 4) by (bit_vector);
    let t1 = tcfg_with_enable(tcfg, true);
    let t2 = tcfg_with_initval(t1, iv);
    lemma_field_of_with_field(tcfg, 0, 1, 1);
    lemma_field_of_with_other_field(t1, 2, 62, iv >> 2, 0, 1);
    lemma_field_of_with_field(t1, 2, 62, iv >> 2);
    lemma_field_of_with_field(t2, 1, 1, 0);
    lemma_field_of_with_other_field(t2, 1, 1, 0, 0, 1);
    lemma_field_of_with_other_field(t2, 1, 1, 0, 2, 62);
}

} // verus!
