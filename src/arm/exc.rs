//! Core exceptions: their vector table, handlers and priorities.
//!
//! The table modelled here is the one of the ARMv8-M Mainline profile, on
//! which every configurable exception exists: word 0 is the initial stack
//! pointer, word 1 the reset vector, and words 2 to 15 the core exception
//! handlers (some reserved).

use crate::arm::cpu::{barrier_triple, barriers, enter, guarded, leave, Core, Event};
use crate::arm::scb::{
    lane,
    lemma_lane_isolation,
    set_lane,
    shpr_address,
    with_lane,
    Scb,
    SystemControl,
};
use vstd::arithmetic::power2::{lemma2_to64, pow2};
use vstd::prelude::*;

verus! {

/// Number of words in the core exception table.
pub const TABLE_WORDS: usize = 16;

/// Low address bits that must be clear in a vector table base: the table's
/// 64 bytes, rounded to a power of two.
pub const TABLE_ALIGN_MASK: u32 = 0x3F;

/// Exceptions of the Cortex-M architecture.
#[derive(Clone, Copy, Debug, PartialEq, Eq, Structural)]
pub enum Exception {
    /// Non maskable interrupt.
    NMI,
    /// Hard fault.
    HardFault,
    /// Supervisor call.
    SVCall,
    /// Pendable service call.
    PendSV,
    /// System tick.
    Systick,
    /// Memory management fault.
    MemManage,
    /// Bus fault.
    BusFault,
    /// Usage fault.
    UsageFault,
    /// Debug monitor.
    DebugMonitor,
    /// Secure fault.
    SecureFault,
}

impl Exception {
    /// The word of the vector table that holds this exception's handler.
    pub open spec fn slot(self) -> int {
        match self {
            Exception::NMI => 2,
            Exception::HardFault => 3,
            Exception::MemManage => 4,
            Exception::BusFault => 5,
            Exception::UsageFault => 6,
            Exception::SecureFault => 7,
            Exception::SVCall => 11,
            Exception::DebugMonitor => 12,
            Exception::PendSV => 14,
            Exception::Systick => 15,
        }
    }

    /// Whether the hardware fixes this exception's priority.
    pub open spec fn fixed_priority(self) -> bool {
        self == Exception::NMI || self == Exception::HardFault
    }

    /// The system handler priority register (1 to 3) that holds this
    /// exception's priority.
    pub open spec fn shpr(self) -> u32 {
        match self {
            Exception::MemManage | Exception::BusFault | Exception::UsageFault
            | Exception::SecureFault => 1,
            Exception::SVCall => 2,
            _ => 3,
        }
    }

    /// The byte lane of [`Exception::shpr`] that holds this exception's
    /// priority.
    pub open spec fn shpr_lane(self) -> u32 {
        match self {
            Exception::MemManage => 0,
            Exception::BusFault => 1,
            Exception::UsageFault => 2,
            Exception::SecureFault => 3,
            Exception::SVCall => 3,
            Exception::DebugMonitor => 0,
            Exception::PendSV => 2,
            _ => 3,
        }
    }

    /// The vector table word of this exception's handler.
    pub fn slot_index(&self) -> (r: usize)
        ensures
            r as int == self.slot(),
    {
        match *self {
            Exception::NMI => 2,
            Exception::HardFault => 3,
            Exception::MemManage => 4,
            Exception::BusFault => 5,
            Exception::UsageFault => 6,
            Exception::SecureFault => 7,
            Exception::SVCall => 11,
            Exception::DebugMonitor => 12,
            Exception::PendSV => 14,
            Exception::Systick => 15,
        }
    }

    /// The priority register and byte lane of a configurable exception;
    /// `None` for the two whose priority the hardware fixes.
    pub fn priority_position(&self) -> (r: Option<(u32, u32)>)
        ensures
            r is None <==> self.fixed_priority(),
            r matches Some(p) ==> p.0 == self.shpr() && p.1 == self.shpr_lane(),
    {
        match *self {
            Exception::NMI | Exception::HardFault => None,
            Exception::MemManage => Some((1, 0)),
            Exception::BusFault => Some((1, 1)),
            Exception::UsageFault => Some((1, 2)),
            Exception::SecureFault => Some((1, 3)),
            Exception::SVCall => Some((2, 3)),
            Exception::DebugMonitor => Some((3, 0)),
            Exception::PendSV => Some((3, 2)),
            Exception::Systick => Some((3, 3)),
        }
    }
}

/// The bus writes that copy `words` to a table at `base`, one per word, in
/// order.
pub open spec fn copy_events(base: u32, words: Seq<u32>) -> Seq<Event> {
    Seq::new(words.len(), |i: int| Event::Write { addr: (base + 4 * i) as u32, value: words[i] })
}

/// The address of word `i` of a table at `base`.
pub open spec fn slot_address(base: u32, i: int) -> u32 {
    (base + 4 * i) as u32
}

/// Whether `base` is a multiple of a power of two that covers a table of
/// `words` words.
pub open spec fn aligned_for(base: u32, words: nat) -> bool {
    exists|k: nat| pow2(k) >= 4 * words && #[trigger] (base as nat % pow2(k)) == 0
}

/// Whether `addr` can hold a vector table.
pub open spec fn table_aligned(addr: u32) -> bool {
    addr & TABLE_ALIGN_MASK == 0
}

/// Moving the active vector table under masked interrupts.
pub trait InterruptControl: SystemControl {
    /// Copies `from` verbatim to a table at `base`, then points VTOR at it,
    /// all with interrupts masked: the copy, a full barrier sequence, the
    /// VTOR write and its own barrier sequence, and only then the prior
    /// interrupt mask state is restored. Returns the words now at `base`.
    fn relocate(&mut self, core: &mut Core, from: &Vec<u32>, base: u32) -> (copy: Vec<u32>)
        requires
            base as int + 4 * from@.len() <= 0x1_0000_0000,
            aligned_for(base, from@.len()),
        ensures
            copy@ == from@,
            final(self).vtor_word() == base,
            final(self).aircr_word() == old(self).aircr_word(),
            final(self).scr_word() == old(self).scr_word(),
            final(self).shpr_words() == old(self).shpr_words(),
            final(core).masked() == old(core).masked(),
            final(core).events() == old(core).events() + guarded(
                old(core).masked(),
                copy_events(base, from@) + barrier_triple() + seq![
                    Event::Write { addr: crate::arm::scb::VTOR, value: base },
                ] + barrier_triple(),
            ),
    ;
}

impl InterruptControl for Scb {
    fn relocate(&mut self, core: &mut Core, from: &Vec<u32>, base: u32) -> (copy: Vec<u32>) {
        let ghost e0 = core.events();
        let was = enter(core);
        let ghost e1 = core.events();
        let mut copy: Vec<u32> = Vec::new();
        let mut i: usize = 0;
        while i < from.len()
            invariant
                i <= from@.len(),
                base as int + 4 * from@.len() <= 0x1_0000_0000,
                copy@ == from@.subrange(0, i as int),
                core.masked(),
                core.events() == e1 + copy_events(base, from@.subrange(0, i as int)),
            decreases from@.len() - i,
        {
            let w = from[i];
            core.write(base + 4 * (i as u32), w);
            copy.push(w);
            i = i + 1;
            assert(copy_events(base, from@.subrange(0, i as int)) =~= copy_events(
                base,
                from@.subrange(0, i - 1 as int),
            ).push(Event::Write { addr: slot_address(base, i - 1), value: w }));
        }
        assert(from@.subrange(0, i as int) =~= from@);
        let ghost e2 = core.events();
        barriers(core);
        self.vtor(core, base);
        leave(core, was);
        assert(core.events() =~= e0 + guarded(
            was,
            copy_events(base, from@) + barrier_triple() + seq![
                Event::Write { addr: crate::arm::scb::VTOR, value: base },
            ] + barrier_triple(),
        ));
        copy
    }
}

/// The core exception vector table.
pub struct ExceptionControl {
    base: u32,
    slots: Vec<u32>,
    noop: u32,
}

impl ExceptionControl {
    /// The table has all its words, its default handler is not null, and the
    /// whole table fits below the top of the address space.
    pub open spec fn wf(&self) -> bool {
        &&& self.slots().len() == TABLE_WORDS
        &&& self.noop() != 0
        &&& self.base() as int + 4 * TABLE_WORDS <= 0x1_0000_0000
    }

    /// The address of the table.
    pub closed spec fn base(&self) -> u32 {
        self.base
    }

    /// The words of the table.
    pub closed spec fn slots(&self) -> Seq<u32> {
        self.slots@
    }

    /// The address of the default handler, which returns at once.
    pub closed spec fn noop(&self) -> u32 {
        self.noop
    }

    /// A table at `base` holding the initial stack pointer `sp`, the reset
    /// vector `reset`, and the default handler `noop` in every exception
    /// word.
    pub fn new(base: u32, sp: u32, reset: u32, noop: u32) -> (r: Self)
        requires
            noop != 0,
            base as int + 4 * TABLE_WORDS <= 0x1_0000_0000,
        ensures
            r.wf(),
            r.base() == base,
            r.noop() == noop,
            r.slots()[0] == sp,
            r.slots()[1] == reset,
            forall|i: int| 2 <= i < TABLE_WORDS ==> #[trigger] r.slots()[i] == noop,
    {
        let mut slots: Vec<u32> = vec![sp, reset];
        while slots.len() < TABLE_WORDS
            invariant
                2 <= slots@.len() <= TABLE_WORDS,
                slots@[0] == sp,
                slots@[1] == reset,
                forall|i: int| 2 <= i < slots@.len() ==> #[trigger] slots@[i] == noop,
            decreases TABLE_WORDS - slots@.len(),
        {
            slots.push(noop);
        }
        ExceptionControl { base, slots, noop }
    }

    /// The table at `base` holding `words`, as read from memory, with `noop`
    /// as its default handler; `None` unless there are exactly the table's
    /// words, `noop` is not null, and the table fits below the top of the
    /// address space.
    pub fn load(base: u32, words: Vec<u32>, noop: u32) -> (r: Option<Self>)
        ensures
            r is Some <==> (words@.len() == TABLE_WORDS && noop != 0 && base as int + 4
                * TABLE_WORDS <= 0x1_0000_0000),
            r matches Some(t) ==> t.wf() && t.base() == base && t.slots() == words@ && t.noop()
                == noop,
    {
        if words.len() == TABLE_WORDS && noop != 0 && base <= 0xFFFF_FFC0 {
            Some(ExceptionControl { base, slots: words, noop })
        } else {
            None
        }
    }

    /// The address of the table.
    pub fn address(&self) -> (r: u32)
        ensures
            r == self.base(),
    {
        self.base
    }

    /// Word `i` of the table.
    pub fn word(&self, i: usize) -> (r: u32)
        requires
            self.wf(),
            i < TABLE_WORDS,
        ensures
            r == self.slots()[i as int],
    {
        self.slots[i]
    }

    /// The handler installed for `e`.
    pub fn get_handler(&self, e: Exception) -> (r: u32)
        requires
            self.wf(),
        ensures
            r == self.slots()[e.slot()],
    {
        self.slots[e.slot_index()]
    }

    /// The address of the default handler, which is never null.
    pub fn default_handler(&self) -> (r: u32)
        requires
            self.wf(),
        ensures
            r == self.noop(),
            r != 0,
    {
        self.noop
    }

    /// Copies the table to `address` and makes the copy the active table.
    /// Fails, touching nothing, when `address` is not aligned to the table's
    /// size.
    pub fn relocate(&self, core: &mut Core, scb: &mut Scb, address: u32) -> (r: Option<
        ExceptionControl,
    >)
        requires
            self.wf(),
            old(scb).wf(),
        ensures
            r is Some <==> table_aligned(address),
            r is None ==> *final(core) == *old(core) && *final(scb) == *old(scb),
            r matches Some(t) ==> {
                &&& t.wf()
                &&& t.base() == address
                &&& t.slots() == self.slots()
                &&& t.noop() == self.noop()
                &&& final(scb).wf()
                &&& final(scb).vtor_word() == address
                &&& final(scb).shpr_words() == old(scb).shpr_words()
                &&& final(scb).aircr_word() == old(scb).aircr_word()
                &&& final(scb).scr_word() == old(scb).scr_word()
                &&& final(core).masked() == old(core).masked()
                &&& final(core).events() == old(core).events() + guarded(
                    old(core).masked(),
                    copy_events(address, self.slots()) + barrier_triple() + seq![
                        Event::Write { addr: crate::arm::scb::VTOR, value: address },
                    ] + barrier_triple(),
                )
            },
    {
        if address & TABLE_ALIGN_MASK != 0 {
            return None;
        }
        assert(address & 0x3Fu32 == 0u32 ==> address as int + 64 <= 0x1_0000_0000) by (bit_vector);
        assert(address & 0x3Fu32 == 0u32 ==> address % 64 == 0) by (bit_vector);
        proof {
            lemma2_to64();
            assert(pow2(6) >= 4 * self.slots().len() && (address as nat % pow2(6)) == 0);
        }
        let slots = scb.relocate(core, &self.slots, address);
        Some(ExceptionControl { base: address, slots, noop: self.noop })
    }

    /// Installs `sys` as the handler of `e`: with interrupts masked, writes
    /// the table word, issues the full barrier sequence, then restores the
    /// prior interrupt mask state.
    pub fn handler(&mut self, core: &mut Core, e: Exception, sys: u32)
        requires
            old(self).wf(),
        ensures
            final(self).wf(),
            final(self).base() == old(self).base(),
            final(self).noop() == old(self).noop(),
            final(self).slots() == installed(old(self).slots(), e, sys),
            final(self).slots()[e.slot()] == sys,
            final(core).masked() == old(core).masked(),
            final(core).events() == old(core).events() + guarded(
                old(core).masked(),
                seq![Event::Write { addr: slot_address(old(self).base(), e.slot()), value: sys }]
                    + barrier_triple(),
            ),
    {
        let ghost e0 = core.events();
        let was = enter(core);
        let i = e.slot_index();
        self.slots.set(i, sys);
        core.write(self.base + 4 * (i as u32), sys);
        barriers(core);
        leave(core, was);
        assert(core.events() =~= e0 + guarded(
            was,
            seq![Event::Write { addr: slot_address(self.base, e.slot()), value: sys }]
                + barrier_triple(),
        ));
    }

    /// Installs the default handler, which returns at once, for `e`.
    pub fn clear(&mut self, core: &mut Core, e: Exception)
        requires
            old(self).wf(),
        ensures
            final(self).wf(),
            final(self).base() == old(self).base(),
            final(self).noop() == old(self).noop(),
            final(self).slots() == installed(old(self).slots(), e, old(self).noop()),
            final(self).slots()[e.slot()] == old(self).noop(),
            final(self).slots()[e.slot()] != 0,
            final(core).masked() == old(core).masked(),
            final(core).events() == old(core).events() + guarded(
                old(core).masked(),
                seq![
                    Event::Write {
                        addr: slot_address(old(self).base(), e.slot()),
                        value: old(self).noop(),
                    },
                ] + barrier_triple(),
            ),
    {
        let noop = self.noop;
        self.handler(core, e, noop)
    }

    /// Sets the priority of `e` to `prio`. A request for NMI or HardFault,
    /// whose priorities the hardware fixes, changes nothing. Otherwise, with
    /// interrupts masked, one byte lane of one system handler priority
    /// register is rewritten, the full barrier sequence issued, and the
    /// prior interrupt mask state restored.
    pub fn priority(&mut self, core: &mut Core, scb: &mut Scb, e: Exception, prio: u8)
        requires
            old(scb).wf(),
        ensures
            *final(self) == *old(self),
            final(scb).wf(),
            final(scb).vtor_word() == old(scb).vtor_word(),
            final(scb).aircr_word() == old(scb).aircr_word(),
            final(scb).scr_word() == old(scb).scr_word(),
            e.fixed_priority() ==> *final(scb) == *old(scb) && *final(core) == *old(core),
            !e.fixed_priority() ==> {
                let r = e.shpr();
                let w = with_lane(old(scb).shpr_words()[r - 1], e.shpr_lane(), prio);
                &&& final(scb).shpr_words() == old(scb).shpr_words().update(r - 1, w)
                &&& final(core).masked() == old(core).masked()
                &&& final(core).events() == old(core).events() + guarded(
                    old(core).masked(),
                    seq![Event::Write { addr: shpr_address(r), value: w }] + barrier_triple(),
                )
            },
    {
        match e.priority_position() {
            None => {},
            Some((r, l)) => {
                let ghost e0 = core.events();
                let was = enter(core);
                let old_word = scb.shpr(r);
                let w = set_lane(old_word, l, prio);
                scb.write_shpr(core, r, w);
                barriers(core);
                leave(core, was);
                assert(core.events() =~= e0 + guarded(
                    was,
                    seq![Event::Write { addr: shpr_address(r), value: w }] + barrier_triple(),
                ));
            },
        }
    }
}

/// The priority of a configurable exception `e` held in the system handler
/// priority words `shpr`.
pub open spec fn exception_priority(shpr: Seq<u32>, e: Exception) -> u8 {
    lane(shpr[e.shpr() - 1], e.shpr_lane())
}

/// Reads the priority of `e`; `None` for NMI and HardFault, whose
/// priorities the hardware fixes.
pub fn priority_of(scb: &Scb, e: Exception) -> (r: Option<u8>)
    requires
        scb.wf(),
    ensures
        r is None <==> e.fixed_priority(),
        r matches Some(p) ==> p == exception_priority(scb.shpr_words(), e),
{
    match e.priority_position() {
        None => None,
        Some((r, l)) => Some(crate::arm::scb::get_lane(scb.shpr(r), l)),
    }
}

/// The table words `slots` with `f` installed as the handler of `e`.
pub open spec fn installed(slots: Seq<u32>, e: Exception, f: u32) -> Seq<u32> {
    slots.update(e.slot(), f)
}

/// Installing any handler for an exception and then clearing it leaves the
/// default handler in that exception's word, which is never null, and the
/// table exactly as if the default handler had been installed directly.
pub proof fn lemma_install_then_clear(slots: Seq<u32>, e: Exception, f: u32, noop: u32)
    requires
        slots.len() == TABLE_WORDS,
        noop != 0,
    ensures
        installed(installed(slots, e, f), e, noop)[e.slot()] == noop,
        installed(installed(slots, e, f), e, noop)[e.slot()] != 0,
        installed(installed(slots, e, f), e, noop) == installed(slots, e, noop),
{
    assert(installed(installed(slots, e, f), e, noop) =~= installed(slots, e, noop));
}

/// A priority written for a configurable exception reads back as written,
/// and the priorities of every other configurable exception are unchanged.
pub proof fn lemma_exception_priority_isolation(
    shpr: Seq<u32>,
    e: Exception,
    other: Exception,
    prio: u8,
)
    requires
        shpr.len() == 3,
        !e.fixed_priority(),
        !other.fixed_priority(),
        other != e,
    ensures
        ({
            let r = e.shpr();
            let after = shpr.update(r - 1, with_lane(shpr[r - 1], e.shpr_lane(), prio));
            exception_priority(after, e) == prio && exception_priority(after, other)
                == exception_priority(shpr, other)
        }),
{
    let r = e.shpr();
    let w = with_lane(shpr[r - 1], e.shpr_lane(), prio);
    lemma_lane_isolation(shpr[r - 1], e.shpr_lane(), e.shpr_lane(), prio);
    lemma_lane_isolation(shpr[r - 1], e.shpr_lane(), other.shpr_lane(), prio);
}

} // verus!
