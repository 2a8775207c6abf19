//! Nested Vectored Interrupt Controller: per-IRQ enable, pending and
//! priority state in banked registers.
//!
//! Enable and pending state have separate write-one-to-set and
//! write-one-to-clear registers, so a single write changes exactly the bits
//! written as one and nothing else. Priorities are one byte lane each, four
//! to a word, and are updated by read-modify-write.

use crate::arm::cpu::{Core, Event};
use crate::arm::scb::{get_lane, lane, lemma_lane_isolation, set_lane, with_lane};
use vstd::prelude::*;

verus! {

/// Interrupt set-enable registers.
pub const ISER: u32 = 0xE000_E100;

/// Interrupt clear-enable registers.
pub const ICER: u32 = 0xE000_E180;

/// Interrupt set-pending registers.
pub const ISPR: u32 = 0xE000_E200;

/// Interrupt clear-pending registers.
pub const ICPR: u32 = 0xE000_E280;

/// Interrupt priority registers.
pub const IPR: u32 = 0xE000_E400;

/// Number of device interrupts the controller can hold.
pub const MAX_IRQS: u32 = 496;

/// Number of enable (and pending) words.
pub const BIT_WORDS: usize = 16;

/// Number of priority words.
pub const PRIORITY_WORDS: usize = 124;

/// Whether bit `b` of `w` is set.
pub open spec fn bit(w: u32, b: u32) -> bool {
    (w >> b) & 1 == 1
}

/// Whether interrupt `irq`'s bit is set in the banked words `words`.
pub open spec fn irq_bit(words: Seq<u32>, irq: u32) -> bool {
    bit(words[(irq / 32) as int], irq % 32)
}

/// The single-bit mask of interrupt `irq` within its word.
pub open spec fn irq_mask(irq: u32) -> u32 {
    1u32 << (irq % 32)
}

/// The address of the word of the bank at `base` that holds interrupt
/// `irq`'s bit.
pub open spec fn bank_address(base: u32, irq: u32) -> u32 {
    (base + 4 * (irq / 32)) as u32
}

/// The address of the priority word that holds interrupt `irq`'s byte.
pub open spec fn priority_address(irq: u32) -> u32 {
    (IPR + 4 * (irq / 4)) as u32
}

/// The priority of interrupt `irq` in the priority words `words`.
pub open spec fn irq_priority(words: Seq<u32>, irq: u32) -> u8 {
    lane(words[(irq / 4) as int], irq % 4)
}

/// The controller's enable, pending and priority registers.
pub struct Nvic {
    enabled: Vec<u32>,
    pending: Vec<u32>,
    priority: Vec<u32>,
}

impl Nvic {
    /// Every bank has all its words.
    pub open spec fn wf(&self) -> bool {
        &&& self.enabled().len() == BIT_WORDS
        &&& self.pending().len() == BIT_WORDS
        &&& self.priorities().len() == PRIORITY_WORDS
    }

    /// The enable words.
    pub closed spec fn enabled(&self) -> Seq<u32> {
        self.enabled@
    }

    /// The pending words.
    pub closed spec fn pending(&self) -> Seq<u32> {
        self.pending@
    }

    /// The priority words.
    pub closed spec fn priorities(&self) -> Seq<u32> {
        self.priority@
    }

    /// A controller out of reset: every interrupt disabled, not pending, and
    /// at priority zero.
    pub fn new() -> (r: Self)
        ensures
            r.wf(),
            forall|i: int| 0 <= i < BIT_WORDS ==> #[trigger] r.enabled()[i] == 0,
            forall|i: int| 0 <= i < BIT_WORDS ==> #[trigger] r.pending()[i] == 0,
            forall|i: int| 0 <= i < PRIORITY_WORDS ==> #[trigger] r.priorities()[i] == 0,
    {
        Nvic {
            enabled: zeroed(BIT_WORDS),
            pending: zeroed(BIT_WORDS),
            priority: zeroed(PRIORITY_WORDS),
        }
    }

    /// A controller holding the given enable, pending and priority words, as
    /// read from the bus; `None` unless each bank has all its words.
    pub fn load(enabled: Vec<u32>, pending: Vec<u32>, priority: Vec<u32>) -> (r: Option<Self>)
        ensures
            r is Some <==> (enabled@.len() == BIT_WORDS && pending@.len() == BIT_WORDS
                && priority@.len() == PRIORITY_WORDS),
            r matches Some(n) ==> n.wf() && n.enabled() == enabled@ && n.pending() == pending@
                && n.priorities() == priority@,
    {
        if enabled.len() == BIT_WORDS && pending.len() == BIT_WORDS && priority.len()
            == PRIORITY_WORDS {
            Some(Nvic { enabled, pending, priority })
        } else {
            None
        }
    }

    /// Whether interrupt `irq` is enabled.
    pub fn is_enabled(&self, irq: u32) -> (r: bool)
        requires
            self.wf(),
            irq < MAX_IRQS,
        ensures
            r == irq_bit(self.enabled(), irq),
    {
        (self.enabled[(irq / 32) as usize] >> (irq % 32)) & 1 == 1
    }

    /// Whether interrupt `irq` is pending.
    pub fn is_pending(&self, irq: u32) -> (r: bool)
        requires
            self.wf(),
            irq < MAX_IRQS,
        ensures
            r == irq_bit(self.pending(), irq),
    {
        (self.pending[(irq / 32) as usize] >> (irq % 32)) & 1 == 1
    }

    /// The priority of interrupt `irq`.
    pub fn priority_of(&self, irq: u32) -> (r: u8)
        requires
            self.wf(),
            irq < MAX_IRQS,
        ensures
            r == irq_priority(self.priorities(), irq),
    {
        get_lane(self.priority[(irq / 4) as usize], irq % 4)
    }

    /// Enable word `i`.
    pub fn enabled_word(&self, i: usize) -> (r: u32)
        requires
            self.wf(),
            i < BIT_WORDS,
        ensures
            r == self.enabled()[i as int],
    {
        self.enabled[i]
    }

    /// Pending word `i`.
    pub fn pending_word(&self, i: usize) -> (r: u32)
        requires
            self.wf(),
            i < BIT_WORDS,
        ensures
            r == self.pending()[i as int],
    {
        self.pending[i]
    }

    /// Priority word `i`.
    pub fn priority_word(&self, i: usize) -> (r: u32)
        requires
            self.wf(),
            i < PRIORITY_WORDS,
        ensures
            r == self.priorities()[i as int],
    {
        self.priority[i]
    }

    /// A write of `v` to set-enable word `i`: enables the interrupts whose
    /// bits are one in `v`.
    pub fn write_iser(&mut self, core: &mut Core, i: usize, v: u32)
        requires
            old(self).wf(),
            i < BIT_WORDS,
        ensures
            final(self).wf(),
            final(self).enabled() == old(self).enabled().update(i as int, old(self).enabled()[i as int] | v),
            final(self).pending() == old(self).pending(),
            final(self).priorities() == old(self).priorities(),
            final(core).masked() == old(core).masked(),
            final(core).events() == old(core).events().push(Event::Write { addr: (ISER + 4 * i) as u32, value: v }),
    {
        let w = self.enabled[i] | v;
        self.enabled.set(i, w);
        core.write(ISER + 4 * (i as u32), v);
    }

    /// A write of `v` to clear-enable word `i`: disables the interrupts whose
    /// bits are one in `v`.
    pub fn write_icer(&mut self, core: &mut Core, i: usize, v: u32)
        requires
            old(self).wf(),
            i < BIT_WORDS,
        ensures
            final(self).wf(),
            final(self).enabled() == old(self).enabled().update(i as int, old(self).enabled()[i as int] & !v),
            final(self).pending() == old(self).pending(),
            final(self).priorities() == old(self).priorities(),
            final(core).masked() == old(core).masked(),
            final(core).events() == old(core).events().push(Event::Write { addr: (ICER + 4 * i) as u32, value: v }),
    {
        let w = self.enabled[i] & !v;
        self.enabled.set(i, w);
        core.write(ICER + 4 * (i as u32), v);
    }

    /// A write of `v` to set-pending word `i`: marks pending the interrupts
    /// whose bits are one in `v`.
    pub fn write_ispr(&mut self, core: &mut Core, i: usize, v: u32)
        requires
            old(self).wf(),
            i < BIT_WORDS,
        ensures
            final(self).wf(),
            final(self).pending() == old(self).pending().update(i as int, old(self).pending()[i as int] | v),
            final(self).enabled() == old(self).enabled(),
            final(self).priorities() == old(self).priorities(),
            final(core).masked() == old(core).masked(),
            final(core).events() == old(core).events().push(Event::Write { addr: (ISPR + 4 * i) as u32, value: v }),
    {
        let w = self.pending[i] | v;
        self.pending.set(i, w);
        core.write(ISPR + 4 * (i as u32), v);
    }

    /// A write of `v` to clear-pending word `i`: clears the pending state of
    /// the interrupts whose bits are one in `v`.
    pub fn write_icpr(&mut self, core: &mut Core, i: usize, v: u32)
        requires
            old(self).wf(),
            i < BIT_WORDS,
        ensures
            final(self).wf(),
            final(self).pending() == old(self).pending().update(i as int, old(self).pending()[i as int] & !v),
            final(self).enabled() == old(self).enabled(),
            final(self).priorities() == old(self).priorities(),
            final(core).masked() == old(core).masked(),
            final(core).events() == old(core).events().push(Event::Write { addr: (ICPR + 4 * i) as u32, value: v }),
    {
        let w = self.pending[i] & !v;
        self.pending.set(i, w);
        core.write(ICPR + 4 * (i as u32), v);
    }

    /// A write of `v` to priority word `i`.
    pub fn write_ipr(&mut self, core: &mut Core, i: usize, v: u32)
        requires
            old(self).wf(),
            i < PRIORITY_WORDS,
        ensures
            final(self).wf(),
            final(self).priorities() == old(self).priorities().update(i as int, v),
            final(self).enabled() == old(self).enabled(),
            final(self).pending() == old(self).pending(),
            final(core).masked() == old(core).masked(),
            final(core).events() == old(core).events().push(Event::Write { addr: (IPR + 4 * i) as u32, value: v }),
    {
        self.priority.set(i, v);
        core.write(IPR + 4 * (i as u32), v);
    }
}

fn zeroed(n: usize) -> (r: Vec<u32>)
    ensures
        r@.len() == n,
        forall|i: int| 0 <= i < n ==> #[trigger] r@[i] == 0,
{
    let mut v: Vec<u32> = Vec::new();
    while v.len() < n
        invariant
            v@.len() <= n,
            forall|i: int| 0 <= i < v@.len() ==> #[trigger] v@[i] == 0,
        decreases n - v@.len(),
    {
        v.push(0);
    }
    v
}

/// Handle on the configuration of device interrupt `N`. It holds no state:
/// everything it changes lives in the controller's banked registers.
pub struct IRQConfig<const N: u32>;

impl<const N: u32> IRQConfig<N> {
    /// A handle on interrupt `N`. Nothing checks that it is the only one.
    pub fn new() -> Self {
        IRQConfig
    }

    /// The interrupt number.
    pub fn irq(&self) -> (r: u32)
        ensures
            r == N,
    {
        N
    }

    /// Disables the interrupt: one write of its bit to its clear-enable
    /// word.
    pub fn disable(&mut self, core: &mut Core, nvic: &mut Nvic)
        requires
            N < MAX_IRQS,
            old(nvic).wf(),
        ensures
            final(nvic).wf(),
            final(nvic).enabled() == old(nvic).enabled().update(
                (N / 32) as int,
                old(nvic).enabled()[(N / 32) as int] & !irq_mask(N),
            ),
            final(nvic).pending() == old(nvic).pending(),
            final(nvic).priorities() == old(nvic).priorities(),
            final(core).masked() == old(core).masked(),
            final(core).events() == old(core).events().push(
                Event::Write { addr: bank_address(ICER, N), value: irq_mask(N) },
            ),
    {
        nvic.write_icer(core, (N / 32) as usize, 1u32 << (N % 32));
    }

    /// Enables the interrupt: one write of its bit to its set-enable word.
    pub fn enable(&mut self, core: &mut Core, nvic: &mut Nvic)
        requires
            N < MAX_IRQS,
            old(nvic).wf(),
        ensures
            final(nvic).wf(),
            final(nvic).enabled() == old(nvic).enabled().update(
                (N / 32) as int,
                old(nvic).enabled()[(N / 32) as int] | irq_mask(N),
            ),
            final(nvic).pending() == old(nvic).pending(),
            final(nvic).priorities() == old(nvic).priorities(),
            final(core).masked() == old(core).masked(),
            final(core).events() == old(core).events().push(
                Event::Write { addr: bank_address(ISER, N), value: irq_mask(N) },
            ),
    {
        nvic.write_iser(core, (N / 32) as usize, 1u32 << (N % 32));
    }

    /// Clears the interrupt's pending state: one write of its bit to its
    /// clear-pending word.
    pub fn clearpend(&mut self, core: &mut Core, nvic: &mut Nvic)
        requires
            N < MAX_IRQS,
            old(nvic).wf(),
        ensures
            final(nvic).wf(),
            final(nvic).pending() == old(nvic).pending().update(
                (N / 32) as int,
                old(nvic).pending()[(N / 32) as int] & !irq_mask(N),
            ),
            final(nvic).enabled() == old(nvic).enabled(),
            final(nvic).priorities() == old(nvic).priorities(),
            final(core).masked() == old(core).masked(),
            final(core).events() == old(core).events().push(
                Event::Write { addr: bank_address(ICPR, N), value: irq_mask(N) },
            ),
    {
        nvic.write_icpr(core, (N / 32) as usize, 1u32 << (N % 32));
    }

    /// Marks the interrupt pending: one write of its bit to its set-pending
    /// word.
    pub fn setpend(&mut self, core: &mut Core, nvic: &mut Nvic)
        requires
            N < MAX_IRQS,
            old(nvic).wf(),
        ensures
            final(nvic).wf(),
            final(nvic).pending() == old(nvic).pending().update(
                (N / 32) as int,
                old(nvic).pending()[(N / 32) as int] | irq_mask(N),
            ),
            final(nvic).enabled() == old(nvic).enabled(),
            final(nvic).priorities() == old(nvic).priorities(),
            final(core).masked() == old(core).masked(),
            final(core).events() == old(core).events().push(
                Event::Write { addr: bank_address(ISPR, N), value: irq_mask(N) },
            ),
    {
        nvic.write_ispr(core, (N / 32) as usize, 1u32 << (N % 32));
    }

    /// Sets the interrupt's priority to `p`: a read-modify-write of its byte
    /// lane in its priority word. Not atomic against another context writing
    /// a different lane of the same word.
    pub fn priority(&mut self, core: &mut Core, nvic: &mut Nvic, p: u8)
        requires
            N < MAX_IRQS,
            old(nvic).wf(),
        ensures
            final(nvic).wf(),
            final(nvic).priorities() == old(nvic).priorities().update(
                (N / 4) as int,
                with_lane(old(nvic).priorities()[(N / 4) as int], N % 4, p),
            ),
            final(nvic).enabled() == old(nvic).enabled(),
            final(nvic).pending() == old(nvic).pending(),
            final(core).masked() == old(core).masked(),
            final(core).events() == old(core).events().push(
                Event::Write {
                    addr: priority_address(N),
                    value: with_lane(old(nvic).priorities()[(N / 4) as int], N % 4, p),
                },
            ),
    {
        let i = (N / 4) as usize;
        let w = set_lane(nvic.priority_word(i), N % 4, p);
        nvic.write_ipr(core, i, w);
    }
}

/// An interrupt's configuration handle together with the data its service
/// routine works on.
pub struct Context<T, const N: u32> {
    /// Reconfigures the interrupt.
    pub cfg: IRQConfig<N>,
    /// The service routine's own data.
    pub data: T,
}

impl<T, const N: u32> Context<T, N> {
    /// A context for interrupt `N` holding `data`.
    pub fn new(data: T) -> (r: Self)
        ensures
            r.data == data,
    {
        Context { cfg: IRQConfig::new(), data }
    }
}

proof fn lemma_bit_or(w: u32, b: u32, c: u32)
    by (bit_vector)
    requires
        b < 32,
        c < 32,
    ensures
        ((w | (1u32 << b)) >> c) & 1 == if b == c {
            1u32
        } else {
            (w >> c) & 1
        },
{
}

proof fn lemma_bit_and_not(w: u32, b: u32, c: u32)
    by (bit_vector)
    requires
        b < 32,
        c < 32,
    ensures
        ((w & !(1u32 << b)) >> c) & 1 == if b == c {
            0u32
        } else {
            (w >> c) & 1
        },
{
}

/// Setting interrupt `irq`'s bit in a bank (set-enable or set-pending) makes
/// it read as set in bit `irq % 32` of word `irq / 32`, and leaves every other
/// interrupt's bit as it was.
pub proof fn lemma_set_bit_isolation(words: Seq<u32>, irq: u32, other: u32)
    requires
        words.len() == BIT_WORDS,
        irq < MAX_IRQS,
        other < MAX_IRQS,
    ensures
        ({
            let after = words.update((irq / 32) as int, words[(irq / 32) as int] | irq_mask(irq));
            &&& irq_bit(after, irq)
            &&& other != irq ==> irq_bit(after, other) == irq_bit(words, other)
        }),
{
    let i = (irq / 32) as int;
    let after = words.update(i, words[i] | irq_mask(irq));
    lemma_bit_or(words[i], irq % 32, irq % 32);
    if other != irq && other / 32 == irq / 32 {
        lemma_bit_or(words[i], irq % 32, other % 32);
    }
}

/// Clearing interrupt `irq`'s bit in a bank (clear-enable or clear-pending)
/// makes it read as clear, and leaves every other interrupt's bit as it was.
pub proof fn lemma_clear_bit_isolation(words: Seq<u32>, irq: u32, other: u32)
    requires
        words.len() == BIT_WORDS,
        irq < MAX_IRQS,
        other < MAX_IRQS,
    ensures
        ({
            let after = words.update((irq / 32) as int, words[(irq / 32) as int] & !irq_mask(irq));
            &&& !irq_bit(after, irq)
            &&& other != irq ==> irq_bit(after, other) == irq_bit(words, other)
        }),
{
    let i = (irq / 32) as int;
    lemma_bit_and_not(words[i], irq % 32, irq % 32);
    if other != irq && other / 32 == irq / 32 {
        lemma_bit_and_not(words[i], irq % 32, other % 32);
    }
}

/// A priority written for interrupt `irq` reads back as written, and every
/// other interrupt's priority, in the same word or not, is unchanged.
pub proof fn lemma_irq_priority_isolation(words: Seq<u32>, irq: u32, other: u32, p: u8)
    requires
        words.len() == PRIORITY_WORDS,
        irq < MAX_IRQS,
        other < MAX_IRQS,
    ensures
        ({
            let after = words.update(
                (irq / 4) as int,
                with_lane(words[(irq / 4) as int], irq % 4, p),
            );
            &&& irq_priority(after, irq) == p
            &&& other != irq ==> irq_priority(after, other) == irq_priority(words, other)
        }),
{
    let i = (irq / 4) as int;
    lemma_lane_isolation(words[i], irq % 4, irq % 4, p);
    if other != irq && other / 4 == irq / 4 {
        lemma_lane_isolation(words[i], irq % 4, other % 4, p);
    }
}

} // verus!
