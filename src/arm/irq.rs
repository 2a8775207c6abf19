//! Device interrupt handler table.
//!
//! Unlike the core exception table, this table is read by a software
//! trampoline rather than fetched by the hardware, so writing one slot needs
//! no interrupt masking.

use vstd::prelude::*;

verus! {

/// The handlers of `LEN` device interrupts, by interrupt number.
pub struct IRQTable<const LEN: usize> {
    table: Vec<u32>,
    noop: u32,
}

impl<const LEN: usize> IRQTable<LEN> {
    /// The table has one slot per interrupt and a non-null default handler.
    pub open spec fn wf(&self) -> bool {
        self.handlers().len() == LEN && self.noop() != 0
    }

    /// The handler of each interrupt, by number.
    pub closed spec fn handlers(&self) -> Seq<u32> {
        self.table@
    }

    /// The address of the default handler, which returns at once.
    pub closed spec fn noop(&self) -> u32 {
        self.noop
    }

    /// A table whose every slot holds the default handler `noop`.
    pub fn new(noop: u32) -> (r: Self)
        requires
            noop != 0,
        ensures
            r.wf(),
            r.noop() == noop,
            forall|i: int| 0 <= i < LEN ==> #[trigger] r.handlers()[i] == noop,
    {
        let mut t = IRQTable { table: Vec::new(), noop };
        t.fill();
        t
    }

    fn fill(&mut self)
        ensures
            final(self).noop() == old(self).noop(),
            final(self).handlers().len() == LEN,
            forall|i: int| 0 <= i < LEN ==> #[trigger] final(self).handlers()[i] == old(self).noop(),
    {
        let mut table: Vec<u32> = Vec::new();
        while table.len() < LEN
            invariant
                table@.len() <= LEN,
                forall|i: int| 0 <= i < table@.len() ==> #[trigger] table@[i] == self.noop,
            decreases LEN - table@.len(),
        {
            table.push(self.noop);
        }
        self.table = table;
    }

    /// Resets every slot to the default handler.
    pub fn init(&mut self)
        requires
            old(self).wf(),
        ensures
            final(self).wf(),
            final(self).noop() == old(self).noop(),
            forall|i: int| 0 <= i < LEN ==> #[trigger] final(self).handlers()[i] == old(self).noop(),
    {
        self.fill();
    }

    /// Installs `f` as the handler of interrupt `IRQ`.
    pub fn set<const IRQ: usize>(&mut self, f: u32)
        requires
            old(self).wf(),
            IRQ < LEN,
        ensures
            final(self).wf(),
            final(self).noop() == old(self).noop(),
            final(self).handlers() == old(self).handlers().update(IRQ as int, f),
    {
        self.table.set(IRQ, f);
    }

    /// Installs `f` as the handler of interrupt `irq`.
    pub fn setn(&mut self, irq: u8, f: u32)
        requires
            old(self).wf(),
            (irq as int) < LEN,
        ensures
            final(self).wf(),
            final(self).noop() == old(self).noop(),
            final(self).handlers() == old(self).handlers().update(irq as int, f),
    {
        self.table.set(irq as usize, f);
    }

    /// The handler of interrupt `irq`.
    pub fn handler(&self, irq: usize) -> (r: u32)
        requires
            self.wf(),
            irq < LEN,
        ensures
            r == self.handlers()[irq as int],
    {
        self.table[irq]
    }
}

} // verus!
