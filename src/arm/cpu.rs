//! Interrupt masking, barriers and the ordered record of bus accesses.
//!
//! A [`Core`] stands for the processor as seen by code that reconfigures it:
//! whether interrupts are globally masked, and the sequence of mask changes,
//! barriers and register or memory writes issued so far, in program order.

use vstd::prelude::*;

verus! {

/// One step that the processor performs on behalf of a reconfiguration.
#[derive(Clone, Copy, Debug, PartialEq, Eq, Structural)]
pub enum Event {
    /// Interrupts were globally masked.
    InterruptsMasked,
    /// Interrupts were globally unmasked.
    InterruptsUnmasked,
    /// Data memory barrier.
    DataMemoryBarrier,
    /// Data synchronization barrier.
    DataSyncBarrier,
    /// Instruction synchronization barrier.
    InstructionSyncBarrier,
    /// A word was written to the bus.
    Write { addr: u32, value: u32 },
}

/// The processor's interrupt mask and the events issued on it so far.
pub struct Core {
    masked: bool,
    events: Vec<Event>,
}

/// The barrier sequence that makes prior writes visible to every later
/// exception entry and instruction fetch.
pub open spec fn barrier_triple() -> Seq<Event> {
    seq![Event::DataMemoryBarrier, Event::DataSyncBarrier, Event::InstructionSyncBarrier]
}

/// What a critical section adds around `body`, when interrupts were `masked`
/// on entry: the prior mask state is restored on exit.
pub open spec fn guarded(masked: bool, body: Seq<Event>) -> Seq<Event> {
    if masked {
        seq![Event::InterruptsMasked] + body
    } else {
        seq![Event::InterruptsMasked] + body + seq![Event::InterruptsUnmasked]
    }
}

impl Core {
    /// Whether interrupts are globally masked.
    pub closed spec fn masked(&self) -> bool {
        self.masked
    }

    /// The events issued so far, oldest first.
    pub closed spec fn events(&self) -> Seq<Event> {
        self.events@
    }

    /// A processor out of reset: interrupts enabled, nothing issued yet.
    pub fn new() -> (r: Self)
        ensures
            !r.masked(),
            r.events() == Seq::<Event>::empty(),
    {
        Core { masked: false, events: Vec::new() }
    }

    /// Whether interrupts are globally masked.
    pub fn is_masked(&self) -> (r: bool)
        ensures
            r == self.masked(),
    {
        self.masked
    }

    /// The number of events issued so far.
    pub fn len(&self) -> (r: usize)
        ensures
            r == self.events().len(),
    {
        self.events.len()
    }

    /// The `i`-th event issued, oldest first.
    pub fn event(&self, i: usize) -> (r: Event)
        requires
            i < self.events().len(),
        ensures
            r == self.events()[i as int],
    {
        self.events[i]
    }

    /// Records a bus write of `value` at `addr`.
    pub fn write(&mut self, addr: u32, value: u32)
        ensures
            final(self).masked() == old(self).masked(),
            final(self).events() == old(self).events().push(Event::Write { addr, value }),
    {
        self.events.push(Event::Write { addr, value });
    }
}

/// Masks interrupts globally.
pub fn cpsid_i(core: &mut Core)
    ensures
        final(core).masked(),
        final(core).events() == old(core).events().push(Event::InterruptsMasked),
{
    core.masked = true;
    core.events.push(Event::InterruptsMasked);
}

/// Unmasks interrupts globally.
pub fn cpsie_i(core: &mut Core)
    ensures
        !final(core).masked(),
        final(core).events() == old(core).events().push(Event::InterruptsUnmasked),
{
    core.masked = false;
    core.events.push(Event::InterruptsUnmasked);
}

/// Data memory barrier.
pub fn dmb(core: &mut Core)
    ensures
        final(core).masked() == old(core).masked(),
        final(core).events() == old(core).events().push(Event::DataMemoryBarrier),
{
    core.events.push(Event::DataMemoryBarrier);
}

/// Data synchronization barrier.
pub fn dsb(core: &mut Core)
    ensures
        final(core).masked() == old(core).masked(),
        final(core).events() == old(core).events().push(Event::DataSyncBarrier),
{
    core.events.push(Event::DataSyncBarrier);
}

/// Instruction synchronization barrier.
pub fn isb(core: &mut Core)
    ensures
        final(core).masked() == old(core).masked(),
        final(core).events() == old(core).events().push(Event::InstructionSyncBarrier),
{
    core.events.push(Event::InstructionSyncBarrier);
}

/// Issues the full barrier sequence: data memory, data synchronization, then
/// instruction synchronization.
pub fn barriers(core: &mut Core)
    ensures
        final(core).masked() == old(core).masked(),
        final(core).events() == old(core).events() + barrier_triple(),
{
    dmb(core);
    dsb(core);
    isb(core);
    assert(final(core).events() =~= old(core).events() + barrier_triple());
}

/// Enters a critical section: masks interrupts and returns whether they were
/// already masked, to be handed to [`leave`].
pub fn enter(core: &mut Core) -> (was: bool)
    ensures
        was == old(core).masked(),
        final(core).masked(),
        final(core).events() == old(core).events().push(Event::InterruptsMasked),
{
    let was = core.masked;
    cpsid_i(core);
    was
}

/// Leaves a critical section, restoring the mask state `was` from [`enter`].
pub fn leave(core: &mut Core, was: bool)
    requires
        old(core).masked(),
    ensures
        final(core).masked() == was,
        was ==> final(core).events() == old(core).events(),
        !was ==> final(core).events() == old(core).events().push(Event::InterruptsUnmasked),
{
    if !was {
        cpsie_i(core);
    }
}

/// Runs `f` inside a recorded critical section: the mask event comes before
/// it and the restore of the prior mask state after it. `f` itself issues no
/// bus access, so only the section's bounds are recorded; a body that must
/// touch the hardware while interrupts are masked runs under the
/// application's own guard, which masks around it as it executes.
pub fn critical<T, F: FnOnce() -> T>(core: &mut Core, f: F) -> (r: T)
    requires
        f.requires(()),
    ensures
        f.ensures((), r),
        final(core).masked() == old(core).masked(),
        final(core).events() == old(core).events() + guarded(
            old(core).masked(),
            Seq::<Event>::empty(),
        ),
{
    let was = enter(core);
    let r = f();
    leave(core, was);
    assert(final(core).events() =~= old(core).events() + guarded(
        old(core).masked(),
        Seq::<Event>::empty(),
    ));
    r
}

} // verus!
