//! System timer control.

use crate::arm::cpu::{Core, Event};
use vstd::prelude::*;

verus! {

/// SysTick control and status register.
pub const SYST_CSR: u32 = 0xE000_E010;

/// SysTick reload value register.
pub const SYST_RVR: u32 = 0xE000_E014;

/// SysTick current value register.
pub const SYST_CVR: u32 = 0xE000_E018;

/// CSR bit: counter enabled.
pub const ENABLE: u32 = 0x1;

/// CSR bit: exception request on reaching zero.
pub const TICKINT: u32 = 0x2;

/// CSR bit: processor clock as the source (external reference when clear).
pub const CLKSOURCE: u32 = 0x4;

/// Width mask of the reload and current values.
pub const COUNT_MASK: u32 = 0x00FF_FFFF;

/// Control of the system timer.
pub trait Systick: Sized {
    /// The control and status word.
    spec fn csr_word(&self) -> u32;

    /// The reload value.
    spec fn rvr_word(&self) -> u32;

    /// The current counter value.
    spec fn cvr_word(&self) -> u32;

    /// Starts the counter.
    fn enable(&mut self, core: &mut Core)
        ensures
            final(self).csr_word() == old(self).csr_word() | ENABLE,
            final(self).rvr_word() == old(self).rvr_word(),
            final(self).cvr_word() == old(self).cvr_word(),
            final(core).events() == old(core).events().push(
                Event::Write { addr: SYST_CSR, value: final(self).csr_word() },
            ),
    ;

    /// Stops the counter.
    fn disable(&mut self, core: &mut Core)
        ensures
            final(self).csr_word() == old(self).csr_word() & !ENABLE,
            final(self).rvr_word() == old(self).rvr_word(),
            final(self).cvr_word() == old(self).cvr_word(),
            final(core).events() == old(core).events().push(
                Event::Write { addr: SYST_CSR, value: final(self).csr_word() },
            ),
    ;

    /// Makes the timer request its exception on reaching zero.
    fn intenable(&mut self, core: &mut Core)
        ensures
            final(self).csr_word() == old(self).csr_word() | TICKINT,
            final(self).rvr_word() == old(self).rvr_word(),
            final(self).cvr_word() == old(self).cvr_word(),
            final(core).events() == old(core).events().push(
                Event::Write { addr: SYST_CSR, value: final(self).csr_word() },
            ),
    ;

    /// Stops the timer requesting its exception.
    fn intdisable(&mut self, core: &mut Core)
        ensures
            final(self).csr_word() == old(self).csr_word() & !TICKINT,
            final(self).rvr_word() == old(self).rvr_word(),
            final(self).cvr_word() == old(self).cvr_word(),
            final(core).events() == old(core).events().push(
                Event::Write { addr: SYST_CSR, value: final(self).csr_word() },
            ),
    ;

    /// Selects the external reference clock as the source.
    fn external(&mut self, core: &mut Core)
        ensures
            final(self).csr_word() == old(self).csr_word() & !CLKSOURCE,
            final(self).rvr_word() == old(self).rvr_word(),
            final(self).cvr_word() == old(self).cvr_word(),
            final(core).events() == old(core).events().push(
                Event::Write { addr: SYST_CSR, value: final(self).csr_word() },
            ),
    ;

    /// Selects the processor clock as the source.
    fn processor(&mut self, core: &mut Core)
        ensures
            final(self).csr_word() == old(self).csr_word() | CLKSOURCE,
            final(self).rvr_word() == old(self).rvr_word(),
            final(self).cvr_word() == old(self).cvr_word(),
            final(core).events() == old(core).events().push(
                Event::Write { addr: SYST_CSR, value: final(self).csr_word() },
            ),
    ;

    /// Sets the value reloaded into the counter (its low 24 bits), then
    /// writes the current value register, which clears the counter.
    fn reload(&mut self, core: &mut Core, v: u32)
        ensures
            final(self).rvr_word() == v & COUNT_MASK,
            final(self).cvr_word() == 0,
            final(self).csr_word() == old(self).csr_word(),
            final(core).events() == old(core).events() + seq![
                Event::Write { addr: SYST_RVR, value: v & COUNT_MASK },
                Event::Write { addr: SYST_CVR, value: 0 },
            ],
    ;

    /// Reads the current counter value.
    fn current(&self) -> (r: u32)
        ensures
            r == self.cvr_word(),
    ;
}

} // verus!
