//! System Control Block: reset, sleep modes, vector table offset and the
//! system handler priority registers.

use crate::arm::cpu::{barrier_triple, barriers, Core, Event};
use crate::reg::{DefaultRegister, Register};
use vstd::prelude::*;

verus! {

/// CPUID base register.
pub const CPUID: u32 = 0xE000_ED00;

/// Vector table offset register (VTOR).
pub const VTOR: u32 = 0xE000_ED08;

/// Application interrupt and reset control register (AIRCR).
pub const AIRCR: u32 = 0xE000_ED0C;

/// System control register (SCR).
pub const SCR: u32 = 0xE000_ED10;

/// Configuration and control register (CCR).
pub const CCR: u32 = 0xE000_ED14;

/// Base of the system handler priority registers: SHPR`n` (`n` from 1 to 3)
/// is at `SHPR_BASE + 4 * n`.
pub const SHPR_BASE: u32 = 0xE000_ED14;

/// The AIRCR word that requests a system reset: the write key in the upper
/// half-word and SYSRESETREQ (bit 2).
pub const RESET_REQUEST: u32 = 0x05FA_0004;

/// SCR bit: wake up on any pending exception.
pub const SEVONPEND: u32 = 0x10;

/// SCR bit: deep sleep instead of normal sleep.
pub const SLEEPDEEP: u32 = 0x4;

/// SCR bit: sleep when returning from handler mode to thread mode.
pub const SLEEPONEXIT: u32 = 0x2;

/// The address of system handler priority register `r` (1 to 3).
pub open spec fn shpr_address(r: u32) -> u32 {
    (SHPR_BASE + 4 * r) as u32
}

/// Byte lane `l` (0 to 3) of the word `w`.
pub open spec fn lane(w: u32, l: u32) -> u8 {
    ((w >> (8 * l)) & 0xFF) as u8
}

/// The word `w` with byte lane `l` (0 to 3) replaced by `p`.
pub open spec fn with_lane(w: u32, l: u32, p: u8) -> u32 {
    (w & !(0xFFu32 << (8 * l))) | ((p as u32) << (8 * l))
}

/// Replaces one byte lane of a word, keeping the other three.
pub fn set_lane(w: u32, l: u32, p: u8) -> (r: u32)
    requires
        l < 4,
    ensures
        r == with_lane(w, l, p),
{
    (w & !(0xFFu32 << (8 * l))) | ((p as u32) << (8 * l))
}

/// Reads one byte lane of a word.
pub fn get_lane(w: u32, l: u32) -> (r: u8)
    requires
        l < 4,
    ensures
        r == lane(w, l),
{
    ((w >> (8 * l)) & 0xFF) as u8
}

/// Writing a byte lane and reading it back gives the byte written, and the
/// three other lanes of the word keep their values.
pub proof fn lemma_lane_isolation(w: u32, l: u32, k: u32, p: u8)
    requires
        l < 4,
        k < 4,
    ensures
        lane(with_lane(w, l, p), l) == p,
        k != l ==> lane(with_lane(w, l, p), k) == lane(w, k),
{
    let pp = p as u32;
    assert(((((w & !(0xFFu32 << (8 * l))) | (pp << (8 * l))) >> (8 * l)) & 0xFF) == pp)
        by (bit_vector)
        requires
            l < 4,
            pp < 256,
    ;
    assert(k != l ==> ((((w & !(0xFFu32 << (8 * l))) | (pp << (8 * l))) >> (8 * k)) & 0xFF) == ((
    w >> (8 * k)) & 0xFF)) by (bit_vector)
        requires
            l < 4,
            k < 4,
            pp < 256,
    ;
}

/// Reset, sleep mode and vector table offset control.
pub trait SystemControl: Sized {
    /// The application interrupt and reset control word.
    spec fn aircr_word(&self) -> u32;

    /// The system control word.
    spec fn scr_word(&self) -> u32;

    /// The vector table offset word.
    spec fn vtor_word(&self) -> u32;

    /// The system handler priority words, SHPR1 to SHPR3.
    spec fn shpr_words(&self) -> Seq<u32>;

    /// Requests a system reset by writing the key and SYSRESETREQ to AIRCR.
    /// On hardware the reset then takes effect asynchronously and control
    /// never comes back to the caller.
    fn reset(&mut self, core: &mut Core)
        ensures
            final(self).aircr_word() == RESET_REQUEST,
            final(self).scr_word() == old(self).scr_word(),
            final(self).vtor_word() == old(self).vtor_word(),
            final(self).shpr_words() == old(self).shpr_words(),
            final(core).masked() == old(core).masked(),
            final(core).events() == old(core).events().push(
                Event::Write { addr: AIRCR, value: RESET_REQUEST },
            ),
    ;

    /// Enables or disables waking up on any pending exception (SEVONPEND).
    fn sevonpend(&mut self, core: &mut Core, s: bool)
        ensures
            final(self).scr_word() == if s {
                old(self).scr_word() | SEVONPEND
            } else {
                old(self).scr_word() & !SEVONPEND
            },
            final(self).aircr_word() == old(self).aircr_word(),
            final(self).vtor_word() == old(self).vtor_word(),
            final(self).shpr_words() == old(self).shpr_words(),
            final(core).masked() == old(core).masked(),
            final(core).events() == old(core).events().push(
                Event::Write { addr: SCR, value: final(self).scr_word() },
            ),
    ;

    /// Selects deep sleep as the sleep mode.
    fn deepsleep(&mut self, core: &mut Core)
        ensures
            final(self).scr_word() == old(self).scr_word() | SLEEPDEEP,
            final(self).aircr_word() == old(self).aircr_word(),
            final(self).vtor_word() == old(self).vtor_word(),
            final(self).shpr_words() == old(self).shpr_words(),
            final(core).masked() == old(core).masked(),
            final(core).events() == old(core).events().push(
                Event::Write { addr: SCR, value: final(self).scr_word() },
            ),
    ;

    /// Selects normal sleep as the sleep mode.
    fn normalsleep(&mut self, core: &mut Core)
        ensures
            final(self).scr_word() == old(self).scr_word() & !SLEEPDEEP,
            final(self).aircr_word() == old(self).aircr_word(),
            final(self).vtor_word() == old(self).vtor_word(),
            final(self).shpr_words() == old(self).shpr_words(),
            final(core).masked() == old(core).masked(),
            final(core).events() == old(core).events().push(
                Event::Write { addr: SCR, value: final(self).scr_word() },
            ),
    ;

    /// Enables or disables sleeping on return from handler mode.
    fn sleeponexit(&mut self, core: &mut Core, s: bool)
        ensures
            final(self).scr_word() == if s {
                old(self).scr_word() | SLEEPONEXIT
            } else {
                old(self).scr_word() & !SLEEPONEXIT
            },
            final(self).aircr_word() == old(self).aircr_word(),
            final(self).vtor_word() == old(self).vtor_word(),
            final(self).shpr_words() == old(self).shpr_words(),
            final(core).masked() == old(core).masked(),
            final(core).events() == old(core).events().push(
                Event::Write { addr: SCR, value: final(self).scr_word() },
            ),
    ;

    /// Writes `addr` to VTOR, followed by the full barrier sequence so that
    /// the next exception taken uses the new table.
    fn vtor(&mut self, core: &mut Core, addr: u32)
        ensures
            final(self).vtor_word() == addr,
            final(self).aircr_word() == old(self).aircr_word(),
            final(self).scr_word() == old(self).scr_word(),
            final(self).shpr_words() == old(self).shpr_words(),
            final(core).masked() == old(core).masked(),
            final(core).events() == old(core).events() + seq![Event::Write { addr: VTOR, value: addr }]
                + barrier_triple(),
    ;
}

/// The System Control Block registers.
pub struct Scb {
    cpuid: u32,
    aircr: DefaultRegister,
    scr: DefaultRegister,
    ccr: DefaultRegister,
    vtor: DefaultRegister,
    shpr: Vec<u32>,
}

impl Scb {
    /// The three system handler priority words are present.
    pub open spec fn wf(&self) -> bool {
        self.shpr_words().len() == 3
    }

    /// The configuration and control word.
    pub closed spec fn ccr_word(&self) -> u32 {
        self.ccr.value()
    }

    /// The CPUID word.
    pub closed spec fn cpuid_word(&self) -> u32 {
        self.cpuid
    }

    /// A block with the given CPUID, AIRCR and CCR words, and every other
    /// register zero.
    pub fn new(cpuid: u32, aircr: u32, ccr: u32) -> (r: Self)
        ensures
            r.wf(),
            r.cpuid_word() == cpuid,
            r.aircr_word() == aircr,
            r.ccr_word() == ccr,
            r.scr_word() == 0,
            r.vtor_word() == 0,
            r.shpr_words() == seq![0u32, 0u32, 0u32],
    {
        Scb {
            cpuid,
            aircr: DefaultRegister::new(aircr),
            scr: DefaultRegister::new(0),
            ccr: DefaultRegister::new(ccr),
            vtor: DefaultRegister::new(0),
            shpr: vec![0u32, 0u32, 0u32],
        }
    }

    /// A block holding the given register words, as read from the bus.
    pub fn load(
        cpuid: u32,
        aircr: u32,
        scr: u32,
        ccr: u32,
        vtor: u32,
        shpr1: u32,
        shpr2: u32,
        shpr3: u32,
    ) -> (r: Self)
        ensures
            r.wf(),
            r.cpuid_word() == cpuid,
            r.aircr_word() == aircr,
            r.scr_word() == scr,
            r.ccr_word() == ccr,
            r.vtor_word() == vtor,
            r.shpr_words() == seq![shpr1, shpr2, shpr3],
    {
        Scb {
            cpuid,
            aircr: DefaultRegister::new(aircr),
            scr: DefaultRegister::new(scr),
            ccr: DefaultRegister::new(ccr),
            vtor: DefaultRegister::new(vtor),
            shpr: vec![shpr1, shpr2, shpr3],
        }
    }

    /// Reads VTOR: the base address of the active vector table.
    pub fn vtor_value(&self) -> (r: u32)
        ensures
            r == self.vtor_word(),
    {
        self.vtor.read()
    }

    /// Reads SCR.
    pub fn scr_value(&self) -> (r: u32)
        ensures
            r == self.scr_word(),
    {
        self.scr.read()
    }

    /// Reads AIRCR.
    pub fn aircr_value(&self) -> (r: u32)
        ensures
            r == self.aircr_word(),
    {
        self.aircr.read()
    }

    /// Reads system handler priority register `r` (1 to 3).
    pub fn shpr(&self, r: u32) -> (w: u32)
        requires
            self.wf(),
            1 <= r <= 3,
        ensures
            w == self.shpr_words()[r - 1],
    {
        self.shpr[(r - 1) as usize]
    }

    /// Whether the processor runs big-endian (AIRCR bit 15).
    pub fn be(&self) -> (r: bool)
        ensures
            r == (self.aircr_word() & 0x8000 != 0),
    {
        self.aircr.read() & 0x8000 != 0
    }

    /// Whether the processor runs little-endian (AIRCR bit 15 clear).
    pub fn le(&self) -> (r: bool)
        ensures
            r == (self.aircr_word() & 0x8000 == 0),
    {
        self.aircr.read() & 0x8000 == 0
    }

    /// Whether unaligned accesses are allowed (CCR bit 3, UNALIGN_TRP,
    /// clear).
    pub fn unaligned(&self) -> (r: bool)
        ensures
            r == (self.ccr_word() & 0x8 == 0),
    {
        self.ccr.read() & 0x8 == 0
    }

    /// Writes system handler priority register `r` (1 to 3), recording the
    /// write.
    pub fn write_shpr(&mut self, core: &mut Core, r: u32, w: u32)
        requires
            old(self).wf(),
            1 <= r <= 3,
        ensures
            final(self).wf(),
            final(self).shpr_words() == old(self).shpr_words().update(r - 1, w),
            final(self).aircr_word() == old(self).aircr_word(),
            final(self).scr_word() == old(self).scr_word(),
            final(self).vtor_word() == old(self).vtor_word(),
            final(self).ccr_word() == old(self).ccr_word(),
            final(self).cpuid_word() == old(self).cpuid_word(),
            final(core).masked() == old(core).masked(),
            final(core).events() == old(core).events().push(
                Event::Write { addr: shpr_address(r), value: w },
            ),
    {
        self.shpr.set((r - 1) as usize, w);
        core.write(SHPR_BASE + 4 * r, w);
    }
}

/// Reads the CPUID register.
pub fn cpuid(scb: &Scb) -> (r: u32)
    ensures
        r == scb.cpuid_word(),
{
    scb.cpuid
}

impl SystemControl for Scb {
    closed spec fn aircr_word(&self) -> u32 {
        self.aircr.value()
    }

    closed spec fn scr_word(&self) -> u32 {
        self.scr.value()
    }

    closed spec fn vtor_word(&self) -> u32 {
        self.vtor.value()
    }

    closed spec fn shpr_words(&self) -> Seq<u32> {
        self.shpr@
    }

    fn reset(&mut self, core: &mut Core) {
        self.aircr.write(RESET_REQUEST);
        core.write(AIRCR, RESET_REQUEST);
    }

    fn sevonpend(&mut self, core: &mut Core, s: bool) {
        if s {
            self.scr.set(SEVONPEND);
        } else {
            self.scr.clear(SEVONPEND);
        }
        let w = self.scr.read();
        core.write(SCR, w);
    }

    fn deepsleep(&mut self, core: &mut Core) {
        self.scr.set(SLEEPDEEP);
        let w = self.scr.read();
        core.write(SCR, w);
    }

    fn normalsleep(&mut self, core: &mut Core) {
        self.scr.clear(SLEEPDEEP);
        let w = self.scr.read();
        core.write(SCR, w);
    }

    fn sleeponexit(&mut self, core: &mut Core, s: bool) {
        if s {
            self.scr.set(SLEEPONEXIT);
        } else {
            self.scr.clear(SLEEPONEXIT);
        }
        let w = self.scr.read();
        core.write(SCR, w);
    }

    fn vtor(&mut self, core: &mut Core, addr: u32) {
        self.vtor.write(addr);
        core.write(VTOR, addr);
        barriers(core);
        assert(final(core).events() =~= old(core).events() + seq![
            Event::Write { addr: VTOR, value: addr },
        ] + barrier_triple());
    }
}

} // verus!
