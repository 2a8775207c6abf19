//! Register blocks of the memory protection unit, the system timer and the
//! debug status registers.

use crate::arm::cpu::{Core, Event};
use crate::arm::mpu::{
    MPUConfiguration,
    MPU_CTRL,
    MPU_RASR,
    MPU_RBAR,
    MPU_REGIONS,
    MPU_RNR,
};
use crate::arm::systick::Systick as SystickControl;
use crate::arm::systick::{
    CLKSOURCE,
    COUNT_MASK,
    ENABLE,
    SYST_CSR,
    SYST_CVR,
    SYST_RVR,
    TICKINT,
};
use crate::reg::{DefaultRegister, Register};
use vstd::prelude::*;

verus! {

/// The memory protection unit's registers.
pub struct MPU {
    ctrl: DefaultRegister,
    rnr: u32,
    bases: Vec<u32>,
    attrs: Vec<u32>,
}

impl MPU {
    /// A unit out of reset: disabled, region 0 selected, every region zero.
    pub fn empty() -> (r: Self)
        ensures
            <Self as crate::arm::mpu::MPU>::ctrl_word(&r) == 0,
            <Self as crate::arm::mpu::MPU>::rnr_word(&r) == 0,
            <Self as crate::arm::mpu::MPU>::region_bases(&r) == Seq::new(MPU_REGIONS as nat, |i: int| 0u32),
            <Self as crate::arm::mpu::MPU>::region_attrs(&r) == Seq::new(MPU_REGIONS as nat, |i: int| 0u32),
    {
        let mut bases: Vec<u32> = Vec::new();
        let mut attrs: Vec<u32> = Vec::new();
        while bases.len() < MPU_REGIONS
            invariant
                bases@.len() <= MPU_REGIONS,
                attrs@.len() == bases@.len(),
                forall|i: int| 0 <= i < bases@.len() ==> #[trigger] bases@[i] == 0,
                forall|i: int| 0 <= i < attrs@.len() ==> #[trigger] attrs@[i] == 0,
            decreases MPU_REGIONS - bases@.len(),
        {
            bases.push(0);
            attrs.push(0);
        }
        assert(bases@ =~= Seq::new(MPU_REGIONS as nat, |i: int| 0u32));
        assert(attrs@ =~= Seq::new(MPU_REGIONS as nat, |i: int| 0u32));
        MPU { ctrl: DefaultRegister::new(0), rnr: 0, bases, attrs }
    }

    /// A unit holding the given control word, region number and per-region
    /// base and attribute words, as read from the bus; `None` unless both
    /// lists have one word per region and the region number is in range.
    pub fn load(ctrl: u32, rnr: u32, bases: Vec<u32>, attrs: Vec<u32>) -> (r: Option<Self>)
        ensures
            r is Some <==> (bases@.len() == MPU_REGIONS && attrs@.len() == MPU_REGIONS && rnr
                < MPU_REGIONS),
            r matches Some(m) ==> {
                &&& <Self as crate::arm::mpu::MPU>::ctrl_word(&m) == ctrl
                &&& <Self as crate::arm::mpu::MPU>::rnr_word(&m) == rnr
                &&& <Self as crate::arm::mpu::MPU>::region_bases(&m) == bases@
                &&& <Self as crate::arm::mpu::MPU>::region_attrs(&m) == attrs@
            },
    {
        if bases.len() == MPU_REGIONS && attrs.len() == MPU_REGIONS && rnr < 16 {
            Some(MPU { ctrl: DefaultRegister::new(ctrl), rnr, bases, attrs })
        } else {
            None
        }
    }

    /// The control word.
    pub fn ctrl(&self) -> (r: u32)
        ensures
            r == <Self as crate::arm::mpu::MPU>::ctrl_word(self),
    {
        self.ctrl.read()
    }

    /// The base address of region `n`.
    pub fn region_base(&self, n: usize) -> (r: u32)
        requires
            n < <Self as crate::arm::mpu::MPU>::region_bases(self).len(),
        ensures
            r == <Self as crate::arm::mpu::MPU>::region_bases(self)[n as int],
    {
        self.bases[n]
    }

    /// The attribute and size word of region `n`.
    pub fn region_attr(&self, n: usize) -> (r: u32)
        requires
            n < <Self as crate::arm::mpu::MPU>::region_attrs(self).len(),
        ensures
            r == <Self as crate::arm::mpu::MPU>::region_attrs(self)[n as int],
    {
        self.attrs[n]
    }
}

impl crate::arm::mpu::MPU for MPU {
    closed spec fn ctrl_word(&self) -> u32 {
        self.ctrl.value()
    }

    closed spec fn rnr_word(&self) -> u32 {
        self.rnr
    }

    closed spec fn region_bases(&self) -> Seq<u32> {
        self.bases@
    }

    closed spec fn region_attrs(&self) -> Seq<u32> {
        self.attrs@
    }

    fn configure(&mut self, core: &mut Core, cfg: MPUConfiguration) {
        let rbar = cfg.rbar();
        core.write(MPU_RBAR, rbar);
        if rbar & 0x10 != 0 {
            self.rnr = rbar & 0xF;
        }
        assert(self.rnr < 16) by {
            assert((rbar & 0xFu32) < 16) by (bit_vector);
        }
        let n = self.rnr as usize;
        self.bases.set(n, rbar & !0x1Fu32);
        let rasr = cfg.rasr() | 1;
        core.write(MPU_RASR, rasr);
        self.attrs.set(n, rasr);
    }

    fn disable(&mut self, core: &mut Core) {
        self.ctrl.clear(1);
        let w = self.ctrl.read();
        core.write(MPU_CTRL, w);
    }

    fn enable(&mut self, core: &mut Core) {
        self.ctrl.set(1);
        let w = self.ctrl.read();
        core.write(MPU_CTRL, w);
    }

    fn disableregion(&mut self, core: &mut Core, n: u8) {
        self.rnr = n as u32;
        core.write(MPU_RNR, n as u32);
        let w = self.attrs[n as usize] & !1u32;
        self.attrs.set(n as usize, w);
        core.write(MPU_RASR, w);
    }

    fn enableregion(&mut self, core: &mut Core, n: u8) {
        self.rnr = n as u32;
        core.write(MPU_RNR, n as u32);
        let w = self.attrs[n as usize] | 1u32;
        self.attrs.set(n as usize, w);
        core.write(MPU_RASR, w);
    }
}

/// The system timer's registers.
pub struct Systick {
    csr: DefaultRegister,
    rvr: DefaultRegister,
    cvr: DefaultRegister,
}

impl Systick {
    /// A timer out of reset: stopped, every register zero.
    pub fn empty() -> (r: Self)
        ensures
            r.csr_word() == 0,
            r.rvr_word() == 0,
            r.cvr_word() == 0,
    {
        Systick {
            csr: DefaultRegister::new(0),
            rvr: DefaultRegister::new(0),
            cvr: DefaultRegister::new(0),
        }
    }

    /// A timer holding the given register words, as read from the bus.
    pub fn load(csr: u32, rvr: u32, cvr: u32) -> (r: Self)
        ensures
            r.csr_word() == csr,
            r.rvr_word() == rvr,
            r.cvr_word() == cvr,
    {
        Systick {
            csr: DefaultRegister::new(csr),
            rvr: DefaultRegister::new(rvr),
            cvr: DefaultRegister::new(cvr),
        }
    }

    /// The control and status word.
    pub fn csr(&self) -> (r: u32)
        ensures
            r == self.csr_word(),
    {
        self.csr.read()
    }

    /// The reload value.
    pub fn rvr(&self) -> (r: u32)
        ensures
            r == self.rvr_word(),
    {
        self.rvr.read()
    }

    fn write_csr(&mut self, core: &mut Core, w: u32)
        ensures
            final(self).csr_word() == w,
            final(self).rvr_word() == old(self).rvr_word(),
            final(self).cvr_word() == old(self).cvr_word(),
            final(core).events() == old(core).events().push(Event::Write { addr: SYST_CSR, value: w }),
    {
        self.csr.write(w);
        core.write(SYST_CSR, w);
    }

    /// Selects the external reference clock as the source.
    pub fn external(&mut self, core: &mut Core)
        ensures
            final(self).csr_word() == old(self).csr_word() & !CLKSOURCE,
            final(self).rvr_word() == old(self).rvr_word(),
            final(self).cvr_word() == old(self).cvr_word(),
            final(core).events() == old(core).events().push(
                Event::Write { addr: SYST_CSR, value: final(self).csr_word() },
            ),
    {
        let w = self.csr.read() & !CLKSOURCE;
        self.write_csr(core, w);
    }

    /// Selects the processor clock as the source.
    pub fn processor(&mut self, core: &mut Core)
        ensures
            final(self).csr_word() == old(self).csr_word() | CLKSOURCE,
            final(self).rvr_word() == old(self).rvr_word(),
            final(self).cvr_word() == old(self).cvr_word(),
            final(core).events() == old(core).events().push(
                Event::Write { addr: SYST_CSR, value: final(self).csr_word() },
            ),
    {
        let w = self.csr.read() | CLKSOURCE;
        self.write_csr(core, w);
    }

    /// Makes the timer request its exception on reaching zero, or stops it
    /// doing so.
    pub fn interrupt(&mut self, core: &mut Core, s: bool)
        ensures
            final(self).csr_word() == if s {
                old(self).csr_word() | TICKINT
            } else {
                old(self).csr_word() & !TICKINT
            },
            final(self).rvr_word() == old(self).rvr_word(),
            final(self).cvr_word() == old(self).cvr_word(),
            final(core).events() == old(core).events().push(
                Event::Write { addr: SYST_CSR, value: final(self).csr_word() },
            ),
    {
        let w = if s {
            self.csr.read() | TICKINT
        } else {
            self.csr.read() & !TICKINT
        };
        self.write_csr(core, w);
    }

    /// Starts the counter.
    pub fn enable(&mut self, core: &mut Core)
        ensures
            final(self).csr_word() == old(self).csr_word() | ENABLE,
            final(self).rvr_word() == old(self).rvr_word(),
            final(self).cvr_word() == old(self).cvr_word(),
            final(core).events() == old(core).events().push(
                Event::Write { addr: SYST_CSR, value: final(self).csr_word() },
            ),
    {
        let w = self.csr.read() | ENABLE;
        self.write_csr(core, w);
    }

    /// Stops the counter.
    pub fn disable(&mut self, core: &mut Core)
        ensures
            final(self).csr_word() == old(self).csr_word() & !ENABLE,
            final(self).rvr_word() == old(self).rvr_word(),
            final(self).cvr_word() == old(self).cvr_word(),
            final(core).events() == old(core).events().push(
                Event::Write { addr: SYST_CSR, value: final(self).csr_word() },
            ),
    {
        let w = self.csr.read() & !ENABLE;
        self.write_csr(core, w);
    }

    /// Sets the value reloaded into the counter (its low 24 bits). The
    /// counter itself and the control word are left as they are.
    pub fn reload(&mut self, core: &mut Core, rvr: u32)
        ensures
            final(self).rvr_word() == rvr & COUNT_MASK,
            final(self).cvr_word() == old(self).cvr_word(),
            final(self).csr_word() == old(self).csr_word(),
            final(core).events() == old(core).events().push(
                Event::Write { addr: SYST_RVR, value: rvr & COUNT_MASK },
            ),
    {
        let v = rvr & COUNT_MASK;
        self.rvr.write(v);
        core.write(SYST_RVR, v);
    }

    /// Reads the current counter value.
    pub fn current(&self) -> (r: u32)
        ensures
            r == self.cvr_word(),
    {
        self.cvr.read()
    }
}

impl SystickControl for Systick {
    closed spec fn csr_word(&self) -> u32 {
        self.csr.value()
    }

    closed spec fn rvr_word(&self) -> u32 {
        self.rvr.value()
    }

    closed spec fn cvr_word(&self) -> u32 {
        self.cvr.value()
    }

    fn enable(&mut self, core: &mut Core) {
        Systick::enable(self, core)
    }

    fn disable(&mut self, core: &mut Core) {
        Systick::disable(self, core)
    }

    fn intenable(&mut self, core: &mut Core) {
        self.interrupt(core, true)
    }

    fn intdisable(&mut self, core: &mut Core) {
        self.interrupt(core, false)
    }

    fn external(&mut self, core: &mut Core) {
        Systick::external(self, core)
    }

    fn processor(&mut self, core: &mut Core) {
        Systick::processor(self, core)
    }

    fn reload(&mut self, core: &mut Core, v: u32) {
        Systick::reload(self, core, v);
        self.cvr.write(0);
        core.write(SYST_CVR, 0);
        assert(core.events() =~= old(core).events() + seq![
            Event::Write { addr: SYST_RVR, value: v & COUNT_MASK },
            Event::Write { addr: SYST_CVR, value: 0 },
        ]);
    }

    fn current(&self) -> (r: u32) {
        Systick::current(self)
    }
}

/// Debug fault status register.
pub const DFSR: u32 = 0xE000_ED30;

/// Debug halting control and status register.
pub const DHCSR: u32 = 0xE000_EDF0;

/// The debug status registers.
pub struct Debug {
    /// Debug fault status word.
    pub dfsr: u32,
    /// Debug halting control and status word.
    pub dhcsr: u32,
}

impl Debug {
    /// Whether the last debug event came from an external source (DFSR
    /// bit 4).
    pub fn external(&self) -> (r: bool)
        ensures
            r == (self.dfsr & 0x10 != 0),
    {
        self.dfsr & 0x10 != 0
    }

    /// Whether the last debug event was a vector catch (DFSR bit 3).
    pub fn vectorcatch(&self) -> (r: bool)
        ensures
            r == (self.dfsr & 0x8 != 0),
    {
        self.dfsr & 0x8 != 0
    }

    /// Whether the last debug event came from the watchpoint unit (DFSR
    /// bit 2).
    pub fn dwt(&self) -> (r: bool)
        ensures
            r == (self.dfsr & 0x4 != 0),
    {
        self.dfsr & 0x4 != 0
    }

    /// Whether the last debug event was a breakpoint (DFSR bit 1).
    pub fn breakpoint(&self) -> (r: bool)
        ensures
            r == (self.dfsr & 0x2 != 0),
    {
        self.dfsr & 0x2 != 0
    }

    /// Whether the last debug event was a halt or step request (DFSR bit 0).
    pub fn halt(&self) -> (r: bool)
        ensures
            r == (self.dfsr & 0x1 != 0),
    {
        self.dfsr & 0x1 != 0
    }

    /// Whether the processor is locked up by an unrecoverable exception
    /// (DHCSR bit 19).
    pub fn lockup(&self) -> (r: bool)
        ensures
            r == (self.dhcsr & 0x8_0000 != 0),
    {
        self.dhcsr & 0x8_0000 != 0
    }

    /// Whether the processor is sleeping (DHCSR bit 18).
    pub fn sleeping(&self) -> (r: bool)
        ensures
            r == (self.dhcsr & 0x4_0000 != 0),
    {
        self.dhcsr & 0x4_0000 != 0
    }

    /// Whether the processor is halted (DHCSR bit 17).
    pub fn halted(&self) -> (r: bool)
        ensures
            r == (self.dhcsr & 0x2_0000 != 0),
    {
        self.dhcsr & 0x2_0000 != 0
    }
}

} // verus!
