//! Frequencies.

use vstd::prelude::*;

verus! {

/// A frequency in hertz.
#[derive(Clone, Copy, Debug, PartialEq, Eq, Structural, PartialOrd, Ord, Hash)]
pub struct FrequencyS(u32);

/// Hertz in a kilohertz.
pub const KHZ: u32 = 1000;

/// Hertz in a megahertz.
pub const MHZ: u32 = 1_000_000;

/// Hertz in a gigahertz.
pub const GHZ: u32 = 1_000_000_000;

impl FrequencyS {
    /// The frequency in hertz.
    pub closed spec fn hertz(self) -> nat {
        self.0 as nat
    }

    /// Zero hertz.
    pub fn zero() -> (r: FrequencyS)
        ensures
            r.hertz() == 0,
    {
        FrequencyS(0)
    }

    /// `val` hertz.
    pub fn hz(val: u32) -> (r: FrequencyS)
        ensures
            r.hertz() == val,
    {
        FrequencyS(val)
    }

    /// `val` kilohertz.
    pub fn khz(val: u32) -> (r: FrequencyS)
        requires
            val * KHZ <= u32::MAX,
        ensures
            r.hertz() == val * KHZ,
    {
        FrequencyS(val * KHZ)
    }

    /// `val` megahertz.
    pub fn mhz(val: u32) -> (r: FrequencyS)
        requires
            val * MHZ <= u32::MAX,
        ensures
            r.hertz() == val * MHZ,
    {
        FrequencyS(val * MHZ)
    }

    /// `val` gigahertz.
    pub fn ghz(val: u32) -> (r: FrequencyS)
        requires
            val * GHZ <= u32::MAX,
        ensures
            r.hertz() == val * GHZ,
    {
        FrequencyS(val * GHZ)
    }

    /// The frequency in whole hertz.
    pub fn as_hz(&self) -> (r: u32)
        ensures
            r == self.hertz(),
    {
        self.0
    }

    /// The frequency in whole kilohertz, rounded down.
    pub fn as_khz(&self) -> (r: u32)
        ensures
            r == self.hertz() / KHZ as nat,
    {
        self.0 / KHZ
    }

    /// The frequency in whole megahertz, rounded down.
    pub fn as_mhz(&self) -> (r: u32)
        ensures
            r == self.hertz() / MHZ as nat,
    {
        self.0 / MHZ
    }

    /// The frequency in whole gigahertz, rounded down.
    pub fn as_ghz(&self) -> (r: u32)
        ensures
            r == self.hertz() / GHZ as nat,
    {
        self.0 / GHZ
    }

    /// Whether the frequency is zero.
    pub fn is_zero(&self) -> (r: bool)
        ensures
            r == (self.hertz() == 0),
    {
        self.0 == 0
    }

    /// The frequency multiplied by `rhs`.
    pub fn times(self, rhs: u32) -> (r: FrequencyS)
        requires
            self.hertz() * rhs <= u32::MAX,
        ensures
            r.hertz() == self.hertz() * rhs,
    {
        FrequencyS(self.0 * rhs)
    }

    /// The frequency divided by `rhs`, rounded down.
    pub fn divided(self, rhs: u32) -> (r: FrequencyS)
        requires
            rhs != 0,
        ensures
            r.hertz() == self.hertz() / rhs as nat,
    {
        FrequencyS(self.0 / rhs)
    }
}

/// A frequency counted in units of `M` hertz.
#[derive(Clone, Copy, Debug)]
pub struct FrequencyX<const M: usize>(usize);

impl<const M: usize> FrequencyX<M> {
    /// The number of units of `M` hertz.
    pub closed spec fn units(self) -> nat {
        self.0 as nat
    }

    /// `f` units of `M` hertz.
    pub fn new(f: usize) -> (r: Self)
        ensures
            r.units() == f,
    {
        FrequencyX(f)
    }

    /// The number of units of `M` hertz.
    pub fn value(&self) -> (r: usize)
        ensures
            r == self.units(),
    {
        self.0
    }
}

} // verus!
