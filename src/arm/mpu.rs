//! Memory Protection Unit: region descriptors and their commitment.
//!
//! A region is built in software as the two words the hardware expects, the
//! region base address word (RBAR) and the region attribute and size word
//! (RASR), and is only committed to the unit by [`MPU::configure`].

use vstd::arithmetic::div_mod::{lemma_fundamental_div_mod, lemma_mod_multiples_basic};
use vstd::arithmetic::power2::{lemma2_to64, lemma2_to64_rest, lemma_pow2_adds, pow2};
use vstd::bits::lemma_u32_low_bits_mask_is_mod;
use crate::arm::cpu::{Core, Event};
use vstd::prelude::*;

verus! {

/// Access permissions of a region for one privilege level.
#[derive(Clone, Copy, Debug, PartialEq, Eq, Structural)]
pub enum MPUPermissions {
    RW,
    RO,
    NoAccess,
}

/// The size classes of a region, from 256 bytes to 4 GiB.
#[derive(Clone, Copy, Debug, PartialEq, Eq, Structural)]
pub enum MPURegionSize {
    Bytes256,
    Bytes512,
    KBytes1,
    KBytes2,
    KBytes4,
    KBytes8,
    KBytes16,
    KBytes32,
    KBytes64,
    KBytes128,
    KBytes256,
    KBytes512,
    MBytes1,
    MBytes2,
    MBytes4,
    MBytes8,
    MBytes16,
    MBytes32,
    MBytes64,
    MBytes128,
    MBytes256,
    MBytes512,
    GBytes1,
    GBytes2,
    GBytes4,
}

impl MPURegionSize {
    /// The SIZE field of the attribute word: the region spans
    /// `2^(exponent + 1)` bytes.
    pub open spec fn exponent(self) -> u32 {
        match self {
            MPURegionSize::Bytes256 => 7,
            MPURegionSize::Bytes512 => 8,
            MPURegionSize::KBytes1 => 9,
            MPURegionSize::KBytes2 => 10,
            MPURegionSize::KBytes4 => 11,
            MPURegionSize::KBytes8 => 12,
            MPURegionSize::KBytes16 => 13,
            MPURegionSize::KBytes32 => 14,
            MPURegionSize::KBytes64 => 15,
            MPURegionSize::KBytes128 => 16,
            MPURegionSize::KBytes256 => 17,
            MPURegionSize::KBytes512 => 18,
            MPURegionSize::MBytes1 => 19,
            MPURegionSize::MBytes2 => 20,
            MPURegionSize::MBytes4 => 21,
            MPURegionSize::MBytes8 => 22,
            MPURegionSize::MBytes16 => 23,
            MPURegionSize::MBytes32 => 24,
            MPURegionSize::MBytes64 => 25,
            MPURegionSize::MBytes128 => 26,
            MPURegionSize::MBytes256 => 27,
            MPURegionSize::MBytes512 => 28,
            MPURegionSize::GBytes1 => 29,
            MPURegionSize::GBytes2 => 30,
            MPURegionSize::GBytes4 => 31,
        }
    }

    /// The number of bytes a region of this size spans.
    pub open spec fn bytes(self) -> nat {
        pow2((self.exponent() + 1) as nat)
    }

    /// Mask of the address bits that must be zero in a region's base
    /// address: one less than the region's size.
    pub fn mask(&self) -> (r: u32)
        ensures
            r as nat + 1 == self.bytes(),
    {
        proof {
            lemma2_to64();
        }
        match *self {
            MPURegionSize::Bytes256 => 0xFF,
            MPURegionSize::Bytes512 => 0x1FF,
            MPURegionSize::KBytes1 => 0x3FF,
            MPURegionSize::KBytes2 => 0x7FF,
            MPURegionSize::KBytes4 => 0xFFF,
            MPURegionSize::KBytes8 => 0x1FFF,
            MPURegionSize::KBytes16 => 0x3FFF,
            MPURegionSize::KBytes32 => 0x7FFF,
            MPURegionSize::KBytes64 => 0xFFFF,
            MPURegionSize::KBytes128 => 0x1_FFFF,
            MPURegionSize::KBytes256 => 0x3_FFFF,
            MPURegionSize::KBytes512 => 0x7_FFFF,
            MPURegionSize::MBytes1 => 0xF_FFFF,
            MPURegionSize::MBytes2 => 0x1F_FFFF,
            MPURegionSize::MBytes4 => 0x3F_FFFF,
            MPURegionSize::MBytes8 => 0x7F_FFFF,
            MPURegionSize::MBytes16 => 0xFF_FFFF,
            MPURegionSize::MBytes32 => 0x1FF_FFFF,
            MPURegionSize::MBytes64 => 0x3FF_FFFF,
            MPURegionSize::MBytes128 => 0x7FF_FFFF,
            MPURegionSize::MBytes256 => 0xFFF_FFFF,
            MPURegionSize::MBytes512 => 0x1FFF_FFFF,
            MPURegionSize::GBytes1 => 0x3FFF_FFFF,
            MPURegionSize::GBytes2 => 0x7FFF_FFFF,
            MPURegionSize::GBytes4 => 0xFFFF_FFFF,
        }
    }
}

impl From<MPURegionSize> for u32 {
    /// The SIZE field of the attribute word, in place (bits 1 to 5).
    fn from(s: MPURegionSize) -> (r: u32) {
        match s {
            MPURegionSize::Bytes256 => 7 << 1,
            MPURegionSize::Bytes512 => 8 << 1,
            MPURegionSize::KBytes1 => 9 << 1,
            MPURegionSize::KBytes2 => 10 << 1,
            MPURegionSize::KBytes4 => 11 << 1,
            MPURegionSize::KBytes8 => 12 << 1,
            MPURegionSize::KBytes16 => 13 << 1,
            MPURegionSize::KBytes32 => 14 << 1,
            MPURegionSize::KBytes64 => 15 << 1,
            MPURegionSize::KBytes128 => 16 << 1,
            MPURegionSize::KBytes256 => 17 << 1,
            MPURegionSize::KBytes512 => 18 << 1,
            MPURegionSize::MBytes1 => 19 << 1,
            MPURegionSize::MBytes2 => 20 << 1,
            MPURegionSize::MBytes4 => 21 << 1,
            MPURegionSize::MBytes8 => 22 << 1,
            MPURegionSize::MBytes16 => 23 << 1,
            MPURegionSize::MBytes32 => 24 << 1,
            MPURegionSize::MBytes64 => 25 << 1,
            MPURegionSize::MBytes128 => 26 << 1,
            MPURegionSize::MBytes256 => 27 << 1,
            MPURegionSize::MBytes512 => 28 << 1,
            MPURegionSize::GBytes1 => 29 << 1,
            MPURegionSize::GBytes2 => 30 << 1,
            MPURegionSize::GBytes4 => 31 << 1,
        }
    }
}

impl vstd::std_specs::convert::FromSpecImpl<MPURegionSize> for u32 {
    open spec fn obeys_from_spec() -> bool {
        true
    }

    open spec fn from_spec(s: MPURegionSize) -> u32 {
        s.exponent() << 1
    }
}

/// The AP field (bits 24 to 26 of the attribute word) for privileged
/// permissions `p` and unprivileged permissions `u`; a pair the hardware
/// cannot express gets no access at all.
pub open spec fn ap_bits(p: MPUPermissions, u: MPUPermissions) -> u32 {
    match (p, u) {
        (MPUPermissions::RW, MPUPermissions::NoAccess) => 0b001,
        (MPUPermissions::RW, MPUPermissions::RO) => 0b010,
        (MPUPermissions::RW, MPUPermissions::RW) => 0b011,
        (MPUPermissions::RO, MPUPermissions::NoAccess) => 0b101,
        (MPUPermissions::RO, MPUPermissions::RO) => 0b111,
        _ => 0b000,
    }
}

/// The region base address word for region `n` at `addr`, with the VALID bit
/// set so that the write also selects the region.
pub open spec fn base_word(n: u8, addr: u32) -> u32 {
    addr | 0x10 | (n as u32)
}

/// The attribute word `rasr` with its SIZE field set to `size`.
pub open spec fn sized(rasr: u32, size: MPURegionSize) -> u32 {
    (rasr & !0x3Eu32) | (size.exponent() << 1)
}

/// The base address that a region base address word holds.
pub open spec fn decoded_address(rbar: u32) -> u32 {
    rbar & !0x1Fu32
}

/// The region number that a region base address word selects.
pub open spec fn decoded_region(rbar: u32) -> u32 {
    rbar & 0xF
}

/// The number of bytes that the SIZE field of an attribute word spans.
pub open spec fn decoded_bytes(rasr: u32) -> nat {
    pow2((((rasr >> 1) & 0x1F) + 1) as nat)
}

/// A region descriptor, accumulated in software as the two words the
/// hardware expects.
#[derive(Clone, Copy, Debug, PartialEq, Eq, Structural)]
pub struct MPUConfiguration {
    rbar: u32,
    rasr: u32,
}

impl MPUConfiguration {
    /// The region base address word.
    pub closed spec fn base(self) -> u32 {
        self.rbar
    }

    /// The region attribute and size word, without the enable bit.
    pub closed spec fn attributes(self) -> u32 {
        self.rasr
    }

    /// An empty descriptor: both words zero.
    pub fn new() -> (r: Self)
        ensures
            r.base() == 0,
            r.attributes() == 0,
    {
        MPUConfiguration { rbar: 0, rasr: 0 }
    }

    /// The region base address word.
    pub fn rbar(&self) -> (r: u32)
        ensures
            r == self.base(),
    {
        self.rbar
    }

    /// The region attribute and size word, without the enable bit.
    pub fn rasr(&self) -> (r: u32)
        ensures
            r == self.attributes(),
    {
        self.rasr
    }

    /// Sets the region number, base address and size. Fails, and produces
    /// no descriptor, when `addr` is not a multiple of the region's size.
    pub fn region(self, n: u8, addr: u32, size: MPURegionSize) -> (r: Result<Self, ()>)
        requires
            n < 16,
        ensures
            r is Ok <==> addr as nat % size.bytes() == 0,
            r is Err ==> r == Err::<Self, ()>(()),
            r matches Ok(c) ==> c.base() == base_word(n, addr) && c.attributes() == sized(
                self.attributes(),
                size,
            ),
    {
        let m = size.mask();
        proof {
            lemma_aligned_iff_mask(addr, m, size);
        }
        if (addr & !m) == addr {
            let rbar = addr | (1u32 << 4u32) | (n as u32);
            let rasr = (self.rasr & !0x3Eu32) | u32::from(size);
            assert((1u32 << 4u32) == 0x10u32) by (bit_vector);
            Ok(MPUConfiguration { rbar, rasr })
        } else {
            Err(())
        }
    }

    /// Sets the sub-region disable mask (bits 8 to 15 of the attribute word).
    pub fn subregions(self, mask: u8) -> (r: Self)
        ensures
            r.base() == self.base(),
            r.attributes() == (self.attributes() & !0xFF00u32) | ((mask as u32) << 8),
    {
        let rasr = (self.rasr & !(0xFFu32 << 8u32)) | ((mask as u32) << 8u32);
        assert((0xFFu32 << 8u32) == 0xFF00u32) by (bit_vector);
        MPUConfiguration { rbar: self.rbar, rasr }
    }

    /// Sets the access permissions: `p` for privileged and `u` for
    /// unprivileged code.
    pub fn permissions(self, p: MPUPermissions, u: MPUPermissions) -> (r: Self)
        ensures
            r.base() == self.base(),
            r.attributes() == (self.attributes() & !0x0700_0000u32) | (ap_bits(p, u) << 24),
    {
        let cleared = self.rasr & !(0x7u32 << 24u32);
        let ap: u32 = match (p, u) {
            (MPUPermissions::RW, MPUPermissions::NoAccess) => 0b001,
            (MPUPermissions::RW, MPUPermissions::RO) => 0b010,
            (MPUPermissions::RW, MPUPermissions::RW) => 0b011,
            (MPUPermissions::RO, MPUPermissions::NoAccess) => 0b101,
            (MPUPermissions::RO, MPUPermissions::RO) => 0b111,
            _ => 0b000,
        };
        assert((0x7u32 << 24u32) == 0x0700_0000u32) by (bit_vector);
        MPUConfiguration { rbar: self.rbar, rasr: cleared | (ap << 24u32) }
    }

    /// Allows instruction fetches from the region (clears XN, bit 28).
    pub fn execute(self) -> (r: Self)
        ensures
            r.base() == self.base(),
            r.attributes() == self.attributes() & !0x1000_0000u32,
    {
        assert((1u32 << 28u32) == 0x1000_0000u32) by (bit_vector);
        MPUConfiguration { rbar: self.rbar, rasr: self.rasr & !(1u32 << 28u32) }
    }

    /// Forbids instruction fetches from the region (sets XN, bit 28).
    pub fn noexecute(self) -> (r: Self)
        ensures
            r.base() == self.base(),
            r.attributes() == self.attributes() | 0x1000_0000u32,
    {
        assert((1u32 << 28u32) == 0x1000_0000u32) by (bit_vector);
        MPUConfiguration { rbar: self.rbar, rasr: self.rasr | (1u32 << 28u32) }
    }
}

proof fn lemma_clear_mask(addr: u32, m: u32)
    by (bit_vector)
    ensures
        ((addr & !m) == addr) <==> ((addr & m) == 0u32),
{
}

/// A base address passes the mask test of a size exactly when it is a
/// multiple of that size.
proof fn lemma_aligned_iff_mask(addr: u32, m: u32, size: MPURegionSize)
    requires
        m as nat + 1 == size.bytes(),
    ensures
        ((addr & !m) == addr) <==> (addr as nat % size.bytes() == 0),
{
    lemma2_to64();
    lemma2_to64_rest();
    lemma_clear_mask(addr, m);
    let k = (size.exponent() + 1) as nat;
    if k < 32 {
        lemma_u32_low_bits_mask_is_mod(addr, k);
        assert(m as nat == vstd::bits::low_bits_mask(k));
    } else {
        assert(m == 0xFFFF_FFFFu32);
        assert((addr & 0xFFFF_FFFFu32) == addr) by (bit_vector);
        assert(addr as nat % 0x1_0000_0000 == addr as nat);
    }
}

/// A multiple of a region's size has its low byte clear.
proof fn lemma_aligned_low_byte(addr: u32, size: MPURegionSize)
    requires
        addr as nat % size.bytes() == 0,
    ensures
        addr & 0xFFu32 == 0,
{
    let e = (size.exponent() - 7) as nat;
    lemma_pow2_adds(8, e);
    lemma2_to64();
    let b = size.bytes() as int;
    assert(b == 256 * pow2(e));
    lemma_fundamental_div_mod(addr as int, b);
    let q = addr as int / b;
    assert(addr as int == b * q);
    assert(addr as int == 256 * (pow2(e) * q)) by (nonlinear_arith)
        requires
            addr as int == b * q,
            b == 256 * pow2(e),
    ;
    lemma_mod_multiples_basic(pow2(e) * q, 256);
    assert(addr as int % 256 == 0);
    assert((addr & 0xFFu32) == addr % 256u32) by (bit_vector);
}

/// For every region number, size and base address that is a multiple of the
/// size, the words that [`MPUConfiguration::region`] encodes give back exactly
/// that address, region number and size; the other fields of the attribute
/// word are untouched.
pub proof fn lemma_region_words(n: u8, addr: u32, size: MPURegionSize, rasr: u32)
    requires
        n < 16,
        addr as nat % size.bytes() == 0,
    ensures
        decoded_address(base_word(n, addr)) == addr,
        decoded_region(base_word(n, addr)) == n as u32,
        decoded_bytes(sized(rasr, size)) == size.bytes(),
        sized(rasr, size) & !0x3Eu32 == rasr & !0x3Eu32,
{
    lemma_aligned_low_byte(addr, size);
    let e = size.exponent();
    let nn = n as u32;
    assert(((addr | 0x10u32 | nn) & !0x1Fu32) == addr && ((addr | 0x10u32 | nn) & 0xFu32) == nn)
        by (bit_vector)
        requires
            addr & 0xFFu32 == 0,
            nn < 16,
    ;
    assert(((((rasr & !0x3Eu32) | (e << 1)) >> 1) & 0x1Fu32) == e && (((rasr & !0x3Eu32) | (e
        << 1)) & !0x3Eu32) == (rasr & !0x3Eu32)) by (bit_vector)
        requires
            e < 32,
    ;
}

/// MPU control register.
pub const MPU_CTRL: u32 = 0xE000_ED94;

/// MPU region number register.
pub const MPU_RNR: u32 = 0xE000_ED98;

/// MPU region base address register.
pub const MPU_RBAR: u32 = 0xE000_ED9C;

/// MPU region attribute and size register.
pub const MPU_RASR: u32 = 0xE000_EDA0;

/// Number of regions the unit holds.
pub const MPU_REGIONS: usize = 16;

/// The region that a write of `rbar` to RBAR addresses, when `rnr` is the
/// current region number: the word's own REGION field when its VALID bit is
/// set, else `rnr`.
pub open spec fn target_region(rbar: u32, rnr: u32) -> u32 {
    if rbar & 0x10 != 0 {
        decoded_region(rbar)
    } else {
        rnr
    }
}

/// Control of the memory protection unit.
pub trait MPU: Sized {
    /// The control word.
    spec fn ctrl_word(&self) -> u32;

    /// The region number register.
    spec fn rnr_word(&self) -> u32;

    /// The base address of each region.
    spec fn region_bases(&self) -> Seq<u32>;

    /// The attribute and size word of each region, enable bit included.
    spec fn region_attrs(&self) -> Seq<u32>;

    /// Commits `cfg`: first the base address word, which selects the region,
    /// then the attribute word with the region's enable bit set, so the
    /// region is never active with a stale base.
    fn configure(&mut self, core: &mut Core, cfg: MPUConfiguration)
        requires
            old(self).region_bases().len() == MPU_REGIONS,
            old(self).region_attrs().len() == MPU_REGIONS,
            old(self).rnr_word() < MPU_REGIONS,
        ensures
            ({
                let n = target_region(cfg.base(), old(self).rnr_word());
                &&& final(self).rnr_word() == n
                &&& final(self).region_bases() == old(self).region_bases().update(
                    n as int,
                    decoded_address(cfg.base()),
                )
                &&& final(self).region_attrs() == old(self).region_attrs().update(
                    n as int,
                    cfg.attributes() | 1,
                )
            }),
            final(self).ctrl_word() == old(self).ctrl_word(),
            final(core).masked() == old(core).masked(),
            final(core).events() == old(core).events() + seq![
                Event::Write { addr: MPU_RBAR, value: cfg.base() },
                Event::Write { addr: MPU_RASR, value: cfg.attributes() | 1 },
            ],
    ;

    /// Disables the whole unit. Memory protection no longer holds after it.
    fn disable(&mut self, core: &mut Core)
        ensures
            final(self).ctrl_word() == old(self).ctrl_word() & !1u32,
            final(self).rnr_word() == old(self).rnr_word(),
            final(self).region_bases() == old(self).region_bases(),
            final(self).region_attrs() == old(self).region_attrs(),
            final(core).masked() == old(core).masked(),
            final(core).events() == old(core).events().push(
                Event::Write { addr: MPU_CTRL, value: final(self).ctrl_word() },
            ),
    ;

    /// Enables the whole unit. Code that relied on unprotected access may
    /// fault after it.
    fn enable(&mut self, core: &mut Core)
        ensures
            final(self).ctrl_word() == old(self).ctrl_word() | 1u32,
            final(self).rnr_word() == old(self).rnr_word(),
            final(self).region_bases() == old(self).region_bases(),
            final(self).region_attrs() == old(self).region_attrs(),
            final(core).masked() == old(core).masked(),
            final(core).events() == old(core).events().push(
                Event::Write { addr: MPU_CTRL, value: final(self).ctrl_word() },
            ),
    ;

    /// Disables region `n`: selects it, then clears its enable bit.
    fn disableregion(&mut self, core: &mut Core, n: u8)
        requires
            old(self).region_attrs().len() == MPU_REGIONS,
            (n as int) < MPU_REGIONS,
        ensures
            final(self).rnr_word() == n as u32,
            final(self).region_attrs() == old(self).region_attrs().update(
                n as int,
                old(self).region_attrs()[n as int] & !1u32,
            ),
            final(self).ctrl_word() == old(self).ctrl_word(),
            final(self).region_bases() == old(self).region_bases(),
            final(core).masked() == old(core).masked(),
            final(core).events() == old(core).events() + seq![
                Event::Write { addr: MPU_RNR, value: n as u32 },
                Event::Write { addr: MPU_RASR, value: old(self).region_attrs()[n as int] & !1u32 },
            ],
    ;

    /// Enables region `n`: selects it, then sets its enable bit.
    fn enableregion(&mut self, core: &mut Core, n: u8)
        requires
            old(self).region_attrs().len() == MPU_REGIONS,
            (n as int) < MPU_REGIONS,
        ensures
            final(self).rnr_word() == n as u32,
            final(self).region_attrs() == old(self).region_attrs().update(
                n as int,
                old(self).region_attrs()[n as int] | 1u32,
            ),
            final(self).ctrl_word() == old(self).ctrl_word(),
            final(self).region_bases() == old(self).region_bases(),
            final(core).masked() == old(core).masked(),
            final(core).events() == old(core).events() + seq![
                Event::Write { addr: MPU_RNR, value: n as u32 },
                Event::Write { addr: MPU_RASR, value: old(self).region_attrs()[n as int] | 1u32 },
            ],
    ;
}

} // verus!
