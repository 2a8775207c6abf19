//! Typed hardware register primitive.

use vstd::prelude::*;

verus! {

/// Marker for the integer types that a hardware register can hold.
pub trait RegisterData: Sized {}

impl RegisterData for i8 {}

impl RegisterData for u8 {}

impl RegisterData for i16 {}

impl RegisterData for u16 {}

impl RegisterData for i32 {}

impl RegisterData for u32 {}

impl RegisterData for i64 {}

impl RegisterData for u64 {}

impl RegisterData for isize {}

impl RegisterData for usize {}

/// A 32-bit hardware register: a word that can be read and written, with
/// read-modify-write helpers for bit masks.
pub trait Register: Sized {
    /// The word the register currently holds.
    spec fn value(&self) -> u32;

    /// Reads the register.
    fn read(&self) -> (r: u32)
        ensures
            r == self.value(),
    ;

    /// Writes `val` to the register.
    fn write(&mut self, val: u32)
        ensures
            final(self).value() == val,
    ;

    /// Clears the bits of `mask`, leaving the others as they were.
    fn clear(&mut self, mask: u32)
        ensures
            final(self).value() == old(self).value() & !mask,
    {
        let v = self.read();
        self.write(v & !mask);
    }

    /// Sets the bits of `mask`, leaving the others as they were.
    fn set(&mut self, mask: u32)
        ensures
            final(self).value() == old(self).value() | mask,
    {
        let v = self.read();
        self.write(v | mask);
    }

    /// Inverts the bits of `mask`, leaving the others as they were.
    fn toggle(&mut self, mask: u32)
        ensures
            final(self).value() == old(self).value() ^ mask,
    {
        let v = self.read();
        self.write(v ^ mask);
    }
}

/// A register held as a plain word.
#[derive(Clone, Copy, Debug, PartialEq, Eq, Structural)]
pub struct DefaultRegister {
    word: u32,
}

impl DefaultRegister {
    /// A register holding `word`.
    pub fn new(word: u32) -> (r: Self)
        ensures
            r.value() == word,
    {
        DefaultRegister { word }
    }
}

impl Register for DefaultRegister {
    closed spec fn value(&self) -> u32 {
        self.word
    }

    fn read(&self) -> (r: u32) {
        self.word
    }

    fn write(&mut self, val: u32) {
        self.word = val;
    }
}

} // verus!
