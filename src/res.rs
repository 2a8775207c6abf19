//! System resources: acquisition, release and one-time allocation.

use vstd::prelude::*;

verus! {

/// A resource that can be given back.
pub trait Release {
    type Error;

    type Output;

    /// Gives the resource back; fails while resources that depend on it are
    /// still in use.
    fn release(&mut self) -> Result<Self::Output, Self::Error>;
}

/// A resource that can be taken.
pub trait Acquire: Sized + Release {
    /// Takes the resource.
    fn acquire() -> Result<Self, Self::Error>;
}

/// Storage for a value that is initialized at most once.
pub struct PreAllocation<T> {
    inner: Option<Allocation<T>>,
}

impl<T> PreAllocation<T> {
    /// The value stored, if initialized.
    pub closed spec fn contents(&self) -> Option<T> {
        match self.inner {
            Some(a) => Some(a.inner),
            None => None,
        }
    }

    /// Storage not yet initialized.
    pub fn empty() -> (r: Self)
        ensures
            r.contents() is None,
    {
        PreAllocation { inner: None }
    }

    /// Initializes the storage with `inner`, which only the first call
    /// does: it returns whether this call stored its value.
    pub fn init(&mut self, inner: T) -> (r: bool)
        ensures
            r == (old(self).contents() is None),
            r ==> final(self).contents() == Some(inner),
            !r ==> final(self).contents() == old(self).contents(),
    {
        if self.inner.is_none() {
            self.inner = Some(Allocation { inner });
            true
        } else {
            false
        }
    }

    /// The stored value, once initialized.
    pub fn get(&self) -> (r: Option<&Allocation<T>>)
        ensures
            r is None <==> self.contents() is None,
            r matches Some(a) ==> self.contents() == Some(a.value()),
    {
        match &self.inner {
            Some(a) => Some(a),
            None => None,
        }
    }
}

/// An allocated and initialized value.
pub struct Allocation<T> {
    inner: T,
}

impl<T> Allocation<T> {
    /// The value held.
    pub closed spec fn value(&self) -> T {
        self.inner
    }

    /// Holds `inner`.
    pub fn new(inner: T) -> (r: Self)
        ensures
            r.value() == inner,
    {
        Allocation { inner }
    }

    /// The same allocation, borrowed for a shorter lifetime.
    pub fn nonstatic<'a>(x: &'a Self) -> (r: &'a Self)
        ensures
            r == x,
    {
        x
    }

    /// The same allocation, mutably borrowed for a shorter lifetime.
    pub fn nonstatic_mut<'a>(x: &'a mut Self) -> (r: &'a mut Self)
        ensures
            *r == *old(x),
    {
        x
    }

    /// The value held.
    pub fn as_ref(&self) -> (r: &T)
        ensures
            *r == self.value(),
    {
        &self.inner
    }
}

} // verus!
