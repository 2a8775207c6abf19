//! Transfer buffers.

use vstd::prelude::*;

verus! {

/// A buffer for a transfer, with the number of items expected and the number
/// actually transferred.
pub struct Buffer<T> {
    buffer: Vec<T>,
    /// Expected number of items.
    pub expected: usize,
    /// Number of items actually transferred.
    pub actual: usize,
}

impl<T> Buffer<T> {
    /// The items of the buffer.
    pub closed spec fn items(&self) -> Seq<T> {
        self.buffer@
    }

    /// Expected number of items.
    pub closed spec fn expected_count(&self) -> usize {
        self.expected
    }

    /// Number of items actually transferred.
    pub closed spec fn actual_count(&self) -> usize {
        self.actual
    }

    /// A buffer over `buffer`, with both counts zero.
    pub fn new(buffer: Vec<T>) -> (r: Self)
        ensures
            r.items() == buffer@,
            r.expected_count() == 0,
            r.actual_count() == 0,
    {
        Buffer { buffer, expected: 0, actual: 0 }
    }

    /// Sets both counts back to zero.
    pub fn reset(&mut self)
        ensures
            final(self).items() == old(self).items(),
            final(self).expected_count() == 0,
            final(self).actual_count() == 0,
    {
        self.expected = 0;
        self.actual = 0;
    }

    /// Sets the expected number of items.
    pub fn expected(&mut self, expected: usize)
        ensures
            final(self).items() == old(self).items(),
            final(self).expected_count() == expected,
            final(self).actual_count() == old(self).actual_count(),
    {
        self.expected = expected;
    }

    /// Turns the buffer into a writer over the same items and counts.
    pub fn writer(self) -> (r: BufferWriter<T>)
        ensures
            r.items() == self.items(),
            r.expected_count() == self.expected_count(),
            r.actual_count() == self.actual_count(),
    {
        BufferWriter { buffer: self.buffer, expected: self.expected, actual: self.actual }
    }
}

/// Writes the items to be sent into a buffer.
pub struct BufferWriter<T> {
    buffer: Vec<T>,
    /// Expected number of items.
    pub expected: usize,
    /// Number of items actually transferred.
    pub actual: usize,
}

impl<T> BufferWriter<T> {
    /// The items of the buffer.
    pub closed spec fn items(&self) -> Seq<T> {
        self.buffer@
    }

    /// Expected number of items.
    pub closed spec fn expected_count(&self) -> usize {
        self.expected
    }

    /// Number of items actually transferred.
    pub closed spec fn actual_count(&self) -> usize {
        self.actual
    }

    /// The number of items the buffer holds.
    pub fn len(&self) -> (r: usize)
        ensures
            r == self.items().len(),
    {
        self.buffer.len()
    }

    /// Item `index`.
    pub fn index(&self, index: usize) -> (r: &T)
        requires
            index < self.items().len(),
        ensures
            *r == self.items()[index as int],
    {
        &self.buffer[index]
    }

    /// Replaces item `index` with `item`.
    pub fn put(&mut self, index: usize, item: T)
        requires
            index < old(self).items().len(),
        ensures
            final(self).items() == old(self).items().update(index as int, item),
            final(self).expected_count() == old(self).expected_count(),
            final(self).actual_count() == old(self).actual_count(),
    {
        self.buffer.set(index, item);
    }
}

} // verus!
