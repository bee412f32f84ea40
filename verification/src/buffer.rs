use vstd::prelude::*;

verus! {

/// A descriptor for one reusable backing store: it records the byte capacity
/// of an allocation that currently holds no live elements.
///
/// A `Buffer` comes into being exactly once, when a container donates its
/// backing store, and is consumed exactly once, either by rebuilding a
/// container over it or by being dropped together with the pool that holds
/// it. The type is deliberately move-only (neither `Clone` nor `Copy`), so a
/// donated store can never end up with two owners.
pub struct Buffer {
    capacity: usize,
}

impl Buffer {
    /// The byte capacity this descriptor stands for.
    pub closed spec fn bytes(&self) -> nat {
        self.capacity as nat
    }

    /// Wraps the byte capacity of a donated backing store in a descriptor.
    pub fn from_byte_count(capacity: usize) -> (buf: Buffer)
        ensures
            buf.bytes() == capacity,
    {
        Buffer { capacity }
    }

    /// Reads the byte capacity without consuming the descriptor.
    pub fn byte_count(&self) -> (n: usize)
        ensures
            n == self.bytes(),
    {
        self.capacity
    }

    /// Consumes the descriptor, handing its backing store to the caller.
    pub fn into_byte_count(self) -> (n: usize)
        ensures
            n == self.bytes(),
    {
        self.capacity
    }
}

} // verus!
