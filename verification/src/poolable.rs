use vstd::prelude::*;
use vstd::string::StringSliceAdditionalSpecFns;

use crate::buffer::Buffer;

verus! {

/// Number of whole elements of size `elem_size` bytes that fit in `bytes`
/// bytes. A zero element size fits no element: such a store cannot be
/// reinterpreted at all.
pub open spec fn elems_of_bytes(bytes: nat, elem_size: nat) -> nat {
    if elem_size == 0 {
        0
    } else {
        bytes / elem_size
    }
}

/// The part of a store of `bytes` bytes that stays usable when the store is
/// reinterpreted at element size `elem_size`: whole elements only, trailing
/// bytes are lost.
pub open spec fn usable_bytes(bytes: nat, elem_size: nat) -> nat {
    elems_of_bytes(bytes, elem_size) * elem_size
}

/// The capability a growable container type implements to take part in
/// buffer recycling: it can donate its backing store as a [`Buffer`] and be
/// rebuilt, logically empty, over a previously donated one.
pub trait Poolable: Sized {
    /// Logical length: the number of live elements.
    spec fn spec_len(&self) -> nat;

    /// Byte capacity of the backing store.
    spec fn spec_byte_capacity(&self) -> nat;

    /// Size of one element in bytes.
    spec fn spec_elem_size() -> nat;

    /// Size of one element in bytes, as a machine value.
    fn elem_size() -> (n: usize)
        ensures
            n == Self::spec_elem_size(),
    ;

    /// Donates the backing store. Only a logically empty container may
    /// donate: live elements would otherwise be lost silently, so emptiness
    /// is an explicit precondition of the capability.
    fn get_buffer(self) -> (buf: Buffer)
        requires
            self.spec_len() == 0,
        ensures
            buf.bytes() == self.spec_byte_capacity(),
    ;

    /// A canonical container with no elements and no backing store.
    fn empty() -> (r: Self)
        ensures
            r.spec_len() == 0,
            r.spec_byte_capacity() == 0,
    ;

    /// Rebuilds a logically empty container over a donated store. The store
    /// is reinterpreted at this type's element size, keeping whole elements
    /// only; a zero element size would make that reinterpretation
    /// meaningless, so it is ruled out.
    fn from_buffer(buf: Buffer) -> (r: Self)
        requires
            Self::spec_elem_size() > 0,
        ensures
            r.spec_len() == 0,
            r.spec_byte_capacity() == usable_bytes(buf.bytes(), Self::spec_elem_size()),
    ;

    /// Drops all live elements while keeping the backing store.
    fn clear(&mut self)
        ensures
            final(self).spec_len() == 0,
            final(self).spec_byte_capacity() == old(self).spec_byte_capacity(),
    ;
}

/// A growable byte string: the byte-level container built into the crate.
///
/// Its capacity is the byte capacity of its backing store; appending past the
/// capacity grows the store exactly to the new length.
pub struct ByteString {
    data: Vec<u8>,
    capacity: usize,
}

impl View for ByteString {
    type V = Seq<u8>;

    closed spec fn view(&self) -> Seq<u8> {
        self.data@
    }
}

impl ByteString {
    /// Number of bytes currently held.
    pub fn len(&self) -> (n: usize)
        ensures
            n == self@.len(),
    {
        self.data.len()
    }

    /// Byte capacity of the backing store.
    pub fn capacity(&self) -> (n: usize)
        ensures
            n == self.spec_byte_capacity(),
    {
        self.capacity
    }

    /// Appends the bytes of `s`, growing the store when they do not fit.
    pub fn push_str(&mut self, s: &str)
        ensures
            final(self)@ == old(self)@ + s.spec_bytes(),
            final(self).spec_byte_capacity() == if old(self).spec_byte_capacity()
                >= final(self)@.len() {
                old(self).spec_byte_capacity()
            } else {
                final(self)@.len()
            },
    {
        let mut tail = vstd::slice::slice_to_vec(s.as_bytes());
        self.data.append(&mut tail);
        if self.capacity < self.data.len() {
            self.capacity = self.data.len();
        }
    }

    /// Gives the backing store away to the exact length of the contents.
    pub fn shrink_to_fit(&mut self)
        ensures
            final(self)@ == old(self)@,
            final(self).spec_byte_capacity() == old(self)@.len(),
    {
        self.capacity = self.data.len();
    }

    /// The bytes currently held.
    pub fn as_slice(&self) -> (r: &[u8])
        ensures
            r@ == self@,
    {
        self.data.as_slice()
    }
}

impl Poolable for ByteString {
    open spec fn spec_len(&self) -> nat {
        self@.len()
    }

    closed spec fn spec_byte_capacity(&self) -> nat {
        self.capacity as nat
    }

    open spec fn spec_elem_size() -> nat {
        1
    }

    fn elem_size() -> (n: usize) {
        1
    }

    fn get_buffer(self) -> (buf: Buffer) {
        Buffer::from_byte_count(self.capacity)
    }

    fn empty() -> (r: Self) {
        ByteString { data: Vec::new(), capacity: 0 }
    }

    fn from_buffer(buf: Buffer) -> (r: Self) {
        ByteString { data: Vec::new(), capacity: buf.into_byte_count() }
    }

    fn clear(&mut self) {
        self.data.clear();
    }
}

/// A growable typed array: the element-level container built into the crate.
///
/// The backing store is measured in bytes, which is what lets a store donated
/// by a byte string back an array afterwards. The array can use
/// `floor(bytes / element size)` whole elements of it.
pub struct Array<T> {
    data: Vec<T>,
    capacity_bytes: usize,
}

impl<T> View for Array<T> {
    type V = Seq<T>;

    closed spec fn view(&self) -> Seq<T> {
        self.data@
    }
}

impl<T> Array<T> {
    /// Number of elements currently held.
    pub fn len(&self) -> (n: usize)
        ensures
            n == self@.len(),
    {
        self.data.len()
    }

    /// Capacity of the backing store, in whole elements.
    pub fn capacity(&self) -> (n: usize)
        ensures
            n == elems_of_bytes(self.spec_byte_capacity(), Self::spec_elem_size()),
    {
        let size = core::mem::size_of::<T>();
        if size == 0 {
            0
        } else {
            self.capacity_bytes / size
        }
    }

    /// Appends one element, growing the store when it does not fit.
    pub fn push(&mut self, value: T)
        requires
            (old(self)@.len() + 1) * Self::spec_elem_size() <= usize::MAX,
        ensures
            final(self)@ == old(self)@.push(value),
            final(self).spec_byte_capacity() == if old(self).spec_byte_capacity() >= (old(
                self,
            )@.len() + 1) * Self::spec_elem_size() {
                old(self).spec_byte_capacity()
            } else {
                (old(self)@.len() + 1) * Self::spec_elem_size()
            },
    {
        self.data.push(value);
        let needed = self.data.len() * core::mem::size_of::<T>();
        if self.capacity_bytes < needed {
            self.capacity_bytes = needed;
        }
    }

    /// The elements currently held.
    pub fn as_slice(&self) -> (r: &[T])
        ensures
            r@ == self@,
    {
        self.data.as_slice()
    }
}

impl<T> Poolable for Array<T> {
    open spec fn spec_len(&self) -> nat {
        self@.len()
    }

    closed spec fn spec_byte_capacity(&self) -> nat {
        self.capacity_bytes as nat
    }

    open spec fn spec_elem_size() -> nat {
        vstd::layout::size_of::<T>()
    }

    fn elem_size() -> (n: usize) {
        core::mem::size_of::<T>()
    }

    fn get_buffer(self) -> (buf: Buffer) {
        Buffer::from_byte_count(self.capacity_bytes)
    }

    fn empty() -> (r: Self) {
        Array { data: Vec::new(), capacity_bytes: 0 }
    }

    fn from_buffer(buf: Buffer) -> (r: Self) {
        let size = core::mem::size_of::<T>();
        let bytes = buf.into_byte_count();
        let elems = bytes / size;
        proof {
            vstd::arithmetic::div_mod::lemma_fundamental_div_mod(bytes as int, size as int);
            vstd::arithmetic::div_mod::lemma_mod_bound(bytes as int, size as int);
            vstd::arithmetic::mul::lemma_mul_is_commutative(elems as int, size as int);
            assert(elems * size <= bytes);
        }
        let usable = elems * size;
        Array { data: Vec::new(), capacity_bytes: usable }
    }

    fn clear(&mut self) {
        self.data.clear();
    }
}

} // verus!
