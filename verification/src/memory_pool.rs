use vstd::prelude::*;

use crate::buffer::Buffer;
use crate::poolable::{elems_of_bytes, usable_bytes, Poolable};

verus! {

/// Byte capacity a container of element size `elem_size` receives from a pool
/// whose free list is `fl`: the most recently donated store, truncated to
/// whole elements, or nothing when the free list is empty.
pub open spec fn acquired_bytes(fl: Seq<nat>, elem_size: nat) -> nat {
    if fl.len() == 0 {
        0
    } else {
        usable_bytes(fl.last(), elem_size)
    }
}

/// The free list after its most recently donated store is handed out.
pub open spec fn after_acquire(fl: Seq<nat>) -> Seq<nat> {
    if fl.len() == 0 {
        fl
    } else {
        fl.drop_last()
    }
}

/// The free list after a store of `bytes` bytes is donated: a store of zero
/// capacity has nothing to reuse and is discarded, anything else is pushed.
pub open spec fn after_release(fl: Seq<nat>, bytes: nat) -> Seq<nat> {
    if bytes == 0 {
        fl
    } else {
        fl.push(bytes)
    }
}

/// A pool of reusable backing stores, kept as a free list of buffer
/// descriptors in last-in, first-out order: the most recently donated store
/// is handed out first.
///
/// A pool is an ordinary value: give each thread of control its own and they
/// can never observe one another's stores.
pub struct MemoryPool {
    buffers: Vec<Buffer>,
}

impl MemoryPool {
    /// The byte capacities on the free list, most recently donated last.
    pub closed spec fn free_list(&self) -> Seq<nat> {
        Seq::new(self.buffers@.len(), |i: int| self.buffers@[i].bytes())
    }

    /// Every descriptor on the free list stands for a non-empty store: a
    /// zero-capacity store is never kept.
    pub open spec fn wf(&self) -> bool {
        forall|i: int| 0 <= i < self.free_list().len() ==> self.free_list()[i] > 0
    }

    /// An empty pool: its free list holds nothing.
    pub fn new() -> (pool: MemoryPool)
        ensures
            pool.free_list() == Seq::<nat>::empty(),
            pool.wf(),
    {
        let pool = MemoryPool { buffers: Vec::new() };
        proof {
            assert(pool.free_list() =~= Seq::<nat>::empty());
        }
        pool
    }

    /// Pops the most recently donated store, if any, and rebuilds a `T` over
    /// it; an empty free list yields the canonical empty `T`.
    ///
    /// No type tag is kept with a descriptor: whatever container type donated
    /// the store, `T` reuses its byte capacity, expressed in `T`'s own
    /// element units.
    pub fn acquire<T: Poolable>(&mut self) -> (r: T)
        requires
            T::spec_elem_size() > 0,
        ensures
            r.spec_len() == 0,
            r.spec_byte_capacity() == acquired_bytes(
                old(self).free_list(),
                T::spec_elem_size(),
            ),
            final(self).free_list() == after_acquire(old(self).free_list()),
            old(self).free_list().len() == 0 ==> r.spec_byte_capacity() == 0,
            old(self).wf() ==> final(self).wf(),
    {
        let popped = self.buffers.pop();
        proof {
            if old(self).buffers@.len() > 0 {
                assert(self.free_list() =~= old(self).free_list().drop_last());
            } else {
                assert(self.free_list() =~= old(self).free_list());
            }
        }
        match popped {
            None => T::empty(),
            Some(buf) => T::from_buffer(buf),
        }
    }

    /// Takes `value` apart: its live elements are dropped and its backing
    /// store is donated to the free list, unless the store is empty, in which
    /// case there is nothing to reuse and the free list stays as it was.
    pub fn release<T: Poolable>(&mut self, value: T)
        ensures
            final(self).free_list() == after_release(
                old(self).free_list(),
                value.spec_byte_capacity(),
            ),
            value.spec_byte_capacity() == 0 ==> final(self).free_list() == old(
                self,
            ).free_list(),
            old(self).wf() ==> final(self).wf(),
    {
        let mut value = value;
        value.clear();
        let buf = value.get_buffer();
        if buf.byte_count() != 0 {
            let ghost previous = self.free_list();
            self.buffers.push(buf);
            proof {
                assert(self.free_list() =~= previous.push(buf.bytes()));
            }
        }
    }

    /// Acquires a `T`, hands it to the callback by mutable reference, donates
    /// it back once the callback returns, and yields the callback's result.
    ///
    /// While the callback runs, the acquired store is out of the pool: a
    /// callback that works this same pool simply sees the shorter free list.
    pub fn borrow<T: Poolable, F: FnOnce(&mut T) -> R, R>(&mut self, callback: F) -> (r: R)
        requires
            T::spec_elem_size() > 0,
            forall|t: &mut T|
                (*t).spec_len() == 0 && (*t).spec_byte_capacity() == acquired_bytes(
                    old(self).free_list(),
                    T::spec_elem_size(),
                ) ==> call_requires(callback, (t,)),
        ensures
            exists|t: &mut T|
                {
                    &&& (*t).spec_len() == 0
                    &&& (*t).spec_byte_capacity() == acquired_bytes(
                        old(self).free_list(),
                        T::spec_elem_size(),
                    )
                    &&& #[trigger] call_ensures(callback, (t,), r)
                    &&& final(self).free_list() == after_release(
                        after_acquire(old(self).free_list()),
                        (*final(t)).spec_byte_capacity(),
                    )
                },
            old(self).wf() ==> final(self).wf(),
    {
        let mut value: T = self.acquire();
        let result = callback(&mut value);
        self.release(value);
        result
    }
}

/// Takes a container of type `T` from the pool: the most recently donated
/// store rebuilt as a logically empty `T`, or the canonical empty `T` when
/// the free list is empty.
pub fn acquire<T: Poolable>(pool: &mut MemoryPool) -> (r: T)
    requires
        T::spec_elem_size() > 0,
    ensures
        r.spec_len() == 0,
        r.spec_byte_capacity() == acquired_bytes(old(pool).free_list(), T::spec_elem_size()),
        final(pool).free_list() == after_acquire(old(pool).free_list()),
        old(pool).free_list().len() == 0 ==> r.spec_byte_capacity() == 0,
        old(pool).wf() ==> final(pool).wf(),
{
    pool.acquire()
}

/// Takes `value` apart and donates its backing store to the pool. The value
/// must not be used afterwards; the type system enforces that by consuming
/// it.
pub fn release<T: Poolable>(pool: &mut MemoryPool, value: T)
    ensures
        final(pool).free_list() == after_release(
            old(pool).free_list(),
            value.spec_byte_capacity(),
        ),
        value.spec_byte_capacity() == 0 ==> final(pool).free_list() == old(pool).free_list(),
        old(pool).wf() ==> final(pool).wf(),
{
    pool.release(value)
}

/// Builds a temporary `T` over the pool's most recently donated store, hands
/// it to the callback, and donates it back afterwards, yielding exactly the
/// callback's result.
pub fn borrow<T: Poolable, F: FnOnce(&mut T) -> R, R>(pool: &mut MemoryPool, callback: F) -> (r: R)
    requires
        T::spec_elem_size() > 0,
        forall|t: &mut T|
            (*t).spec_len() == 0 && (*t).spec_byte_capacity() == acquired_bytes(
                old(pool).free_list(),
                T::spec_elem_size(),
            ) ==> call_requires(callback, (t,)),
    ensures
        exists|t: &mut T|
            {
                &&& (*t).spec_len() == 0
                &&& (*t).spec_byte_capacity() == acquired_bytes(
                    old(pool).free_list(),
                    T::spec_elem_size(),
                )
                &&& #[trigger] call_ensures(callback, (t,), r)
                &&& final(pool).free_list() == after_release(
                    after_acquire(old(pool).free_list()),
                    (*final(t)).spec_byte_capacity(),
                )
            },
        old(pool).wf() ==> final(pool).wf(),
{
    pool.borrow(callback)
}

/// Law: a store donated with byte capacity `cap` and re-acquired right away
/// at element size `elem_size` is the one handed back, with the free list
/// restored. The rebuilt container keeps at most `cap` bytes of it, loses
/// less than one element's worth, and keeps exactly `cap` whenever
/// `elem_size` divides `cap`.
pub proof fn lemma_release_then_acquire(fl: Seq<nat>, cap: nat, elem_size: nat)
    requires
        elem_size > 0,
        cap > 0,
    ensures
        acquired_bytes(after_release(fl, cap), elem_size) == usable_bytes(cap, elem_size),
        after_acquire(after_release(fl, cap)) == fl,
        usable_bytes(cap, elem_size) <= cap,
        usable_bytes(cap, elem_size) + elem_size > cap,
        cap % elem_size == 0 ==> usable_bytes(cap, elem_size) == cap,
{
    assert(fl.push(cap).drop_last() =~= fl);
    vstd::arithmetic::div_mod::lemma_fundamental_div_mod(cap as int, elem_size as int);
    vstd::arithmetic::div_mod::lemma_mod_bound(cap as int, elem_size as int);
    vstd::arithmetic::mul::lemma_mul_is_commutative((cap / elem_size) as int, elem_size as int);
}

/// Law: cross-type reuse preserves capacity at the byte level. A store of
/// `cap` bytes donated to the pool and re-acquired at element size
/// `elem_size` yields exactly `cap / elem_size` whole elements.
pub proof fn lemma_cross_type_reuse(fl: Seq<nat>, cap: nat, elem_size: nat)
    requires
        elem_size > 0,
        cap > 0,
    ensures
        elems_of_bytes(acquired_bytes(after_release(fl, cap), elem_size), elem_size) == cap
            / elem_size,
{
    vstd::arithmetic::div_mod::lemma_div_by_multiple((cap / elem_size) as int, elem_size as int);
}

} // verus!
