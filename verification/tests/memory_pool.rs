use memory_pool::{acquire, borrow, release, Array, ByteString, MemoryPool};

#[test]
fn borrow_string() {
    let mut pool = MemoryPool::new();
    memory_pool::borrow(&mut pool, |aux: &mut ByteString| {
        // We should get a clean buffer at first.
        assert_eq!(aux.len(), 0);
        assert_eq!(aux.capacity(), 0);
        aux.push_str("Hello World!");
        assert_eq!(aux.len(), 12);
        assert!(aux.capacity() >= 12);
        assert_eq!(aux.as_slice(), "Hello World!".as_bytes());
    });

    memory_pool::borrow(&mut pool, |aux: &mut ByteString| {
        // We should get the same buffer we got previously.
        assert_eq!(aux.len(), 0);
        assert!(aux.capacity() >= 12);
    });
}

#[test]
fn acquire_and_release_string() {
    let mut pool = MemoryPool::new();
    let mut string: ByteString = memory_pool::acquire(&mut pool);
    assert_eq!(string.len(), 0);
    assert_eq!(string.capacity(), 0);
    string.push_str("I like cupcakes!");
    memory_pool::release(&mut pool, string);

    let string: ByteString = memory_pool::acquire(&mut pool);
    assert_eq!(string.len(), 0);
    assert!(string.capacity() >= 16);
}

#[test]
fn borrow_string_and_vector() {
    let mut pool = MemoryPool::new();
    memory_pool::borrow(&mut pool, |aux: &mut ByteString| {
        aux.push_str("Do you like cupcakes?");
        aux.shrink_to_fit();
        assert_eq!(aux.capacity(), 21);
    });
    memory_pool::borrow(&mut pool, |vec: &mut Array<u32>| {
        assert_eq!(vec.capacity(), 21 / 4);
    });
}

#[test]
fn acquire_from_empty_pool_is_empty() {
    let mut pool = MemoryPool::new();
    let s: ByteString = acquire(&mut pool);
    assert_eq!(s.len(), 0);
    assert_eq!(s.capacity(), 0);
    let a: Array<u64> = acquire(&mut pool);
    assert_eq!(a.len(), 0);
    assert_eq!(a.capacity(), 0);
}

#[test]
fn release_then_acquire_keeps_capacity() {
    let mut pool = MemoryPool::new();
    let mut s: ByteString = acquire(&mut pool);
    s.push_str("seventeen bytes!!");
    assert_eq!(s.capacity(), 17);
    release(&mut pool, s);

    let back: ByteString = acquire(&mut pool);
    assert_eq!(back.len(), 0);
    assert!(back.capacity() >= 17);
}

#[test]
fn releasing_zero_capacity_grows_nothing() {
    let mut pool = MemoryPool::new();
    for _ in 0..4 {
        let empty: ByteString = acquire(&mut pool);
        assert_eq!(empty.capacity(), 0);
        release(&mut pool, empty);
    }
    // Nothing was ever donated with capacity, so nothing is ever reused.
    let s: ByteString = acquire(&mut pool);
    assert_eq!(s.capacity(), 0);
}

#[test]
fn borrow_returns_callback_result() {
    let mut pool = MemoryPool::new();
    let n = borrow(&mut pool, |aux: &mut ByteString| {
        aux.push_str("abc");
        aux.len() * 10
    });
    assert_eq!(n, 30);
}

#[test]
fn pools_are_independent() {
    let mut pool_a = MemoryPool::new();
    let mut pool_b = MemoryPool::new();
    let mut s: ByteString = acquire(&mut pool_a);
    s.push_str("Hello World!");
    release(&mut pool_a, s);

    // A store donated to one pool is never observed through another.
    let from_b: ByteString = acquire(&mut pool_b);
    assert_eq!(from_b.capacity(), 0);
    let from_a: ByteString = acquire(&mut pool_a);
    assert_eq!(from_a.capacity(), 12);
}

#[test]
fn cross_type_reuse_is_byte_preserving() {
    let mut pool = MemoryPool::new();
    let mut s: ByteString = acquire(&mut pool);
    s.push_str("Do you like cupcakes?");
    assert_eq!(s.capacity(), 21);
    release(&mut pool, s);

    let a: Array<u32> = acquire(&mut pool);
    assert_eq!(a.capacity(), 21 / 4);
    assert_eq!(a.capacity(), 5);
}

#[test]
fn reuse_truncates_to_whole_elements() {
    let mut pool = MemoryPool::new();
    let mut s: ByteString = acquire(&mut pool);
    s.push_str("Do you like cupcakes?");
    release(&mut pool, s);

    // 21 bytes give 5 whole 4-byte elements; the odd byte is lost.
    let a: Array<u32> = acquire(&mut pool);
    release(&mut pool, a);
    let back: ByteString = acquire(&mut pool);
    assert_eq!(back.capacity(), 20);
}

#[test]
fn free_list_is_last_in_first_out() {
    let mut pool = MemoryPool::new();
    let mut first: ByteString = acquire(&mut pool);
    first.push_str("12345678");
    let mut second: ByteString = acquire(&mut pool);
    second.push_str("0123456789abcdef");
    release(&mut pool, first);
    release(&mut pool, second);

    // The sixteen-byte store was donated last, so it comes back first.
    let top: ByteString = acquire(&mut pool);
    assert_eq!(top.capacity(), 16);
    let next: ByteString = acquire(&mut pool);
    assert_eq!(next.capacity(), 8);
    let last: ByteString = acquire(&mut pool);
    assert_eq!(last.capacity(), 0);
}

#[test]
fn released_contents_are_dropped() {
    let mut pool = MemoryPool::new();
    let mut a: Array<u32> = acquire(&mut pool);
    a.push(1);
    a.push(2);
    a.push(3);
    assert_eq!(a.as_slice(), &[1, 2, 3]);
    assert_eq!(a.len(), 3);
    release(&mut pool, a);

    let back: Array<u32> = acquire(&mut pool);
    assert_eq!(back.len(), 0);
    assert_eq!(back.capacity(), 3);
}

#[test]
fn shrink_to_fit_is_exact() {
    let mut pool = MemoryPool::new();
    let mut s: ByteString = acquire(&mut pool);
    s.push_str("Hello World!");
    release(&mut pool, s);

    // The reused store is larger than the three bytes actually held.
    let mut t: ByteString = acquire(&mut pool);
    t.push_str("abc");
    assert_eq!(t.capacity(), 12);
    t.shrink_to_fit();
    assert_eq!(t.capacity(), 3);
    assert_eq!(t.as_slice(), "abc".as_bytes());
}

#[test]
fn borrowed_store_is_out_of_the_pool() {
    let mut pool = MemoryPool::new();
    let mut s: ByteString = acquire(&mut pool);
    s.push_str("Hello World!");
    release(&mut pool, s);

    // While a borrow holds the only donated store, the free list is empty
    // again; the store returns once the callback is done.
    borrow(&mut pool, |outer: &mut ByteString| {
        assert_eq!(outer.capacity(), 12);
    });
    let back: ByteString = acquire(&mut pool);
    assert_eq!(back.capacity(), 12);
}
