//! A pool of reusable backing stores for growable containers.
//!
//! Allocating and freeing a scratch buffer in a hot path is wasteful when the
//! same storage could simply be handed from one short-lived container to the
//! next. This crate keeps a per-pool free list of buffer descriptors: a
//! container donates its backing store on [`release`], and the next
//! [`acquire`] of any participating container type is rebuilt over the most
//! recently donated store, logically empty but with its byte capacity
//! preserved. [`borrow`] wraps the two steps around a callback.
//!
//! Descriptors are type-erased byte capacities, so a byte string's store can
//! back a typed array afterwards; the array sees `floor(bytes / element
//! size)` whole elements. A pool is an ordinary value passed down explicitly,
//! so two pools never share state.

mod buffer;
mod memory_pool;
mod poolable;

pub use buffer::Buffer;
pub use memory_pool::{acquire, borrow, release, MemoryPool};
pub use memory_pool::{acquired_bytes, after_acquire, after_release};
pub use memory_pool::{lemma_cross_type_reuse, lemma_release_then_acquire};
pub use poolable::{elems_of_bytes, usable_bytes, Array, ByteString, Poolable};
