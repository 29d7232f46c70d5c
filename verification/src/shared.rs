//! The shared handle to the store: one lock around the whole mapping.
//!
//! Request handlers run concurrently, so every `set` and `get` on the
//! process-wide cache goes through a verified reader-writer lock. Each
//! operation takes the lock, acts on the snapshot it guards, and releases
//! it: no handler can observe a partially applied write, and the last
//! writer to take the lock wins a race on a key.

use vstd::prelude::*;
use vstd::rwlock::{RwLock, RwLockPredicate};

use crate::address::key_of;
use crate::cache::{Cache, MemoryCache};
use crate::content::{PasteContent, HASHLEN};

verus! {

/// What every cache state behind the lock satisfies: the store invariant.
pub struct CachePred {}

impl RwLockPredicate<MemoryCache> for CachePred {
    open spec fn inv(self, c: MemoryCache) -> bool {
        c.valid()
    }
}

/// The process-wide store: a [`MemoryCache`] behind a single lock,
/// created once at startup and shared by reference with every request
/// handler for the life of the process.
pub struct SharedCache {
    lock: RwLock<MemoryCache, CachePred>,
}

impl SharedCache {
    /// A fresh shared store with an empty mapping.
    pub fn new() -> SharedCache {
        SharedCache { lock: RwLock::new(MemoryCache::new(), Ghost(CachePred {})) }
    }

    /// Store a content value under its content key and return the key.
    ///
    /// Always succeeds for a well-formed content value; the returned key
    /// is the content key of `content` and of nothing else. The write is
    /// serialized against all other operations by the lock.
    pub fn store(&self, content: PasteContent) -> (key: String)
        ensures
            key@ == key_of(content@),
            key@.len() == HASHLEN as nat,
    {
        let (mut cache, handle) = self.lock.acquire_write();
        let key = cache.set(content);
        handle.release_write(cache);
        key
    }

    /// Look a client-supplied key up and return a copy of the stored
    /// content, or the not-found signal.
    ///
    /// Which contents are present depends on the writes the lock has
    /// serialized before this read; what is promised of every outcome is
    /// that a returned value is one whose own content key is exactly the
    /// key looked up.
    pub fn retrieve(&self, key: String) -> (r: Option<PasteContent>)
        ensures
            r matches Some(c) ==> key@ == key_of(c@),
    {
        let handle = self.lock.acquire_read();
        let cache = handle.borrow();
        let found = cache.get(key);
        let result = match found {
            Some(c) => {
                proof {
                    cache.lemma_contents_addressed(key@);
                }
                Some(c.clone())
            },
            None => None,
        };
        handle.release_read();
        result
    }
}

/// A fresh shared store, ready to be handed to the transport adapter.
pub fn memory_cache() -> SharedCache {
    SharedCache::new()
}

} // verus!
