//! A shareable handle to one storage engine. Every call takes the lock for
//! its own duration only, so two calls from one caller may interleave with
//! calls from others.
//!
//! The lock is vstd's verified reader-writer lock, always taken exclusively.
//! It has no poisoned state: nothing that holds it can fail partway.
use vstd::prelude::*;
use vstd::rwlock::{RwLock, RwLockPredicate};
use std::sync::Arc;
use crate::storage::{seed, span, SeekFrom, Storage};

verus! {

/// What every value in the lock satisfies: the buffer keeps the length it
/// was created with.
pub struct FixedLength {
    pub len: nat,
}

impl RwLockPredicate<Storage> for FixedLength {
    open spec fn inv(self, s: Storage) -> bool {
        s.contents().len() == self.len
    }
}

/// A handle to one storage engine, shared by every clone of it.
pub struct SharedStorage {
    inner: Arc<RwLock<Storage, FixedLength>>,
}

impl SharedStorage {
    /// The length of the shared buffer, fixed for the handle's lifetime.
    pub closed spec fn length(&self) -> nat {
        self.inner.pred().len
    }

    /// A new buffer holding the seed text.
    pub fn new() -> (s: Self)
        ensures
            s.length() == seed().len(),
    {
        let storage = Storage::new();
        let lock = RwLock::new(storage, Ghost(FixedLength { len: seed().len() }));
        SharedStorage { inner: Arc::new(lock) }
    }

    /// The number of bytes the buffer holds.
    pub fn len(&self) -> (r: usize)
        ensures
            r == self.length(),
    {
        let (storage, handle) = self.inner.acquire_write();
        let n = storage.len();
        handle.release_write(storage);
        n
    }

    /// Reads into `buf` from offset `index`, as many bytes as both hold.
    /// At or past the end nothing is read and `buf` is left as it was.
    pub fn read(&self, index: usize, buf: &mut [u8]) -> (r: usize)
        ensures
            r == span(self.length() as int, index as int, old(buf)@.len() as int),
            final(buf)@.len() == old(buf)@.len(),
            forall|i: int| r <= i < old(buf)@.len() ==> #[trigger] final(buf)@[i] == old(buf)@[i],
    {
        let (mut storage, handle) = self.inner.acquire_write();
        let _ = storage.seek(SeekFrom::Start(index as u64));
        let n = storage.read(buf);
        handle.release_write(storage);
        n
    }

    /// Writes `buf` at offset `index`, as many bytes as fit before the end;
    /// the rest is dropped. At or past the end nothing is written.
    pub fn write(&self, index: usize, buf: &[u8]) -> (r: usize)
        ensures
            r == span(self.length() as int, index as int, buf@.len() as int),
    {
        let (mut storage, handle) = self.inner.acquire_write();
        let _ = storage.seek(SeekFrom::Start(index as u64));
        let n = storage.write(buf);
        handle.release_write(storage);
        n
    }

    /// A copy of the buffer's bytes as they stand while the lock is held.
    pub fn render(&self) -> (r: Vec<u8>)
        ensures
            r@.len() == self.length(),
    {
        let (storage, handle) = self.inner.acquire_write();
        let bytes = storage.render();
        handle.release_write(storage);
        bytes
    }
}

impl Clone for SharedStorage {
    /// A second handle to the same buffer; no bytes are copied.
    fn clone(&self) -> (r: Self)
        ensures
            r.length() == self.length(),
    {
        SharedStorage { inner: Arc::clone(&self.inner) }
    }
}

} // verus!
