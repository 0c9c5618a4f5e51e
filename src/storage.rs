//! The storage engine: a fixed-length byte buffer with a cursor.
use vstd::prelude::*;

verus! {

/// Where a seek is measured from, as in a stream.
pub enum SeekFrom {
    Start(u64),
    End(i64),
    Current(i64),
}

/// Why a seek was refused.
#[derive(Debug, PartialEq, Eq, Structural)]
pub enum SeekError {
    /// The resolved position is negative or does not fit in a `u64`.
    OutOfRange,
}

/// The text a fresh buffer starts with.
pub open spec fn seed() -> Seq<u8> {
    // "MACHINA TEMPORIS" in ASCII
    seq![
        77, 65, 67, 72, 73, 78, 65, 32,
        84, 69, 77, 80, 79, 82, 73, 83,
    ]
}

/// How many bytes a read or write of `n` bytes moves at `cursor` in a buffer
/// of `len` bytes: none at or past the end, else as many as both sides hold.
pub open spec fn span(len: int, cursor: int, n: int) -> int {
    if cursor >= len {
        0
    } else if len - cursor < n {
        len - cursor
    } else {
        n
    }
}

/// The absolute position that `from` names, for a buffer of `len` bytes
/// whose cursor stands at `cursor`.
pub open spec fn resolve(from: SeekFrom, len: int, cursor: int) -> int {
    match from {
        SeekFrom::Start(o) => o as int,
        SeekFrom::End(o) => len + o,
        SeekFrom::Current(o) => cursor + o,
    }
}

/// A fixed-length byte buffer and the position that reads and writes start at.
pub struct Storage {
    bytes: Vec<u8>,
    pos: u64,
}

impl Storage {
    /// The bytes the buffer holds.
    pub closed spec fn contents(&self) -> Seq<u8> {
        self.bytes@
    }

    /// Where the next read or write starts.
    pub closed spec fn cursor(&self) -> int {
        self.pos as int
    }

    /// A buffer holding the seed text, with the cursor at the start.
    pub fn new() -> (s: Self)
        ensures
            s.contents() == seed(),
            s.cursor() == 0,
    {
        let bytes: Vec<u8> = vec![
            77, 65, 67, 72, 73, 78, 65, 32,
            84, 69, 77, 80, 79, 82, 73, 83,
        ];
        assert(bytes@ =~= seed());
        Storage { bytes, pos: 0 }
    }

    /// The number of bytes the buffer holds.
    pub fn len(&self) -> (r: usize)
        ensures
            r == self.contents().len(),
    {
        self.bytes.len()
    }

    /// Moves the cursor to the position that `from` names. A position before
    /// the start, or past what a `u64` holds, is refused and leaves the
    /// cursor where it was.
    pub fn seek(&mut self, from: SeekFrom) -> (r: Result<u64, SeekError>)
        ensures
            final(self).contents() == old(self).contents(),
            ({
                let p = resolve(from, old(self).contents().len() as int, old(self).cursor());
                match r {
                    Ok(n) => 0 <= p <= u64::MAX && n == p && final(self).cursor() == p,
                    Err(_) => !(0 <= p <= u64::MAX) && final(self).cursor() == old(self).cursor(),
                }
            }),
    {
        let target: i128 = match from {
            SeekFrom::Start(o) => o as i128,
            SeekFrom::End(o) => self.bytes.len() as i128 + o as i128,
            SeekFrom::Current(o) => self.pos as i128 + o as i128,
        };
        if target < 0 || target > u64::MAX as i128 {
            return Err(SeekError::OutOfRange);
        }
        self.pos = target as u64;
        Ok(self.pos)
    }

    /// Copies bytes from the cursor into `buf`, as many as both hold, and
    /// advances the cursor past them. At or past the end nothing is copied.
    pub fn read(&mut self, buf: &mut [u8]) -> (r: usize)
        ensures
            r == span(old(self).contents().len() as int, old(self).cursor(), old(buf)@.len() as int),
            final(buf)@.len() == old(buf)@.len(),
            forall|i: int|
                0 <= i < old(buf)@.len() ==> #[trigger] final(buf)@[i] == if i < r {
                    old(self).contents()[old(self).cursor() + i]
                } else {
                    old(buf)@[i]
                },
            final(self).contents() == old(self).contents(),
            final(self).cursor() == old(self).cursor() + r,
    {
        let len = self.bytes.len();
        if self.pos >= len as u64 {
            return 0;
        }
        let start = self.pos as usize;
        let n: usize = if len - start < buf.len() { len - start } else { buf.len() };
        let ghost orig = buf@;
        let mut i: usize = 0;
        while i < n
            invariant
                start + n <= len == self.bytes@.len(),
                n <= buf@.len() == orig.len(),
                i <= n,
                forall|k: int| 0 <= k < orig.len() ==> #[trigger] buf@[k] == if k < i {
                    self.bytes@[start + k]
                } else {
                    orig[k]
                },
            decreases n - i,
        {
            buf[i] = self.bytes[start + i];
            i = i + 1;
        }
        self.pos = (start + n) as u64;
        n
    }

    /// Copies bytes from `buf` into the buffer at the cursor, as many as fit
    /// before the end, and advances the cursor past them. The rest of `buf`
    /// is dropped; at or past the end nothing is written.
    pub fn write(&mut self, buf: &[u8]) -> (r: usize)
        ensures
            r == span(old(self).contents().len() as int, old(self).cursor(), buf@.len() as int),
            final(self).contents().len() == old(self).contents().len(),
            forall|i: int|
                0 <= i < old(self).contents().len() ==> #[trigger] final(self).contents()[i] == if old(
                    self,
                ).cursor() <= i < old(self).cursor() + r {
                    buf@[i - old(self).cursor()]
                } else {
                    old(self).contents()[i]
                },
            final(self).cursor() == old(self).cursor() + r,
    {
        let len = self.bytes.len();
        if self.pos >= len as u64 {
            return 0;
        }
        let start = self.pos as usize;
        let n: usize = if len - start < buf.len() { len - start } else { buf.len() };
        let ghost orig = self.bytes@;
        let mut i: usize = 0;
        while i < n
            invariant
                start + n <= len == orig.len() == self.bytes@.len(),
                n <= buf@.len(),
                i <= n,
                self.pos == start,
                forall|k: int| 0 <= k < orig.len() ==> #[trigger] self.bytes@[k] == if start <= k < start + i {
                    buf@[k - start]
                } else {
                    orig[k]
                },
            decreases n - i,
        {
            self.bytes.set(start + i, buf[i]);
            i = i + 1;
        }
        self.pos = (start + n) as u64;
        n
    }

    /// A copy of the bytes the buffer holds, for display.
    pub fn render(&self) -> (r: Vec<u8>)
        ensures
            r@ == self.contents(),
    {
        self.bytes.clone()
    }
}

} // verus!
