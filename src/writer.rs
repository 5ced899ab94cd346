//! Decisions of the resumable writer, which drains a byte stream into the
//! local partial file chunk by chunk.

use vstd::prelude::*;

verus! {

/// Bytes read from the stream at a time (256 KiB).
pub const CHUNK_SIZE: usize = 262144;

/// How the local file is opened for an attempt.
#[derive(Clone, Copy, Debug, PartialEq, Eq)]
pub enum OpenMode {
    /// Keep what is there and write after it.
    Append,
    /// Create the file, or cut it to nothing.
    Truncate,
}

/// Bytes already on disk are kept and extended; otherwise the file starts empty.
pub fn open_mode(existing: u64) -> (r: OpenMode)
    ensures
        r == (if existing > 0 { OpenMode::Append } else { OpenMode::Truncate }),
{
    if existing > 0 {
        OpenMode::Append
    } else {
        OpenMode::Truncate
    }
}

/// Whether, after a chunk of `len` bytes brought the count to `position`,
/// a progress line is due: roughly at each tenth of a known total.
pub open spec fn milestone_spec(position: u64, total: u64, len: u64) -> bool {
    let step: u64 = if total / 10 >= 1 { total / 10 } else { 1 };
    total > 0 && position % step < len
}

/// The running position of a transfer in its object.
#[derive(Clone, Copy, Debug, PartialEq, Eq)]
pub struct WriteProgress {
    /// Bytes of the object that the local file holds.
    pub position: u64,
    /// Length of the object (0 = unknown).
    pub total: u64,
}

impl WriteProgress {
    /// Progress at the start of an attempt, seeded with the bytes already on disk.
    pub fn new(existing: u64, total: u64) -> (r: WriteProgress)
        ensures
            r.position == existing,
            r.total == total,
    {
        WriteProgress { position: existing, total }
    }

    /// Counts a chunk of `len` bytes that was written; the position stops
    /// at the largest 64-bit value. Returns whether a progress line is due.
    pub fn record_chunk(&mut self, len: u64) -> (due: bool)
        ensures
            final(self).total == old(self).total,
            final(self).position == (if old(self).position as int + len as int <= u64::MAX {
                (old(self).position + len) as u64
            } else {
                u64::MAX
            }),
            due == milestone_spec(final(self).position, final(self).total, len),
    {
        self.position = self.position.saturating_add(len);
        let step: u64 = if self.total / 10 >= 1 { self.total / 10 } else { 1 };
        self.total > 0 && self.position % step < len
    }
}

} // verus!
