//! Chunked-upload bookkeeping. The uploader streams a local archive to a
//! remote path in fixed-size chunks; each chunk write is retried
//! independently up to a fixed bound, and exceeding the bound aborts the
//! whole upload phase for the target. The transfer itself is network I/O
//! performed by the surrounding program, which asks this state machine what
//! to do next and feeds back how each chunk write went.

use vstd::prelude::*;
use crate::constants::{CHUNK_UPLOAD_BUFFER, CHUNK_UPLOAD_RETRIES};

verus! {

pub open spec fn spec_min(a: int, b: int) -> int {
    if a < b {
        a
    } else {
        b
    }
}

/// How many chunks a file of `total` bytes takes at `chunk` bytes each.
pub open spec fn num_chunks(total: int, chunk: int) -> int {
    (total + chunk - 1) / chunk
}

/// How one chunk write went: reported by the caller after each attempt.
#[derive(Clone, Copy, PartialEq, Eq, Structural, Debug)]
pub enum ChunkEvent {
    WriteOk,
    WriteFailed,
}

/// What the uploader asks the caller to do next.
#[derive(Clone, Copy, PartialEq, Eq, Structural, Debug)]
pub enum UploadAction {
    /// Write the chunk of `len` bytes starting at `offset`.
    WriteChunk { offset: u64, len: u64 },
    /// Every byte is written: the upload is complete.
    Finished,
    /// A chunk exhausted its retries: restart the whole upload phase,
    /// re-creating (truncating) the remote file, so the upload resumes
    /// from byte zero.
    AbortPhase,
}

/// Streams one archive in fixed-size chunks, retrying each chunk
/// independently up to `retry_bound` times.
pub struct ChunkedUploader {
    pub total_size: u64,
    pub chunk_size: u64,
    pub retry_bound: u32,
    /// Bytes confirmed written so far; never decreases while this attempt
    /// lives.
    pub uploaded: u64,
    /// Transient failures of the chunk currently being written.
    pub chunk_retries: u32,
    /// Set when a chunk failed more than `retry_bound` times.
    pub aborted: bool,
}

impl ChunkedUploader {
    pub open spec fn wf(&self) -> bool {
        &&& self.chunk_size >= 1
        &&& self.uploaded <= self.total_size
        &&& self.retry_bound < u32::MAX
        &&& self.chunk_retries <= self.retry_bound + 1
    }

    /// The next step of the upload: abort once retries are exhausted,
    /// report completion once every byte is written, and otherwise write
    /// the next chunk, whose length is the chunk size capped by what is
    /// left.
    pub open spec fn spec_next_action(&self) -> UploadAction {
        if self.aborted {
            UploadAction::AbortPhase
        } else if self.uploaded == self.total_size {
            UploadAction::Finished
        } else {
            UploadAction::WriteChunk {
                offset: self.uploaded,
                len: spec_min(
                    self.chunk_size as int,
                    self.total_size as int - self.uploaded as int,
                ) as u64,
            }
        }
    }

    /// A fresh uploader with the default chunk size and retry bound.
    pub fn new(total_size: u64) -> (r: ChunkedUploader)
        ensures
            r.wf(),
            r.total_size == total_size,
            r.chunk_size == CHUNK_UPLOAD_BUFFER as u64,
            r.retry_bound == CHUNK_UPLOAD_RETRIES,
            r.uploaded == 0,
            r.chunk_retries == 0,
            !r.aborted,
    {
        ChunkedUploader {
            total_size,
            chunk_size: CHUNK_UPLOAD_BUFFER as u64,
            retry_bound: CHUNK_UPLOAD_RETRIES,
            uploaded: 0,
            chunk_retries: 0,
            aborted: false,
        }
    }

    /// A fresh uploader with caller-chosen chunk size and retry bound.
    pub fn with_config(total_size: u64, chunk_size: u64, retry_bound: u32) -> (r: ChunkedUploader)
        requires
            chunk_size >= 1,
            retry_bound < u32::MAX,
        ensures
            r.wf(),
            r.total_size == total_size,
            r.chunk_size == chunk_size,
            r.retry_bound == retry_bound,
            r.uploaded == 0,
            r.chunk_retries == 0,
            !r.aborted,
    {
        ChunkedUploader {
            total_size,
            chunk_size,
            retry_bound,
            uploaded: 0,
            chunk_retries: 0,
            aborted: false,
        }
    }

    pub fn next_action(&self) -> (a: UploadAction)
        requires
            self.wf(),
        ensures
            a == self.spec_next_action(),
    {
        if self.aborted {
            UploadAction::AbortPhase
        } else if self.uploaded == self.total_size {
            UploadAction::Finished
        } else {
            let remaining = self.total_size - self.uploaded;
            let len = if self.chunk_size < remaining {
                self.chunk_size
            } else {
                remaining
            };
            UploadAction::WriteChunk { offset: self.uploaded, len }
        }
    }

    /// Records how the outstanding chunk write went. A success advances
    /// `uploaded` by the chunk's length and resets the retry count; a
    /// failure leaves progress untouched and, once the chunk has failed
    /// more than `retry_bound` times, aborts the phase. Reported progress
    /// never decreases.
    pub fn apply(&mut self, ev: ChunkEvent)
        requires
            old(self).wf(),
            !old(self).aborted,
            old(self).uploaded < old(self).total_size,
        ensures
            final(self).wf(),
            final(self).total_size == old(self).total_size,
            final(self).chunk_size == old(self).chunk_size,
            final(self).retry_bound == old(self).retry_bound,
            final(self).uploaded >= old(self).uploaded,
            match ev {
                ChunkEvent::WriteOk => {
                    &&& final(self).uploaded as int == spec_min(
                        old(self).total_size as int,
                        old(self).uploaded as int + old(self).chunk_size as int,
                    )
                    &&& final(self).chunk_retries == 0
                    &&& !final(self).aborted
                },
                ChunkEvent::WriteFailed => {
                    &&& final(self).uploaded == old(self).uploaded
                    &&& if old(self).chunk_retries as int + 1 > old(self).retry_bound as int {
                        final(self).aborted
                    } else {
                        &&& !final(self).aborted
                        &&& final(self).chunk_retries == old(self).chunk_retries + 1
                    }
                },
            },
    {
        match ev {
            ChunkEvent::WriteOk => {
                let remaining = self.total_size - self.uploaded;
                let len = if self.chunk_size < remaining {
                    self.chunk_size
                } else {
                    remaining
                };
                self.uploaded = self.uploaded + len;
                self.chunk_retries = 0;
            },
            ChunkEvent::WriteFailed => {
                if self.chunk_retries >= self.retry_bound {
                    self.aborted = true;
                } else {
                    self.chunk_retries = self.chunk_retries + 1;
                }
            },
        }
    }
}

/// Runs one upload to completion under injected chunk failures: when every
/// chunk suffers at most `retry_bound` transient failures, the upload
/// finishes with exactly `total_size` bytes written, and the progress
/// reported after each successful chunk is non-decreasing and ends at
/// `total_size`.
pub fn drive_upload(up: &mut ChunkedUploader, failures_per_chunk: &Vec<u32>) -> (progress: Vec<
    u64,
>)
    requires
        old(up).wf(),
        !old(up).aborted,
        old(up).uploaded == 0,
        old(up).chunk_retries == 0,
        failures_per_chunk@.len() >= num_chunks(
            old(up).total_size as int,
            old(up).chunk_size as int,
        ),
        forall|c: int|
            0 <= c < failures_per_chunk@.len() ==> #[trigger] failures_per_chunk@[c]
                <= old(up).retry_bound,
    ensures
        final(up).wf(),
        !final(up).aborted,
        final(up).uploaded == final(up).total_size,
        final(up).total_size == old(up).total_size,
        progress@.len() == num_chunks(old(up).total_size as int, old(up).chunk_size as int),
        forall|k: int|
            0 <= k < progress@.len() ==> #[trigger] progress@[k] as int == spec_min(
                old(up).total_size as int,
                (k + 1) * old(up).chunk_size as int,
            ),
        forall|k: int| 0 <= k && k + 1 < progress@.len() ==> #[trigger] progress@[k] <= progress@[k
            + 1],
{
    let ghost total = old(up).total_size as int;
    let ghost chunk = old(up).chunk_size as int;
    let mut progress: Vec<u64> = Vec::new();
    let mut chunk_idx: usize = 0;
    let avail = failures_per_chunk.len();
    proof {
        assert(num_chunks(total, chunk) >= 0) by (nonlinear_arith)
            requires
                chunk >= 1,
                total >= 0,
        ;
        assert(total >= 1 ==> num_chunks(total, chunk) >= 1) by (nonlinear_arith)
            requires
                chunk >= 1,
                total >= 0,
                num_chunks(total, chunk) == (total + chunk - 1) / chunk,
        ;
    }
    while up.uploaded < up.total_size
        invariant
            up.wf(),
            !up.aborted,
            up.chunk_retries == 0,
            up.total_size as int == total,
            up.chunk_size as int == chunk,
            up.retry_bound == old(up).retry_bound,
            up.uploaded as int == spec_min(total, chunk_idx as int * chunk),
            failures_per_chunk@.len() >= num_chunks(total, chunk),
            failures_per_chunk@.len() <= usize::MAX,
            forall|c: int|
                0 <= c < failures_per_chunk@.len() ==> #[trigger] failures_per_chunk@[c]
                    <= up.retry_bound,
            progress@.len() == chunk_idx,
            chunk_idx <= num_chunks(total, chunk),
            up.uploaded < up.total_size ==> chunk_idx < num_chunks(total, chunk),
            forall|k: int|
                0 <= k < progress@.len() ==> #[trigger] progress@[k] as int == spec_min(
                    total,
                    (k + 1) * chunk,
                ),
        decreases up.total_size - up.uploaded,
    {
        let injected = failures_per_chunk[chunk_idx];
        let mut k: u32 = 0;
        while k < injected
            invariant
                up.wf(),
                !up.aborted,
                up.uploaded < up.total_size,
                up.chunk_retries == k,
                k <= injected,
                injected <= up.retry_bound,
                up.total_size as int == total,
                up.chunk_size as int == chunk,
                up.retry_bound == old(up).retry_bound,
                up.uploaded as int == spec_min(total, chunk_idx as int * chunk),
            decreases injected - k,
        {
            up.apply(ChunkEvent::WriteFailed);
            k = k + 1;
        }
        up.apply(ChunkEvent::WriteOk);
        progress.push(up.uploaded);
        proof {
            assert(up.uploaded as int == spec_min(total, (chunk_idx as int + 1) * chunk)) by (
            nonlinear_arith)
                requires
                    chunk >= 1,
                    total >= 0,
                    chunk_idx as int * chunk < total,
                    spec_min(total, chunk_idx as int * chunk) == chunk_idx as int * chunk
                        || spec_min(total, chunk_idx as int * chunk) == total,
                    up.uploaded as int == spec_min(
                        total,
                        spec_min(total, chunk_idx as int * chunk) + chunk,
                    ),
            ;
            assert(chunk_idx as int + 1 <= num_chunks(total, chunk)) by (nonlinear_arith)
                requires
                    chunk >= 1,
                    total >= 0,
                    chunk_idx as int * chunk < total,
                    num_chunks(total, chunk) == (total + chunk - 1) / chunk,
            ;
            assert((chunk_idx as int + 1) * chunk < total ==> chunk_idx as int + 1 < num_chunks(
                total,
                chunk,
            )) by (nonlinear_arith)
                requires
                    chunk >= 1,
                    total >= 0,
                    num_chunks(total, chunk) == (total + chunk - 1) / chunk,
            ;
        }
        chunk_idx = chunk_idx + 1;
    }
    proof {
        assert(chunk_idx == num_chunks(total, chunk)) by (nonlinear_arith)
            requires
                chunk >= 1,
                total >= 0,
                spec_min(total, chunk_idx as int * chunk) == total,
                chunk_idx <= num_chunks(total, chunk),
                num_chunks(total, chunk) == (total + chunk - 1) / chunk,
                total < chunk_idx as int * chunk || total == chunk_idx as int * chunk,
        ;
        assert(forall|k: int|
            0 <= k && k + 1 < progress@.len() ==> #[trigger] progress@[k] <= progress@[k + 1]) by {
            assert forall|k: int| 0 <= k && k + 1 < progress@.len() implies #[trigger] progress@[k]
                <= progress@[k + 1] by {
                assert(progress@[k] as int == spec_min(total, (k + 1) * chunk));
                assert(progress@[k + 1] as int == spec_min(total, (k + 2) * chunk));
                assert((k + 1) * chunk <= (k + 2) * chunk) by (nonlinear_arith)
                    requires
                        chunk >= 1,
                        k >= 0,
                ;
            }
        }
    }
    progress
}

} // verus!
