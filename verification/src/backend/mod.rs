//! Storage backends: listing pagination shared by every backend, the
//! backend registry, and the byte cap on a transfer.

pub mod fs;
pub mod page;
pub mod s3;
pub mod offline;
pub mod root_path;

use vstd::prelude::*;
use crate::error::FerryError;
use crate::model::StorageType;

verus! {

/// Entries a listing returns when the caller names no limit.
pub const DEFAULT_LIST_LIMIT: usize = 1_000;

/// Largest limit a caller may ask for; more is refused.
pub const MAX_LIST_LIMIT: usize = 10_000;

/// Pagination options of a listing. Entries come back in name order.
pub struct ListOptions {
    /// At most this many entries; `None` means `DEFAULT_LIST_LIMIT`.
    pub limit: Option<usize>,
    /// Only entries named strictly after this one.
    pub start_after: Option<String>,
}


/// The enabled backends: the filesystem always, S3 when configured.
pub struct Backends<B> {
    pub fs: B,
    pub s3: Option<B>,
}

impl<B> Backends<B> {
    /// The backend serving `kind`; `BackendNotConfigured(S3)` when S3
    /// is asked for and absent.
    pub fn pick(&self, kind: StorageType) -> (r: Result<&B, FerryError>)
        ensures
            match kind {
                StorageType::Fs => r == Ok::<&B, FerryError>(&self.fs),
                StorageType::S3 => match self.s3 {
                    Some(b) => r == Ok::<&B, FerryError>(&b),
                    None => r matches Err(FerryError::BackendNotConfigured(StorageType::S3)),
                },
            },
    {
        match kind {
            StorageType::Fs => Ok(&self.fs),
            StorageType::S3 => match &self.s3 {
                Some(b) => Ok(b),
                None => Err(FerryError::BackendNotConfigured(StorageType::S3)),
            },
        }
    }
}

/// Caps the total bytes read through a transfer. It counts every read;
/// once the count exceeds the cap, the read that crossed it and every
/// later one fail with `TransferTooLarge`.
pub struct LimitedReader<R> {
    inner: R,
    max: u64,
    total: u64,
}

impl<R> LimitedReader<R> {
    /// The cap, in bytes.
    pub closed spec fn cap(&self) -> u64 {
        self.max
    }

    /// The wrapped reader.
    pub closed spec fn wrapped(&self) -> R {
        self.inner
    }

    /// Bytes read so far.
    pub closed spec fn transferred(&self) -> u64 {
        self.total
    }

    /// Wraps `inner` with a cap of `max` bytes and a count of zero.
    pub fn new(inner: R, max: u64) -> (r: Self)
        ensures
            r.wrapped() == inner,
            r.cap() == max,
            r.transferred() == 0,
    {
        LimitedReader { inner, max, total: 0 }
    }

    /// The cap, in bytes.
    pub fn max(&self) -> (m: u64)
        ensures
            m == self.cap(),
    {
        self.max
    }

    /// The wrapped reader, for the read itself.
    pub fn inner_mut(&mut self) -> (r: &mut R)
        ensures
            *r == old(self).wrapped(),
            final(self).wrapped() == *final(r),
            final(self).cap() == old(self).cap(),
            final(self).transferred() == old(self).transferred(),
    {
        &mut self.inner
    }

    /// Bytes read so far.
    pub fn total(&self) -> (t: u64)
        ensures
            t == self.transferred(),
    {
        self.total
    }

    /// Before a read: refused once the count already exceeds the cap
    /// (a count equal to the cap may still see end-of-stream).
    pub fn admit_read(&self) -> (r: Result<(), FerryError>)
        ensures
            self.transferred() <= self.cap() ==> r is Ok,
            self.transferred() > self.cap() ==> (r matches Err(FerryError::TransferTooLarge { cap }) && cap == self.cap()),
    {
        if self.total > self.max {
            Err(FerryError::TransferTooLarge { cap: self.max })
        } else {
            Ok(())
        }
    }

    /// After a read of `added` bytes: the count grows by `added`, and
    /// the read fails when the new count exceeds the cap.
    pub fn record_read(&mut self, added: u64) -> (r: Result<(), FerryError>)
        requires
            old(self).transferred() + added <= u64::MAX,
        ensures
            final(self).wrapped() == old(self).wrapped(),
            final(self).cap() == old(self).cap(),
            final(self).transferred() == old(self).transferred() + added,
            final(self).transferred() <= final(self).cap() ==> r is Ok,
            final(self).transferred() > final(self).cap() ==> (r matches Err(FerryError::TransferTooLarge { cap }) && cap == final(self).cap()),
    {
        self.total = self.total + added;
        if self.total > self.max {
            Err(FerryError::TransferTooLarge { cap: self.max })
        } else {
            Ok(())
        }
    }

    /// After a read that took the caller's buffer from `filled_before`
    /// to `filled_after` bytes: the read is counted as by `record_read`,
    /// and the buffer keeps what the read added only when the read
    /// passes; a refused read is rolled back to `filled_before`.
    pub fn finish_read(&mut self, filled_before: usize, filled_after: usize) -> (r: (Result<(), FerryError>, usize))
        requires
            filled_before <= filled_after,
            old(self).transferred() + (filled_after - filled_before) <= u64::MAX,
        ensures
            final(self).wrapped() == old(self).wrapped(),
            final(self).cap() == old(self).cap(),
            final(self).transferred() == old(self).transferred() + (filled_after - filled_before),
            final(self).transferred() <= final(self).cap() ==> (r.0 is Ok && r.1 == filled_after),
            final(self).transferred() > final(self).cap() ==> (r.0 matches Err(FerryError::TransferTooLarge { cap }) && cap == final(self).cap() && r.1 == filled_before),
    {
        let added = (filled_after - filled_before) as u64;
        match self.record_read(added) {
            Ok(()) => (Ok(()), filled_after),
            Err(e) => (Err(e), filled_before),
        }
    }
}

/// Sum of a sequence of read sizes.
pub open spec fn bytes_read(reads: Seq<u64>) -> int
    decreases reads.len(),
{
    if reads.len() == 0 { 0 } else { bytes_read(reads.drop_last()) + reads.last() }
}

/// Every read of the sequence stays within `max` when counted from zero.
pub open spec fn every_read_within(max: u64, reads: Seq<u64>) -> bool {
    forall|k: int| 0 < k <= reads.len() ==> #[trigger] bytes_read(reads.take(k)) <= max
}

proof fn lemma_bytes_read_monotone(reads: Seq<u64>, k: int)
    requires
        0 <= k <= reads.len(),
    ensures
        bytes_read(reads.take(k)) <= bytes_read(reads),
    decreases reads.len() - k,
{
    if k < reads.len() {
        lemma_bytes_read_monotone(reads, k + 1);
        assert(reads.take(k + 1).drop_last() =~= reads.take(k));
    } else {
        assert(reads.take(k) =~= reads);
    }
}

/// Law: a transfer passes the cap, read after read, exactly when its
/// total size is within the cap. A cap of zero therefore refuses the
/// first non-empty read.
pub proof fn transfer_within_cap(max: u64, reads: Seq<u64>)
    ensures
        every_read_within(max, reads) <==> bytes_read(reads) <= max,
{
    if bytes_read(reads) <= max {
        assert forall|k: int| 0 < k <= reads.len() implies #[trigger] bytes_read(reads.take(k)) <= max by {
            lemma_bytes_read_monotone(reads, k);
        }
    }
    if every_read_within(max, reads) && reads.len() > 0 {
        assert(reads.take(reads.len() as int) =~= reads);
        assert(bytes_read(reads.take(reads.len() as int)) <= max);
    }
}

/// The count of a reader with cap `max` after `total` bytes, offered a
/// read of `added` bytes: a count already over the cap refuses the read
/// before it starts (`admit_read`) and stays; otherwise the read is
/// counted (`record_read`).
pub open spec fn count_step(max: u64, total: int, added: u64) -> int {
    if total > max { total } else { total + added }
}

/// The count after offering `reads`, in order, to a fresh reader.
pub open spec fn count_after(max: u64, reads: Seq<u64>) -> int
    decreases reads.len(),
{
    if reads.len() == 0 {
        0
    } else {
        count_step(max, count_after(max, reads.drop_last()), reads.last())
    }
}

/// Read `k` of `reads` succeeds: it is admitted, and the count after
/// it is still within the cap.
pub open spec fn read_succeeds(max: u64, reads: Seq<u64>, k: int) -> bool {
    count_after(max, reads.take(k)) <= max && count_after(max, reads.take(k + 1)) <= max
}

/// Bytes handed to the reader's caller by the successful reads among
/// the first `n`.
pub open spec fn delivered(max: u64, reads: Seq<u64>, n: int) -> int
    decreases n,
{
    if n <= 0 {
        0
    } else {
        delivered(max, reads, n - 1) + if read_succeeds(max, reads, n - 1) { reads[n - 1] as int } else { 0 }
    }
}

proof fn lemma_count_tracks_sum(max: u64, reads: Seq<u64>, k: int)
    requires
        0 <= k <= reads.len(),
    ensures
        bytes_read(reads.take(k)) <= max ==> count_after(max, reads.take(k)) == bytes_read(reads.take(k)),
        bytes_read(reads.take(k)) > max ==> count_after(max, reads.take(k)) > max,
    decreases k,
{
    if k == 0 {
        assert(reads.take(0) =~= Seq::<u64>::empty());
    } else {
        lemma_count_tracks_sum(max, reads, k - 1);
        assert(reads.take(k).drop_last() =~= reads.take(k - 1));
        assert(reads.take(k).last() == reads[k - 1]);
    }
}

proof fn lemma_sum_step(reads: Seq<u64>, k: int)
    requires
        0 <= k < reads.len(),
    ensures
        bytes_read(reads.take(k + 1)) == bytes_read(reads.take(k)) + reads[k],
{
    assert(reads.take(k + 1).drop_last() =~= reads.take(k));
}

/// Read `k` succeeds exactly when the reads up to and including it sum
/// to no more than the cap.
proof fn lemma_succeeds_iff_within(max: u64, reads: Seq<u64>, k: int)
    requires
        0 <= k < reads.len(),
    ensures
        read_succeeds(max, reads, k) <==> bytes_read(reads.take(k + 1)) <= max,
{
    lemma_count_tracks_sum(max, reads, k);
    lemma_count_tracks_sum(max, reads, k + 1);
    lemma_sum_step(reads, k);
}

proof fn lemma_delivered_within(max: u64, reads: Seq<u64>, n: int)
    requires
        0 <= n <= reads.len(),
    ensures
        delivered(max, reads, n) <= max,
        bytes_read(reads.take(n)) <= max ==> delivered(max, reads, n) == bytes_read(reads.take(n)),
    decreases n,
{
    if n == 0 {
        assert(reads.take(0) =~= Seq::<u64>::empty());
    } else {
        lemma_delivered_within(max, reads, n - 1);
        lemma_succeeds_iff_within(max, reads, n - 1);
        lemma_sum_step(reads, n - 1);
    }
}

/// Law (the cap over a whole transfer): offered any sequence of reads,
/// a fresh reader with cap `max` hands its caller at most `max` bytes
/// in all; a read succeeds exactly when the reads up to and including
/// it sum to no more than `max`; and once one read has failed, every
/// later read fails too. `delivered` is what stays in the callers'
/// buffers: `finish_read` keeps a passing read's bytes and rolls a
/// refused one back, and `admit_read` refuses a reader over its cap
/// before the wrapped reader is polled again.
pub proof fn cap_holds_across_reads(max: u64, reads: Seq<u64>)
    ensures
        delivered(max, reads, reads.len() as int) <= max,
        forall|k: int| 0 <= k < reads.len() ==> (read_succeeds(max, reads, k) <==> #[trigger] bytes_read(reads.take(k + 1)) <= max),
        forall|i: int, j: int| #![trigger read_succeeds(max, reads, i), read_succeeds(max, reads, j)] 0 <= i < j < reads.len() && !read_succeeds(max, reads, i) ==> !read_succeeds(max, reads, j),
{
    lemma_delivered_within(max, reads, reads.len() as int);
    assert forall|k: int| 0 <= k < reads.len() implies (read_succeeds(max, reads, k) <==> #[trigger] bytes_read(reads.take(k + 1)) <= max) by {
        lemma_succeeds_iff_within(max, reads, k);
    }
    assert forall|i: int, j: int| #![trigger read_succeeds(max, reads, i), read_succeeds(max, reads, j)] 0 <= i < j < reads.len() && !read_succeeds(max, reads, i) implies !read_succeeds(max, reads, j) by {
        lemma_succeeds_iff_within(max, reads, i);
        lemma_succeeds_iff_within(max, reads, j);
        lemma_bytes_read_monotone(reads.take(j + 1), i + 1);
        assert(reads.take(j + 1).take(i + 1) =~= reads.take(i + 1));
    }
}

/// Law (the reader follows the count): a reader whose count is
/// `count_after(max, reads)`, offered one more read through
/// `admit_read` then, when admitted, `record_read`, ends with the count
/// `count_after(max, reads.push(added))`; a fresh reader starts at the
/// count of no reads.
pub proof fn reader_follows_count<R>(fresh: LimitedReader<R>, before: LimitedReader<R>, after: LimitedReader<R>, reads: Seq<u64>, added: u64)
    requires
        fresh.transferred() == 0,
        before.transferred() == count_after(before.cap(), reads),
        after.cap() == before.cap(),
        before.transferred() > before.cap() ==> after.transferred() == before.transferred(),
        before.transferred() <= before.cap() ==> after.transferred() == before.transferred() + added,
    ensures
        fresh.transferred() == count_after(fresh.cap(), Seq::<u64>::empty()),
        after.transferred() == count_after(after.cap(), reads.push(added)),
{
    assert(reads.push(added).drop_last() =~= reads);
}

/// Law: once a read has failed, the cap stays exceeded, so every later
/// read is refused as well.
pub proof fn cap_failure_is_sticky<R>(before: LimitedReader<R>, after: LimitedReader<R>)
    requires
        before.transferred() > before.cap(),
        after.cap() == before.cap(),
        after.transferred() >= before.transferred(),
    ensures
        after.transferred() > after.cap(),
{
}

} // verus!
