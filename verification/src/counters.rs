//! The counter store: four unsigned 64-bit counters that the workers, the
//! load generator and the monitor share.
//!
//! `Counts` is the store as a plain value with a single owner; its
//! operations say exactly what each update does to the four counters.
//! `CounterStore` is the same store shared between threads: every operation
//! is one relaxed atomic read-modify-write on one counter.

use crate::units::PAGE_SIZE;
use crate::units::SCAN_BLOCK_SIZE;
use std::sync::atomic::AtomicU64;
use std::sync::atomic::Ordering;
use vstd::prelude::*;

verus! {

/// Number of busy-work iterations that make up one batch of the load
/// generator.
pub const BATCH_ITERATIONS: u64 = 10000;

/// One more than the largest counter value.
pub open spec fn counter_range() -> nat {
    0x1_0000_0000_0000_0000
}

/// A counter value advanced by `amount`, wrapping around at the counter range.
pub open spec fn advanced(value: u64, amount: u64) -> u64 {
    ((value + amount) % (counter_range() as int)) as u64
}

/// The values of the four counters at one instant.
#[derive(Clone, Copy, Debug, PartialEq, Eq, Structural)]
pub struct Counts {
    /// Touches since the last drain.
    pub touch_count: u64,
    /// Sum of the touched byte values.
    pub checksum: u64,
    /// Busy-work batches completed since the last drain.
    pub cpu_iterations: u64,
    /// Next offset to hand out for sequential scanning.
    pub scan_cursor: u64,
}

impl Counts {
    /// All four counters at zero, as at startup.
    pub open spec fn zero() -> Counts {
        Counts { touch_count: 0, checksum: 0, cpu_iterations: 0, scan_cursor: 0 }
    }

    /// The counters after one touch that read `byte`.
    pub open spec fn touched(self, byte: u8) -> Counts {
        Counts {
            touch_count: advanced(self.touch_count, 1),
            checksum: advanced(self.checksum, byte as u64),
            ..self
        }
    }

    /// The counters after one block was claimed.
    pub open spec fn claimed(self) -> Counts {
        Counts { scan_cursor: advanced(self.scan_cursor, SCAN_BLOCK_SIZE), ..self }
    }

    /// The counters after one busy-work batch was completed.
    pub open spec fn batch_completed(self) -> Counts {
        Counts { cpu_iterations: advanced(self.cpu_iterations, 1), ..self }
    }

    /// The counters after the touch count was drained.
    pub open spec fn touches_drained(self) -> Counts {
        Counts { touch_count: 0, ..self }
    }

    /// The counters after the batch count was drained.
    pub open spec fn batches_drained(self) -> Counts {
        Counts { cpu_iterations: 0, ..self }
    }

    /// The scan cursor is a whole number of blocks.
    pub open spec fn cursor_aligned(self) -> bool {
        self.scan_cursor % SCAN_BLOCK_SIZE == 0
    }

    /// Counters as they are at startup.
    pub fn new() -> (counts: Counts)
        ensures
            counts == Counts::zero(),
    {
        Counts { touch_count: 0, checksum: 0, cpu_iterations: 0, scan_cursor: 0 }
    }

    /// Records one touch: the touch count goes up by one and the byte value
    /// is added into the checksum.
    pub fn record_touch(&mut self, byte: u8)
        ensures
            *final(self) == old(self).touched(byte),
    {
        self.touch_count = self.touch_count.wrapping_add(1);
        self.checksum = self.checksum.wrapping_add(byte as u64);
    }

    /// Claims the next block: returns the cursor and advances it by one block.
    pub fn claim_block(&mut self) -> (claim: u64)
        ensures
            claim == old(self).scan_cursor,
            *final(self) == old(self).claimed(),
    {
        let claim = self.scan_cursor;
        self.scan_cursor = claim.wrapping_add(SCAN_BLOCK_SIZE);
        claim
    }

    /// Records one completed busy-work batch.
    pub fn complete_batch(&mut self)
        ensures
            *final(self) == old(self).batch_completed(),
    {
        self.cpu_iterations = self.cpu_iterations.wrapping_add(1);
    }

    /// Reads the touch count and resets it to zero.
    pub fn drain_touch_count(&mut self) -> (touches: u64)
        ensures
            touches == old(self).touch_count,
            *final(self) == old(self).touches_drained(),
    {
        let touches = self.touch_count;
        self.touch_count = 0;
        touches
    }

    /// Reads the batch count and resets it to zero.
    pub fn drain_cpu_iterations(&mut self) -> (batches: u64)
        ensures
            batches == old(self).cpu_iterations,
            *final(self) == old(self).batches_drained(),
    {
        let batches = self.cpu_iterations;
        self.cpu_iterations = 0;
        batches
    }
}

/// One operation on the counter store.
pub enum StoreEvent {
    /// A worker touched a byte with this value.
    Touch(u8),
    /// A worker claimed a scan block.
    Claim,
    /// The load generator completed a batch.
    Batch,
    /// The monitor drained the touch count.
    DrainTouches,
    /// The monitor drained the batch count.
    DrainBatches,
}

/// The counters after one operation.
pub open spec fn step(counts: Counts, event: StoreEvent) -> Counts {
    match event {
        StoreEvent::Touch(byte) => counts.touched(byte),
        StoreEvent::Claim => counts.claimed(),
        StoreEvent::Batch => counts.batch_completed(),
        StoreEvent::DrainTouches => counts.touches_drained(),
        StoreEvent::DrainBatches => counts.batches_drained(),
    }
}

/// The counters after a sequence of operations, applied in order.
pub open spec fn replay(counts: Counts, trace: Seq<StoreEvent>) -> Counts
    decreases trace.len(),
{
    if trace.len() == 0 {
        counts
    } else {
        step(replay(counts, trace.drop_last()), trace.last())
    }
}

/// Number of touches in a sequence of operations.
pub open spec fn touches_in(trace: Seq<StoreEvent>) -> nat
    decreases trace.len(),
{
    if trace.len() == 0 {
        0
    } else if trace.last() is Touch {
        touches_in(trace.drop_last()) + 1
    } else {
        touches_in(trace.drop_last())
    }
}

/// Sum of the values that the touch-count drains in a sequence of operations
/// return, when the sequence starts from `counts`.
pub open spec fn drained_in(counts: Counts, trace: Seq<StoreEvent>) -> nat
    decreases trace.len(),
{
    if trace.len() == 0 {
        0
    } else if trace.last() is DrainTouches {
        drained_in(counts, trace.drop_last()) + replay(
            counts,
            trace.drop_last(),
        ).touch_count as nat
    } else {
        drained_in(counts, trace.drop_last())
    }
}

/// No touch in the sequence finds the touch count at its largest value, so
/// the touch count never wraps around between two drains.
pub open spec fn touch_count_never_wraps(counts: Counts, trace: Seq<StoreEvent>) -> bool
    decreases trace.len(),
{
    if trace.len() == 0 {
        true
    } else {
        &&& touch_count_never_wraps(counts, trace.drop_last())
        &&& trace.last() is Touch ==> replay(counts, trace.drop_last()).touch_count < u64::MAX
    }
}

/// A drain that follows another drain, with no touch in between, returns
/// zero: whatever else happens in between, the touch count that the second
/// drain reads is zero. The same holds of the first drain after startup.
pub proof fn lemma_drain_without_touches_returns_zero(counts: Counts, quiet: Seq<StoreEvent>)
    requires
        touches_in(quiet) == 0,
    ensures
        replay(counts.touches_drained(), quiet).touch_count == 0,
        replay(Counts::zero(), quiet).touch_count == 0,
        counts.touches_drained().touches_drained() == counts.touches_drained(),
    decreases quiet.len(),
{
    if quiet.len() > 0 {
        lemma_drain_without_touches_returns_zero(counts, quiet.drop_last());
    }
}

/// Between drains the touch count goes up by one with every touch: after a
/// sequence of operations without a drain it is the count at the start plus
/// the number of touches in the sequence.
pub proof fn lemma_touch_count_follows_touches(counts: Counts, trace: Seq<StoreEvent>)
    requires
        touch_count_never_wraps(counts, trace),
        forall|i: int| 0 <= i < trace.len() ==> !(trace[i] is DrainTouches),
    ensures
        replay(counts, trace).touch_count == counts.touch_count + touches_in(trace),
    decreases trace.len(),
{
    if trace.len() > 0 {
        lemma_touch_count_follows_touches(counts, trace.drop_last());
    }
}

/// No touch is lost or counted twice: what the drains of a sequence returned,
/// plus what is still in the counter, is what was in the counter at the
/// start plus the number of touches in the sequence.
pub proof fn lemma_touches_are_conserved(counts: Counts, trace: Seq<StoreEvent>)
    requires
        touch_count_never_wraps(counts, trace),
    ensures
        drained_in(counts, trace) + replay(counts, trace).touch_count == counts.touch_count
            + touches_in(trace),
    decreases trace.len(),
{
    if trace.len() > 0 {
        lemma_touches_are_conserved(counts, trace.drop_last());
    }
}

/// Lower bound on the drained total: a sequence that ends with a drain and
/// holds at least `intervals * workers * rate` touches, as it does when
/// each of `workers` workers makes at least `rate` touches in each of
/// `intervals` intervals, has drains that together return at least that
/// many.
pub proof fn lemma_drained_total_lower_bound(
    counts: Counts,
    trace: Seq<StoreEvent>,
    intervals: nat,
    workers: nat,
    rate: nat,
)
    requires
        touch_count_never_wraps(counts, trace),
        trace.len() > 0,
        trace.last() is DrainTouches,
        touches_in(trace) >= intervals * workers * rate,
    ensures
        drained_in(counts, trace) >= intervals * workers * rate,
{
    lemma_touches_are_conserved(counts, trace);
}

/// Claims keep the scan cursor a whole number of blocks, and so of pages,
/// also when the cursor wraps around the counter range.
pub proof fn lemma_cursor_stays_aligned(counts: Counts, trace: Seq<StoreEvent>)
    requires
        counts.cursor_aligned(),
    ensures
        replay(counts, trace).cursor_aligned(),
        replay(counts, trace).scan_cursor % PAGE_SIZE == 0,
        Counts::zero().cursor_aligned(),
    decreases trace.len(),
{
    if trace.len() > 0 {
        lemma_cursor_stays_aligned(counts, trace.drop_last());
    }
}

/// The counter store shared between threads. Each counter is updated by
/// relaxed atomic operations only; no operation orders one counter against
/// another.
pub struct CounterStore {
    touch_count: AtomicU64,
    checksum: AtomicU64,
    cpu_iterations: AtomicU64,
    scan_cursor: AtomicU64,
}

/// Adds `amount` to a shared counter, wrapping on overflow, and returns the
/// value the counter held just before.
fn fetch_and_add(counter: &AtomicU64, amount: u64) -> u64 {
    counter.fetch_add(amount, Ordering::Relaxed)
}

/// Resets a shared counter to zero and returns the value it held just before.
fn fetch_and_reset(counter: &AtomicU64) -> u64 {
    counter.swap(0, Ordering::Relaxed)
}

impl CounterStore {
    /// A store with all four counters at zero.
    pub fn new() -> CounterStore {
        CounterStore {
            touch_count: AtomicU64::new(0),
            checksum: AtomicU64::new(0),
            cpu_iterations: AtomicU64::new(0),
            scan_cursor: AtomicU64::new(0),
        }
    }

    /// Applies `Counts::touched` to the shared counters: one addition into
    /// the checksum and one increment of the touch count.
    pub fn record_touch(&self, byte: u8) {
        fetch_and_add(&self.checksum, byte as u64);
        fetch_and_add(&self.touch_count, 1);
    }

    /// Applies `Counts::claimed` to the shared cursor and returns the cursor
    /// value that this caller claimed. Other threads claim concurrently, so
    /// nothing is known of the value but its type.
    pub fn claim_block(&self) -> u64 {
        fetch_and_add(&self.scan_cursor, SCAN_BLOCK_SIZE)
    }

    /// Applies `Counts::batch_completed` to the shared batch counter.
    pub fn complete_batch(&self) {
        fetch_and_add(&self.cpu_iterations, 1);
    }

    /// Reads the shared touch count and resets it to zero in one step.
    /// Touches recorded by other threads after the reset are left for the
    /// next drain.
    pub fn drain_touch_count(&self) -> u64 {
        fetch_and_reset(&self.touch_count)
    }

    /// Reads the shared batch count and resets it to zero in one step.
    pub fn drain_cpu_iterations(&self) -> u64 {
        fetch_and_reset(&self.cpu_iterations)
    }
}

} // verus!
