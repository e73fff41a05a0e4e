//! The two access patterns of the workers: walking a claimed block page by
//! page, and touching one randomly drawn byte.

use crate::counters::CounterStore;
use crate::region::Region;
use crate::sampling::Sampler;
use crate::units::PAGE_SIZE;
use crate::units::STRIDES_PER_BLOCK;
use vstd::prelude::*;

verus! {

/// Offset at which the walk of a claimed block starts in a region of `len`
/// bytes.
pub open spec fn block_start(claim: u64, len: nat) -> nat {
    (claim as nat) % len
}

/// Offset of touch number `stride` of a walk that starts at `start`: the
/// walk advances one page per touch and continues from the beginning of the
/// region when it runs past the end.
pub open spec fn stride_offset(start: nat, stride: nat, len: nat) -> nat {
    ((start + stride * PAGE_SIZE) % (len as int)) as nat
}

/// Sum of the byte values that the first `strides` touches of a walk read.
pub open spec fn walk_sum(region: Seq<u8>, start: nat, strides: nat) -> nat
    decreases strides,
{
    if strides == 0 {
        0
    } else {
        walk_sum(region, start, (strides - 1) as nat) + region[stride_offset(
            start,
            (strides - 1) as nat,
            region.len(),
        ) as int] as nat
    }
}

/// Every offset of every block walk lies inside the region, whatever value
/// the scan cursor had when the block was claimed.
pub proof fn lemma_scan_offsets_in_bounds(claim: u64, stride: nat, len: nat)
    requires
        len > 0,
    ensures
        block_start(claim, len) < len,
        stride_offset(block_start(claim, len), stride, len) < len,
{
}

/// A walk touches at most 255 per stride, so its byte sum is bounded.
proof fn lemma_walk_sum_bound(region: Seq<u8>, start: nat, strides: nat)
    ensures
        walk_sum(region, start, strides) <= 255 * strides,
    decreases strides,
{
    if strides > 0 {
        lemma_walk_sum_bound(region, start, (strides - 1) as nat);
    }
}

/// What one block walk did.
#[derive(Clone, Copy, Debug, PartialEq, Eq, Structural)]
pub struct BlockWalk {
    /// Offset of the first touch.
    pub start: usize,
    /// Number of touches made.
    pub touches: u64,
    /// Sum of the byte values read.
    pub checksum: u64,
}

/// What one random touch did.
#[derive(Clone, Copy, Debug, PartialEq, Eq, Structural)]
pub struct Touch {
    /// Offset that was read.
    pub offset: usize,
    /// Byte value found there.
    pub value: u8,
}

/// Offset at which the walk of a claimed block starts.
pub fn first_offset(claim: u64, len: usize) -> (start: usize)
    requires
        len > 0,
    ensures
        start == block_start(claim, len as nat),
        start < len,
{
    (claim % (len as u64)) as usize
}

/// Offset of touch number `stride` of the walk that starts at `start`.
pub fn scan_offset(start: usize, stride: u64, len: usize) -> (offset: usize)
    requires
        len > 0,
    ensures
        offset == stride_offset(start as nat, stride as nat, len as nat),
        offset < len,
{
    let narrow = match stride.checked_mul(PAGE_SIZE) {
        Some(advance) => (start as u64).checked_add(advance),
        None => None,
    };
    match narrow {
        Some(position) => (position % (len as u64)) as usize,
        None => {
            let position = start as u128 + stride as u128 * PAGE_SIZE as u128;
            (position % (len as u128)) as usize
        },
    }
}

/// Walks the block that `claim` stands for: `STRIDES_PER_BLOCK` touches, one
/// page apart, starting at `claim` reduced modulo the region length. Every
/// touch reads one byte and records it in `store`.
pub fn scan_block(region: &Region, claim: u64, store: &CounterStore) -> (walk: BlockWalk)
    ensures
        walk.start == block_start(claim, region@.len()),
        walk.start < region@.len(),
        walk.touches == STRIDES_PER_BLOCK,
        walk.checksum == walk_sum(region@, walk.start as nat, STRIDES_PER_BLOCK as nat),
{
    let len = region.len();
    let start = first_offset(claim, len);
    let mut stride: u64 = 0;
    let mut checksum: u64 = 0;
    while stride < STRIDES_PER_BLOCK
        invariant
            len == region@.len(),
            len > 0,
            stride <= STRIDES_PER_BLOCK,
            checksum == walk_sum(region@, start as nat, stride as nat),
        decreases STRIDES_PER_BLOCK - stride,
    {
        let offset = scan_offset(start, stride, len);
        let byte = region.byte_at(offset);
        store.record_touch(byte);
        proof {
            lemma_walk_sum_bound(region@, start as nat, stride as nat);
        }
        checksum = checksum + byte as u64;
        stride = stride + 1;
    }
    BlockWalk { start, touches: stride, checksum }
}

/// One pass of a sequential worker: claims the next block from `store` and
/// walks it. Which block is claimed depends on the other workers; the
/// walk is that of `scan_block` for the claimed cursor value.
pub fn sequential_pass(region: &Region, store: &CounterStore) -> (walk: BlockWalk)
    ensures
        walk.start < region@.len(),
        walk.touches == STRIDES_PER_BLOCK,
        walk.checksum == walk_sum(region@, walk.start as nat, STRIDES_PER_BLOCK as nat),
{
    let claim = store.claim_block();
    scan_block(region, claim, store)
}

/// One step of a random worker: draws an offset inside the region, reads the
/// byte there and records it in `store`.
pub fn random_touch(region: &Region, store: &CounterStore, sampler: &mut Sampler) -> (touch: Touch)
    ensures
        touch.offset < region@.len(),
        touch.value == region@[touch.offset as int],
{
    let offset = sampler.draw_index(region.len());
    let value = region.byte_at(offset);
    store.record_touch(value);
    Touch { offset, value }
}

} // verus!
