//! Byte units and the two sizes that shape a sequential scan.

use vstd::prelude::*;

verus! {

/// Bytes in one kilobyte.
pub const KB: u64 = 1024;

/// Bytes in one megabyte.
pub const MB: u64 = 1024 * KB;

/// Bytes in one gigabyte.
pub const GB: u64 = 1024 * MB;

/// Distance in bytes between two touches of a block walk.
pub const PAGE_SIZE: u64 = 4096;

/// Number of bytes one sequential claim hands out.
pub const SCAN_BLOCK_SIZE: u64 = 128 * MB;

/// Number of touches in one block walk.
pub const STRIDES_PER_BLOCK: u64 = SCAN_BLOCK_SIZE / PAGE_SIZE;

} // verus!
