//! Delivery routing: which path a file takes and how it is buffered.
//!
//! A request resolves to a file, the file is stat'ed, and its size decides
//! the route: small files are served from the cache (reading and inserting
//! on a miss), everything else — including empty files — streams through a
//! rate-limited reader with a size-scaled buffer.

use vstd::prelude::*;

verus! {

/// Files up to this many bytes are cache candidates.
pub const CACHE_FILE_SIZE_LIMIT: u64 = 4 * 1024 * 1024;

/// The cache holds at most this many files.
pub const CACHE_FILE_NUM_LIMIT: u64 = 128;

/// Steady-state ceiling on streamed transfers, bytes per second.
pub const RATE_LIMIT_BYTES_PER_SEC: u64 = 100 * 1024 * 1024;

/// Cached entries live this long after insertion, in seconds.
pub const CACHE_FILE_LIFETIME_SECS: u64 = 2 * 60 * 60;

/// A file is a cache candidate exactly when its size lies within
/// `[1, threshold]` bytes: a file of exactly `threshold` bytes is eligible,
/// one byte more is not, and an empty file never is — those bypass the
/// cache and stream through the large-file path.
pub fn is_cache_eligible(size: u64, threshold: u64) -> (r: bool)
    ensures
        r == (1 <= size && size <= threshold),
{
    size > 0 && size <= threshold
}

/// Read-buffer size for a streamed file of the given size.
pub open spec fn spec_buffer_size(size: u64) -> usize {
    if 4194305 <= size && size <= 16777216 {
        (256 * 1024) as usize
    } else if 16777217 <= size && size <= 67108928 {
        (512 * 1024) as usize
    } else if 67108929 <= size && size <= 1073741824 {
        (1024 * 1024) as usize
    } else {
        (2 * 1024 * 1024) as usize
    }
}

/// Picks the read-buffer size for a streamed file, scaled with the file
/// size to balance syscall overhead against memory footprint and
/// scheduling granularity.
pub fn buffer_size_for(size: u64) -> (r: usize)
    ensures
        r == spec_buffer_size(size),
{
    if 4194305 <= size && size <= 16777216 {
        256 * 1024
    } else if 16777217 <= size && size <= 67108928 {
        512 * 1024
    } else if 67108929 <= size && size <= 1073741824 {
        1024 * 1024
    } else {
        2 * 1024 * 1024
    }
}

} // verus!
