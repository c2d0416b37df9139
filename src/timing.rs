use rand::Rng;
use vstd::prelude::*;

verus! {

/// Workers that gather into batches (more of them than one batch holds).
pub const NUM_GROUP_WORKERS: u32 = 10;

/// Workers that all have to be ready before they are serviced together.
pub const NUM_READY_WORKERS: u32 = 9;

/// Size of a batch of group workers.
pub const BATCH_SIZE: u32 = 3;

/// Shortest simulated unit of work, in milliseconds.
pub const WORK_MILLIS_MIN: u64 = 100;

/// Bound (exclusive) on a simulated unit of work, in milliseconds.
pub const WORK_MILLIS_MAX: u64 = 2000;

/// Relies on rand's `Rng::gen_range` on the thread-local generator: a value
/// drawn from the half-open range `lo..hi`, which panics when that range is
/// empty.
#[verifier::external_body]
fn random_in_range(lo: u64, hi: u64) -> (r: u64)
    requires
        lo < hi,
    ensures
        lo <= r < hi,
{
    rand::thread_rng().gen_range(lo..hi)
}

/// A random length for one simulated unit of work, in milliseconds.
pub fn work_duration_millis() -> (r: u64)
    ensures
        WORK_MILLIS_MIN <= r < WORK_MILLIS_MAX,
{
    random_in_range(WORK_MILLIS_MIN, WORK_MILLIS_MAX)
}

} // verus!
