use vstd::prelude::*;

verus! {

/// Seconds in one day.
pub const SECS_PER_DAY: u64 = 86400;

/// Files in the cache are kept for this many whole days.
pub const RETENTION_DAYS: u64 = 10;

/// Whole days contained in an elapsed time given in seconds.
pub open spec fn whole_days(elapsed_secs: nat) -> nat {
    elapsed_secs / (SECS_PER_DAY as nat)
}

/// Whether a cache file whose creation lies `elapsed_secs` in the past is due for removal.
pub open spec fn is_stale(elapsed_secs: nat) -> bool {
    whole_days(elapsed_secs) >= RETENTION_DAYS
}

/// Decides whether a cache file is removed, from the time elapsed since it was created.
/// A file whose age could not be read (`None`) is kept.
pub fn should_evict(elapsed_secs: Option<u64>) -> (r: bool)
    ensures
        r == match elapsed_secs {
            Some(e) => is_stale(e as nat),
            None => false,
        },
{
    match elapsed_secs {
        Some(e) => e / SECS_PER_DAY >= RETENTION_DAYS,
        None => false,
    }
}

} // verus!
