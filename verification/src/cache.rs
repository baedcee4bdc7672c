//! The cached report: where it is kept and how long it may be reused.
//!
//! One file per user holds the text of the last record that was fetched.
//! Its age is the time since it was last written.

use vstd::prelude::*;

verus! {

/// The directory of the cache file, below the user's home directory.
pub const CACHE_DIR: &'static str = ".cache";

/// The name of the cache file.
pub const CACHE_FILE: &'static str = "wttr.json";

/// The age in seconds up to which a cached report is reused.
pub const REFRESH_RATE: u64 = 3600;

/// What a look at the cache file told.
#[derive(Debug, Clone, Copy, PartialEq, Eq, Structural)]
pub enum CacheProbe {
    /// There is no cache file.
    Missing,
    /// There is one, last written so many whole seconds ago.
    Found { age_secs: u64 },
    /// The file, or its age, could not be examined.
    Failed,
}

/// Whether a report of the given age is still reused: up to the refresh
/// rate, the rate itself included.
pub open spec fn fresh(age_secs: int) -> bool {
    age_secs <= REFRESH_RATE
}

/// Whether a report of the given age is still reused.
pub fn is_fresh(age_secs: u64) -> (reused: bool)
    ensures
        reused == fresh(age_secs as int),
{
    age_secs <= REFRESH_RATE
}

} // verus!
