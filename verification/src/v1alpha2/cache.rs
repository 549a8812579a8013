//! How the info fetchers cache responses.
use crate::duration::Duration;
use crate::value::Value;
use vstd::prelude::*;

verus! {

/// Default time-to-live for cached responses, in seconds: one minute.
pub const DEFAULT_CACHE_ENTRY_TIME_TO_LIVE: u64 = 60;

/// Default upper bound on the number of cached responses.
///
/// The cache lives in a sidecar with a small memory limit, and any caller who can name a resource
/// can mint a distinct key per request, so it must not be allowed to grow without bound.
pub const DEFAULT_CACHE_MAX_ENTRIES: u64 = 10_000;

/// How the info fetchers cache responses.
#[derive(Clone, Debug, PartialEq, Eq)]
pub struct Cache {
    /// How long responses should be cached for.
    pub entry_time_to_live: Duration,
    /// Maximum number of entries to cache. Once it is reached, the least recently used entries are
    /// evicted.
    pub max_entries: u64,
}

/// The contents of a [`Cache`].
#[verifier::ext_equal]
pub struct CacheView {
    pub entry_time_to_live: Duration,
    pub max_entries: u64,
}

impl DeepView for Cache {
    type V = CacheView;

    open spec fn deep_view(&self) -> CacheView {
        CacheView {
            entry_time_to_live: self.entry_time_to_live.deep_view(),
            max_entries: self.max_entries.deep_view(),
        }
    }
}

impl Value for Cache {
    fn duplicate(&self) -> (copy: Self) {
        Cache {
            entry_time_to_live: self.entry_time_to_live.duplicate(),
            max_entries: self.max_entries.duplicate(),
        }
    }

    fn same_as(&self, other: &Self) -> (same: bool) {
        self.entry_time_to_live.same_as(&other.entry_time_to_live)
            && self.max_entries.same_as(&other.max_entries)
    }
}

/// The default time-to-live for cached responses.
pub fn default_entry_time_to_live() -> (duration: Duration)
    ensures
        duration == Duration::spec_from_secs(DEFAULT_CACHE_ENTRY_TIME_TO_LIVE),
{
    Duration::from_secs(DEFAULT_CACHE_ENTRY_TIME_TO_LIVE)
}

/// The default upper bound on the number of cached responses.
pub fn default_max_entries() -> (entries: u64)
    ensures
        entries == DEFAULT_CACHE_MAX_ENTRIES,
{
    DEFAULT_CACHE_MAX_ENTRIES
}

impl Default for Cache {
    fn default() -> (cache: Self)
        ensures
            cache.deep_view() == (CacheView {
                entry_time_to_live: Duration::spec_from_secs(DEFAULT_CACHE_ENTRY_TIME_TO_LIVE),
                max_entries: DEFAULT_CACHE_MAX_ENTRIES,
            }),
    {
        Cache {
            entry_time_to_live: default_entry_time_to_live(),
            max_entries: default_max_entries(),
        }
    }
}

} // verus!
