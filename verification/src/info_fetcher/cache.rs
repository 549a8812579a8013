//! What is remembered of lookups, including the short-lived memory of failed ones.
use crate::duration::Duration;
use std::sync::Arc;
use vstd::prelude::*;

verus! {

/// How long a failed lookup is remembered, in seconds.
///
/// Without this, a lookup that keeps failing queries the backend again on every single request. That
/// is reachable by anyone who can name a user or a resource, and it is at its worst exactly when the
/// backend is already in trouble.
///
/// Deliberately far shorter than the configured time-to-live for successful lookups: a stale success
/// is merely out of date, while a stale failure keeps denying (or, for a rule keyed on the absence of
/// a group or a tag, keeps granting) after the backend has recovered. If the configured time-to-live
/// is shorter than this, it wins, because the cache evicts at the earliest of the two.
pub const FAILURE_TIME_TO_LIVE: u64 = 5;

/// What a lookup produced, as held in the cache.
///
/// Failures are cached as well as successes, so the variants share one key space and one capacity
/// limit, and so that concurrent lookups of a failing key are coalesced just as those of a successful
/// one.
#[derive(Debug)]
pub enum CachedResponse<T, E> {
    /// The information to answer with.
    Found(T),
    /// The lookup failed. Held in an `Arc` because every caller that hits this entry is handed the
    /// same error.
    Failed(Arc<E>),
}

/// The standard library's `Arc::clone`: the copy holds the same value.
#[verifier::external_body]
fn share<E>(error: &Arc<E>) -> (shared: Arc<E>)
    ensures
        *shared == **error,
{
    Arc::clone(error)
}

/// Written out rather than derived, as the derive would demand `E: Clone` even though the error is
/// only ever cloned through its `Arc`.
impl<T: Clone, E> Clone for CachedResponse<T, E> {
    fn clone(&self) -> (copy: Self)
        ensures
            match (*self, copy) {
                (CachedResponse::Found(response), CachedResponse::Found(cloned_response)) => cloned(
                    response,
                    cloned_response,
                ),
                (CachedResponse::Failed(error), CachedResponse::Failed(shared)) => *shared
                    == *error,
                _ => false,
            },
    {
        match self {
            CachedResponse::Found(response) => CachedResponse::Found(response.clone()),
            CachedResponse::Failed(error) => CachedResponse::Failed(share(error)),
        }
    }
}

/// Expires [`CachedResponse::Failed`] entries early, leaving successful ones to the configured
/// time-to-live.
#[derive(Clone, Copy, Debug, PartialEq, Eq)]
pub struct FailureExpiry {
    pub failure_time_to_live: Duration,
}

impl FailureExpiry {
    /// The expiry that caches are built with.
    pub fn new() -> (expiry: FailureExpiry)
        ensures
            expiry.failure_time_to_live == Duration::spec_from_secs(FAILURE_TIME_TO_LIVE),
    {
        FailureExpiry { failure_time_to_live: Duration::from_secs(FAILURE_TIME_TO_LIVE) }
    }

    /// How long an entry is remembered at most. `None` leaves the entry to the cache's own
    /// time-to-live, which is what successful lookups get.
    pub fn time_to_live_for<T, E>(&self, response: &CachedResponse<T, E>) -> (time_to_live: Option<
        Duration,
    >)
        ensures
            time_to_live == match response {
                CachedResponse::Found(_) => None,
                CachedResponse::Failed(_) => Some(self.failure_time_to_live),
            },
    {
        match response {
            CachedResponse::Found(_) => None,
            CachedResponse::Failed(_) => Some(self.failure_time_to_live),
        }
    }
}

/// A failure is remembered for five seconds.
pub proof fn lemma_failures_are_forgotten_early()
    ensures
        Duration::spec_from_secs(FAILURE_TIME_TO_LIVE) == (Duration { secs: 5, nanos: 0 }),
{
}

} // verus!
