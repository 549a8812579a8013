//! What a controller does next.
use vstd::prelude::*;

verus! {

/// What the controller does after a reconciliation.
#[derive(Clone, Copy, Debug, PartialEq, Eq, Structural)]
pub enum Action {
    /// Wait until something changes.
    AwaitChange,
    /// Try again after that many seconds.
    Requeue(u64),
}

} // verus!
