//! Fetches the Kubernetes objects that a cluster refers to. There are none yet.
use vstd::prelude::*;

verus! {

/// Kubernetes objects referenced from the OpaCluster spec, already fetched.
#[derive(Clone, Copy, Debug, PartialEq, Eq)]
pub struct DereferencedObjects {}

/// The Kubernetes objects that a cluster refers to.
pub fn dereference() -> (objects: DereferencedObjects)
    ensures
        objects == (DereferencedObjects {  }),
{
    DereferencedObjects {  }
}

} // verus!
