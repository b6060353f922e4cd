//! Shared ownership of handles.
use std::sync::Arc;
use vstd::prelude::*;

verus! {

/// Gives up one reference with `Arc::into_inner` of std. That function hands
/// out the value inside if this was the last reference to it, and nothing
/// otherwise; which of the two happens depends on the other references, so the
/// contract only says that a value handed out is the one that was shared.
#[verifier::external_body]
pub(crate) fn into_last<T>(shared: Arc<T>) -> (inner: Option<T>)
    ensures
        inner matches Some(t) ==> t == *shared,
{
    Arc::into_inner(shared)
}

} // verus!
