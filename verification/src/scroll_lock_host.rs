//! Scroll locking where no browser document exists (server-side rendering
//! and host targets): no lock state is created, and none is shared between
//! requests.
use vstd::prelude::*;

use crate::scroll_lock::{ScrollLockGuard, ScrollLockResult};

verus! {

/// Returns a stateless guard: no lock state is created, and none is shared
/// between requests.
pub fn scroll_lock_acquire() -> (r: ScrollLockResult<ScrollLockGuard>)
    ensures
        r is Ok,
{
    Ok(ScrollLockGuard)
}

/// Performs no work, because no browser lock exists.
pub fn scroll_lock_release() -> (r: ScrollLockResult<()>)
    ensures
        r is Ok,
{
    Ok(())
}

} // verus!
