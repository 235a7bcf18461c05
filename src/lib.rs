//! A wakeup handle that does nothing when it is woken, for executors that
//! re-poll unconditionally or evaluate a suspendable computation only once.

use vstd::prelude::*;

pub mod handle;

pub use handle::{BehaviorTable, Effect, NoopHandle, Slot, SENTINEL};

verus! {

/// Returns a `Waker` whose clone, wake, wake-by-reference and drop all do
/// nothing: an owned copy of std's no-op waker, picked by the no-op table of
/// a fresh handle.
#[must_use]
pub fn noop_waker() -> (r: core::task::Waker)
    ensures
        handle::is_noop_waker(r),
{
    let h = NoopHandle::new();
    h.to_waker()
}

} // verus!
