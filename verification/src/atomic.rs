//! The one atomic operation that retries: an update that is computed from
//! the value it replaces.

use std::sync::atomic::AtomicU64;
use std::sync::atomic::Ordering;
use vstd::prelude::*;

verus! {

/// `AtomicU64::fetch_update`, storing with release and loading with acquire
/// ordering. It gives back the value that `f` was last applied to: as `Ok`
/// where `f` returned a new value for it, which was then stored in its
/// place, as `Err` where `f` returned none, and nothing was stored. Which
/// value that is depends on what other threads stored in the meantime.
#[verifier::external_body]
pub(crate) fn fetch_update<F: Fn(u64) -> Option<u64>>(cell: &AtomicU64, f: F) -> (r: Result<u64, u64>)
    requires
        forall|prev: u64| call_requires(f, (prev,)),
    ensures
        match r {
            Ok(prev) => exists|next: u64| call_ensures(f, (prev,), Some(next)),
            Err(prev) => call_ensures(f, (prev,), None::<u64>),
        },
{
    cell.fetch_update(Ordering::Release, Ordering::Acquire, f)
}

} // verus!
