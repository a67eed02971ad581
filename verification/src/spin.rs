//! Waiting for a hardware condition with a bound on the wait.

use vstd::prelude::*;

verus! {

/// Polls `condition` until it holds, but at most `limit` times, and returns
/// whether it held. The condition is not polled again once it has held, and
/// a `false` tells that each of the `limit` polls found it not to hold.
pub fn wait_for<F>(condition: F, limit: u32) -> (held: bool) where F: Fn() -> bool
    requires
        call_requires(condition, ()),
    ensures
        held ==> limit > 0 && call_ensures(condition, (), true),
        !held ==> limit == 0 || call_ensures(condition, (), false),
{
    let mut polls: u32 = 0;
    while polls < limit
        invariant
            polls <= limit,
            call_requires(condition, ()),
            polls > 0 ==> call_ensures(condition, (), false),
        decreases limit - polls,
    {
        if condition() {
            return true;
        }
        polls = polls + 1;
    }
    false
}

} // verus!
