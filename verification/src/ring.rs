//! Fixed-capacity append: push one element, evict the oldest past the bound.
//!
//! Both bounded buffers of the engine — the per-caller rate-limit histories
//! and the circuit breaker's error log — append through this module.

use vstd::prelude::*;

verus! {

/// `h` extended by `x`, with the oldest entries evicted down to `cap`.
pub open spec fn push_bounded<T>(h: Seq<T>, x: T, cap: nat) -> Seq<T> {
    let grown = h.push(x);
    if grown.len() <= cap {
        grown
    } else {
        grown.skip(grown.len() - cap)
    }
}

/// Appends `x` to `v` and drops elements from the front until at most `cap`
/// remain.
pub fn push_evict<T>(v: &mut Vec<T>, x: T, cap: usize)
    ensures
        final(v)@ == push_bounded(old(v)@, x, cap as nat),
{
    v.push(x);
    let ghost grown = v@;
    while v.len() > cap
        invariant
            grown.len() >= v@.len(),
            v@ == grown.skip(grown.len() - v@.len()),
            v@.len() >= cap || v@ == grown,
        decreases v@.len(),
    {
        v.remove(0);
        proof {
            assert(v@ =~= grown.skip(grown.len() - v@.len()));
        }
    }
    proof {
        if grown.len() <= cap {
            assert(v@ == grown);
        }
        assert(v@ =~= push_bounded(old(v)@, x, cap as nat));
    }
}

} // verus!
