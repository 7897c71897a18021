//! The tether rule of a chain wrapped around obstacles.
//!
//! When a chain wraps obstacles, the player can only move within the chain's
//! remaining free length measured from the last joint that rests against an
//! obstacle, not from the fixed anchor. Joint positions are the caller's; this
//! module picks the tether joint from the joints' contact flags.

use vstd::prelude::*;

verus! {

/// The tether joint and the number of free chain segments from it to the
/// player end, from the per-joint "resting against an obstacle" flags (the
/// last flag, the player end, is not considered).
pub fn player_tether(obstacle_constrained: &[bool]) -> (r: (usize, usize))
    requires
        obstacle_constrained@.len() >= 1,
    ensures
        r.0 < obstacle_constrained@.len(),
        obstacle_constrained@.len() >= 2 ==> r.0 < obstacle_constrained@.len() - 1,
        r.1 == obstacle_constrained@.len() - 1 - r.0,
        r.0 > 0 ==> obstacle_constrained@[r.0 as int],
        forall|j: int| r.0 < j < obstacle_constrained@.len() - 1 ==> !obstacle_constrained@[j],
        r.0 == 0 ==> forall|j: int| 0 < j < obstacle_constrained@.len() - 1 ==> !obstacle_constrained@[j],
{
    let n = obstacle_constrained.len();
    let mut i: usize = n - 1;
    while i > 0
        invariant
            n == obstacle_constrained@.len(),
            n >= 1,
            i <= n - 1,
            forall|j: int| i <= j < n - 1 ==> !obstacle_constrained@[j],
        decreases i,
    {
        if obstacle_constrained[i - 1] {
            let idx = i - 1;
            return (idx, n - 1 - idx);
        }
        i = i - 1;
    }
    (0, n - 1)
}

} // verus!
