//! Player abilities and movement input.

use vstd::prelude::*;

verus! {

/// One flag per unlockable player ability. Gameplay checks these before
/// running the matching box-interaction logic, so abilities can be granted or
/// revoked independently.
#[derive(Clone, Copy, Debug, PartialEq, Eq, Structural)]
pub struct Abilities {
    /// Shove a movable box by walking into it.
    pub push: bool,
    /// Drag a movable box along when walking away from a side it is latched to.
    pub pull: bool,
}

impl Default for Abilities {
    /// Both abilities unlocked.
    fn default() -> (a: Self)
        ensures
            a.push && a.pull,
    {
        Abilities { push: true, pull: true }
    }
}

/// The raw movement direction from the held keys: up/down and left/right
/// each give -1, 0 or +1 on their axis (+y is down), opposite keys cancelling.
pub open spec fn axes(up: bool, down: bool, left: bool, right: bool) -> (int, int) {
    ((if right { 1int } else { 0 }) - (if left { 1int } else { 0 }),
     (if down { 1int } else { 0 }) - (if up { 1int } else { 0 }))
}

/// The unnormalized movement direction for the held keys (W/Up, S/Down,
/// A/Left, D/Right).
pub fn input_axes(up: bool, down: bool, left: bool, right: bool) -> (d: (i32, i32))
    ensures
        (d.0 as int, d.1 as int) == axes(up, down, left, right),
{
    let mut dx: i32 = 0;
    let mut dy: i32 = 0;
    if up {
        dy = dy - 1;
    }
    if down {
        dy = dy + 1;
    }
    if left {
        dx = dx - 1;
    }
    if right {
        dx = dx + 1;
    }
    (dx, dy)
}

} // verus!
