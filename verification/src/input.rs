//! Reduce the four held movement keys to an axis direction. Each axis
//! contributes one whole unit; opposite keys cancel.

use vstd::prelude::*;
use crate::vec2::Vec2i;

verus! {

/// The direction the held keys ask for, one unit per axis: up and down set
/// `y`, right and left set `x`, and opposite keys cancel out.
pub fn get_input_direction(up: bool, down: bool, right: bool, left: bool) -> (r: Vec2i)
    ensures
        r.x == (if right { 1int } else { 0int }) - (if left { 1int } else { 0int }),
        r.y == (if up { 1int } else { 0int }) - (if down { 1int } else { 0int }),
{
    let mut x: i64 = 0;
    let mut y: i64 = 0;
    if up {
        y = y + 1;
    }
    if down {
        y = y - 1;
    }
    if right {
        x = x + 1;
    }
    if left {
        x = x - 1;
    }
    Vec2i { x, y }
}

} // verus!
