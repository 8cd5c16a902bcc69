//! The angular part of projecting a robot-relative polar reading onto the screen.
use vstd::prelude::*;

verus! {

/// The bearing of a reading in the screen's frame: the robot's angle
/// negated, since screen angles sweep clockwise. Widened so that
/// `i32::MIN` has a negation.
pub fn mirrored_angle(angle: i32) -> (r: i64)
    ensures
        r == -(angle as int),
{
    -(angle as i64)
}

} // verus!
