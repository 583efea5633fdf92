//! Keeping the view away from straight up and straight down.

use vstd::prelude::*;
use crate::fixed::{HALF_TURN, clamped};
use crate::config::pitch_limits_wf;

verus! {

/// The pitch change that is allowed where `proposed` is asked for.
///
/// `angle_from_up` is the angle between the viewing direction and up. A positive
/// pitch change tilts the view toward up, so the angle after a change `d` is
/// `angle_from_up - d`. The allowed change is the one that brings the angle to
/// where `proposed` would bring it, but no closer to up than `from_above` and no
/// closer to down than `from_below`.
pub open spec fn allowed_pitch(angle_from_up: int, proposed: int, from_above: int, from_below: int) -> int {
    angle_from_up - clamped(angle_from_up - proposed, from_above, HALF_TURN - from_below)
}

/// Cuts a proposed pitch change back so that the view keeps at least
/// `most_acute_from_above` from straight up and `most_acute_from_below` from
/// straight down; a change that keeps both passes through unchanged.
pub fn clamp_pitch(
    angle_from_up: i64,
    proposed: i64,
    most_acute_from_above: i64,
    most_acute_from_below: i64,
) -> (allowed: i64)
    requires
        0 <= angle_from_up <= HALF_TURN,
        pitch_limits_wf(most_acute_from_above as int, most_acute_from_below as int),
    ensures
        allowed == allowed_pitch(
            angle_from_up as int,
            proposed as int,
            most_acute_from_above as int,
            most_acute_from_below as int,
        ),
        most_acute_from_above <= angle_from_up - allowed <= HALF_TURN - most_acute_from_below,
        most_acute_from_above <= angle_from_up - proposed <= HALF_TURN - most_acute_from_below
            ==> allowed == proposed,
{
    let lowest: i128 = most_acute_from_above as i128;
    let highest: i128 = (HALF_TURN - most_acute_from_below) as i128;
    let after: i128 = (angle_from_up as i128) - (proposed as i128);
    if after < lowest {
        angle_from_up - most_acute_from_above
    } else if after > highest {
        angle_from_up - (HALF_TURN - most_acute_from_below)
    } else {
        proposed
    }
}

/// Whatever the view's angle from up and whatever change is asked for, the angle
/// that the allowed change leads to lies between the two limits.
pub proof fn lemma_pitch_stays_within_limits(
    angle_from_up: int,
    proposed: int,
    from_above: int,
    from_below: int,
)
    requires
        pitch_limits_wf(from_above, from_below),
    ensures
        from_above <= angle_from_up - allowed_pitch(
            angle_from_up,
            proposed,
            from_above,
            from_below,
        ) <= HALF_TURN - from_below,
{
}

/// A change that leads to an angle between the limits is allowed as it is.
pub proof fn lemma_pitch_unchanged_within_limits(
    angle_from_up: int,
    proposed: int,
    from_above: int,
    from_below: int,
)
    requires
        pitch_limits_wf(from_above, from_below),
        from_above <= angle_from_up - proposed <= HALF_TURN - from_below,
    ensures
        allowed_pitch(angle_from_up, proposed, from_above, from_below) == proposed,
{
}

} // verus!
