//! The tuning values a camera reads, as one immutable snapshot.

use vstd::prelude::*;
use crate::fixed::{HALF_TURN, LIMIT, in_limit, within_limit};

verus! {

/// Tuning of the first-person camera.
#[derive(Clone, Copy, Debug, PartialEq, Eq, Structural)]
pub struct FirstPersonConfig {
    /// Rate, per second, at which the shown position closes in on the camera's own.
    pub translation_smoothing: i64,
    /// Rate, per second, at which the shown orientation closes in on the camera's own.
    /// The third-person camera turns at this rate too.
    pub rotation_smoothing: i64,
    /// Smallest angle the view may keep from straight up.
    pub most_acute_from_above: i64,
    /// Smallest angle the view may keep from straight down.
    pub most_acute_from_below: i64,
}

/// Tuning of the third-person orbit camera.
#[derive(Clone, Copy, Debug, PartialEq, Eq, Structural)]
pub struct ThirdPersonConfig {
    /// Rate at which the shown position follows when the eye was moved toward the pivot.
    pub translation_smoothing_going_closer: i64,
    /// Rate at which the shown position follows otherwise.
    pub translation_smoothing_going_further: i64,
    /// Smallest angle the view may keep from straight up.
    pub most_acute_from_above: i64,
    /// Smallest angle the view may keep from straight down.
    pub most_acute_from_below: i64,
    /// Change of orbit distance per unit of zoom input.
    pub zoom_speed: i64,
    /// Shortest orbit distance.
    pub min_distance: i64,
    /// Longest orbit distance.
    pub max_distance: i64,
    /// Clearance the eye keeps from whatever blocks the view.
    pub min_distance_to_objects: i64,
}

/// Everything the cameras read from configuration.
#[derive(Clone, Copy, Debug, PartialEq, Eq, Structural)]
pub struct CameraConfig {
    /// Yaw, in radians, per unit of pan along the first axis.
    pub mouse_sensitivity_x: i64,
    /// Pitch, in radians, per unit of pan along the second axis.
    pub mouse_sensitivity_y: i64,
    pub first_person: FirstPersonConfig,
    pub third_person: ThirdPersonConfig,
}

/// Two pitch limits that leave at least one allowed angle between them.
pub open spec fn pitch_limits_wf(from_above: int, from_below: int) -> bool {
    &&& 0 <= from_above
    &&& 0 <= from_below
    &&& from_above + from_below <= HALF_TURN
}

/// A smoothing rate the solver can work with.
pub open spec fn rate_wf(rate: int) -> bool {
    0 <= rate <= LIMIT
}

impl FirstPersonConfig {
    /// The rates are in range and the pitch limits leave room between them.
    pub open spec fn wf(self) -> bool {
        &&& rate_wf(self.translation_smoothing as int)
        &&& rate_wf(self.rotation_smoothing as int)
        &&& pitch_limits_wf(self.most_acute_from_above as int, self.most_acute_from_below as int)
    }

    /// Tells whether the values are ones the solver can work with.
    pub fn is_valid(&self) -> (r: bool)
        ensures
            r == self.wf(),
    {
        0 <= self.translation_smoothing && self.translation_smoothing <= LIMIT && 0
            <= self.rotation_smoothing && self.rotation_smoothing <= LIMIT
            && pitch_limits_valid(self.most_acute_from_above, self.most_acute_from_below)
    }
}

impl ThirdPersonConfig {
    /// The rates, the zoom speed and the clearance are in range, the pitch limits
    /// leave room between them, and the shortest orbit distance is no longer than
    /// the longest.
    pub open spec fn wf(self) -> bool {
        &&& rate_wf(self.translation_smoothing_going_closer as int)
        &&& rate_wf(self.translation_smoothing_going_further as int)
        &&& pitch_limits_wf(self.most_acute_from_above as int, self.most_acute_from_below as int)
        &&& in_limit(self.zoom_speed as int)
        &&& 0 <= self.min_distance <= self.max_distance <= LIMIT
        &&& 0 <= self.min_distance_to_objects <= LIMIT
    }

    /// Tells whether the values are ones the solver can work with.
    pub fn is_valid(&self) -> (r: bool)
        ensures
            r == self.wf(),
    {
        0 <= self.translation_smoothing_going_closer && self.translation_smoothing_going_closer
            <= LIMIT && 0 <= self.translation_smoothing_going_further
            && self.translation_smoothing_going_further <= LIMIT && pitch_limits_valid(
            self.most_acute_from_above,
            self.most_acute_from_below,
        ) && within_limit(self.zoom_speed) && 0 <= self.min_distance && self.min_distance
            <= self.max_distance && self.max_distance <= LIMIT && 0
            <= self.min_distance_to_objects && self.min_distance_to_objects <= LIMIT
    }
}

impl CameraConfig {
    /// The sensitivities are in range and both cameras' values are well formed.
    pub open spec fn wf(self) -> bool {
        &&& in_limit(self.mouse_sensitivity_x as int)
        &&& in_limit(self.mouse_sensitivity_y as int)
        &&& self.first_person.wf()
        &&& self.third_person.wf()
    }

    /// Tells whether the values are ones the solver can work with.
    pub fn is_valid(&self) -> (r: bool)
        ensures
            r == self.wf(),
    {
        within_limit(self.mouse_sensitivity_x) && within_limit(self.mouse_sensitivity_y)
            && self.first_person.is_valid() && self.third_person.is_valid()
    }
}

/// Tells whether two pitch limits leave an allowed angle between them.
pub fn pitch_limits_valid(from_above: i64, from_below: i64) -> (r: bool)
    ensures
        r == pitch_limits_wf(from_above as int, from_below as int),
{
    0 <= from_above && 0 <= from_below && from_above <= HALF_TURN && from_below <= HALF_TURN
        - from_above
}

impl Default for FirstPersonConfig {
    /// All values zero.
    fn default() -> (c: FirstPersonConfig)
        ensures
            c == (FirstPersonConfig {
                translation_smoothing: 0,
                rotation_smoothing: 0,
                most_acute_from_above: 0,
                most_acute_from_below: 0,
            }),
    {
        FirstPersonConfig {
            translation_smoothing: 0,
            rotation_smoothing: 0,
            most_acute_from_above: 0,
            most_acute_from_below: 0,
        }
    }
}

impl Default for ThirdPersonConfig {
    /// All values zero.
    fn default() -> (c: ThirdPersonConfig)
        ensures
            c == (ThirdPersonConfig {
                translation_smoothing_going_closer: 0,
                translation_smoothing_going_further: 0,
                most_acute_from_above: 0,
                most_acute_from_below: 0,
                zoom_speed: 0,
                min_distance: 0,
                max_distance: 0,
                min_distance_to_objects: 0,
            }),
    {
        ThirdPersonConfig {
            translation_smoothing_going_closer: 0,
            translation_smoothing_going_further: 0,
            most_acute_from_above: 0,
            most_acute_from_below: 0,
            zoom_speed: 0,
            min_distance: 0,
            max_distance: 0,
            min_distance_to_objects: 0,
        }
    }
}

impl Default for CameraConfig {
    /// All values zero.
    fn default() -> (c: CameraConfig)
        ensures
            c.mouse_sensitivity_x == 0,
            c.mouse_sensitivity_y == 0,
            c.first_person == (FirstPersonConfig {
                translation_smoothing: 0,
                rotation_smoothing: 0,
                most_acute_from_above: 0,
                most_acute_from_below: 0,
            }),
            c.third_person == (ThirdPersonConfig {
                translation_smoothing_going_closer: 0,
                translation_smoothing_going_further: 0,
                most_acute_from_above: 0,
                most_acute_from_below: 0,
                zoom_speed: 0,
                min_distance: 0,
                max_distance: 0,
                min_distance_to_objects: 0,
            }),
            c.wf(),
    {
        CameraConfig {
            mouse_sensitivity_x: 0,
            mouse_sensitivity_y: 0,
            first_person: FirstPersonConfig::default(),
            third_person: ThirdPersonConfig::default(),
        }
    }
}

} // verus!
