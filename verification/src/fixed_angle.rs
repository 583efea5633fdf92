//! The fixed-angle camera, as far as the other cameras need it: the state that
//! a third-person camera is made from.

use vstd::prelude::*;
use crate::config::CameraConfig;
use crate::fixed::{LIMIT, ONE};
use crate::vector::{Transform, Vec3};

verus! {

/// What a fixed-angle camera exposes.
#[derive(Clone, Copy, Debug, PartialEq, Eq, Structural)]
pub struct FixedAngleCamera {
    pub transform: Transform,
    pub target: Vec3,
    pub up: Vec3,
    pub secondary_target: Option<Vec3>,
    pub distance: i64,
    pub config: CameraConfig,
}

impl FixedAngleCamera {
    /// The values are ones the solver can work with.
    pub open spec fn wf(self) -> bool {
        &&& self.transform.wf()
        &&& self.target.within(LIMIT as int)
        &&& self.up.is_axis()
        &&& (self.secondary_target matches Some(s) ==> s.within(LIMIT as int))
        &&& 0 <= self.distance <= LIMIT
        &&& self.config.wf()
    }

    /// Tells whether the values are ones the solver can work with.
    pub fn is_valid(&self) -> (r: bool)
        ensures
            r == self.wf(),
    {
        self.transform.is_valid() && self.target.is_within(LIMIT) && self.up.is_valid_axis()
            && match self.secondary_target {
            Some(s) => s.is_within(LIMIT),
            None => true,
        } && 0 <= self.distance && self.distance <= LIMIT && self.config.is_valid()
    }
}

} // verus!
