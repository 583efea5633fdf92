//! What the solver asks of its host, and what the host answers.
//!
//! Turning an orientation, measuring an angle and casting a ray are the host's
//! work. The solver names the work in a [`HostRequest`], the host does it and
//! hands the result back in a [`HostReply`].

use vstd::prelude::*;
use crate::fixed::{HALF_TURN, LIMIT};
use crate::input::CameraInput;
use crate::vector::{Quat, Transform, Vec3};

verus! {

/// One piece of work for the host.
#[derive(Clone, Copy, Debug, PartialEq, Eq, Structural)]
pub enum HostRequest {
    /// The orientation that looks from `eye` at `target`, with `up` upward.
    /// Answered by [`HostReply::Rotation`].
    LookAt { eye: Vec3, target: Vec3, up: Vec3 },
    /// The angle between two directions. Answered by [`HostReply::Angle`].
    AngleBetween { from: Vec3, to: Vec3 },
    /// `rotation` turned in place: by `pitch` about its own right axis, then by
    /// `yaw` about `up`. Answered by [`HostReply::Rotation`].
    Rotate { rotation: Quat, up: Vec3, yaw: i64, pitch: i64 },
    /// `rotation` tilted by `angle` about its own right axis.
    /// Answered by [`HostReply::Rotation`].
    Tilt { rotation: Quat, angle: i64 },
    /// `transform` carried around `pivot`: by `pitch` about its own right axis,
    /// then by `yaw` about `up`. Answered by [`HostReply::Pose`].
    Orbit { transform: Transform, pivot: Vec3, up: Vec3, yaw: i64, pitch: i64 },
    /// `transform` carried around `pivot` along the shortest arc that turns the
    /// direction of `from` into the direction of `to`. Answered by [`HostReply::Pose`].
    Align { transform: Transform, pivot: Vec3, from: Vec3, to: Vec3 },
    /// The distance from `origin` along `direction` to the nearest solid, fixed
    /// surface that is no sensor and no further than `max_distance`.
    /// Answered by [`HostReply::Hit`].
    CastRay { origin: Vec3, direction: Vec3, max_distance: i64 },
    /// The orientation the fraction `factor` of the way from `start` to `end`,
    /// along the shortest arc. Answered by [`HostReply::Rotation`].
    Slerp { start: Quat, end: Quat, factor: i64 },
}

/// The result of one piece of work.
#[derive(Clone, Copy, Debug, PartialEq, Eq, Structural)]
pub enum HostReply {
    /// An orientation.
    Rotation(Quat),
    /// A pose: an eye position with its orientation.
    Pose(Transform),
    /// An angle between nothing and half a turn.
    Angle(i64),
    /// The distance at which a ray hit, or `None` where it hit nothing.
    Hit(Option<i64>),
}

impl HostRequest {
    /// How far into an update the request stands: each later request of one
    /// update stands further in than the one before.
    pub open spec fn stage(self) -> nat {
        match self {
            HostRequest::LookAt { .. } => 0,
            HostRequest::Tilt { .. } => 0,
            HostRequest::Align { .. } => 0,
            HostRequest::AngleBetween { .. } => 1,
            HostRequest::Rotate { .. } => 2,
            HostRequest::Orbit { .. } => 2,
            HostRequest::CastRay { .. } => 3,
            HostRequest::Slerp { .. } => 4,
        }
    }
}

impl HostReply {
    /// The values are ones the solver can work with.
    pub open spec fn wf(self) -> bool {
        match self {
            HostReply::Rotation(q) => q.wf(),
            HostReply::Pose(t) => t.wf(),
            HostReply::Angle(a) => 0 <= a <= HALF_TURN,
            HostReply::Hit(Some(d)) => 0 <= d <= LIMIT,
            HostReply::Hit(None) => true,
        }
    }

    /// The reply is of the kind that answers `request`, with values the solver can
    /// work with.
    pub open spec fn answers(self, request: HostRequest) -> bool {
        self.wf() && match request {
            HostRequest::LookAt { .. } => self is Rotation,
            HostRequest::AngleBetween { .. } => self is Angle,
            HostRequest::Rotate { .. } => self is Rotation,
            HostRequest::Tilt { .. } => self is Rotation,
            HostRequest::Orbit { .. } => self is Pose,
            HostRequest::Align { .. } => self is Pose,
            HostRequest::CastRay { .. } => self is Hit,
            HostRequest::Slerp { .. } => self is Rotation,
        }
    }

    /// Tells whether the values are ones the solver can work with.
    pub fn is_valid(&self) -> (r: bool)
        ensures
            r == self.wf(),
    {
        match self {
            HostReply::Rotation(q) => q.is_valid(),
            HostReply::Pose(t) => t.is_valid(),
            HostReply::Angle(a) => 0 <= *a && *a <= HALF_TURN,
            HostReply::Hit(Some(d)) => 0 <= *d && *d <= LIMIT,
            HostReply::Hit(None) => true,
        }
    }

    /// Tells whether this reply answers `request`.
    pub fn is_answer_to(&self, request: &HostRequest) -> (r: bool)
        ensures
            r == self.answers(*request),
    {
        self.is_valid() && match request {
            HostRequest::LookAt { .. } => matches!(self, HostReply::Rotation(_)),
            HostRequest::AngleBetween { .. } => matches!(self, HostReply::Angle(_)),
            HostRequest::Rotate { .. } => matches!(self, HostReply::Rotation(_)),
            HostRequest::Tilt { .. } => matches!(self, HostReply::Rotation(_)),
            HostRequest::Orbit { .. } => matches!(self, HostReply::Pose(_)),
            HostRequest::Align { .. } => matches!(self, HostReply::Pose(_)),
            HostRequest::CastRay { .. } => matches!(self, HostReply::Hit(_)),
            HostRequest::Slerp { .. } => matches!(self, HostReply::Rotation(_)),
        }
    }
}

/// One update in flight: what the caller handed in, and what the host was last
/// asked.
#[derive(Clone, Copy, Debug, PartialEq, Eq, Structural)]
pub struct Frame {
    /// Length of the step, in millionths of a second.
    pub dt: u64,
    /// The input sampled for this update.
    pub input: CameraInput,
    /// The pose shown so far, on its way to the pose to show next.
    pub transform: Transform,
    /// The work the host has yet to answer.
    pub pending: HostRequest,
}

/// Where an update stands after the solver has done its part.
#[derive(Clone, Copy, Debug, PartialEq, Eq, Structural)]
pub enum Step {
    /// The host is to do `pending` of the frame and resume the update with the result.
    Ask(Frame),
    /// The update is complete: this is the pose to show.
    Done(Transform),
}

impl Frame {
    /// The input and the shown pose are in range.
    pub open spec fn wf(self) -> bool {
        &&& self.input.wf()
        &&& self.transform.wf()
    }

    /// Tells whether the values are ones the solver can work with.
    pub fn is_valid(&self) -> (r: bool)
        ensures
            r == self.wf(),
    {
        self.input.is_valid() && self.transform.is_valid()
    }
}

} // verus!
