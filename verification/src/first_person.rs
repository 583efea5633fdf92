//! The first-person camera: it stands where it is put and turns with the pan,
//! or keeps looking at a target.

use vstd::prelude::*;
use vstd::std_specs::convert::FromSpecImpl;
use crate::config::CameraConfig;
use crate::fixed::{HALF_TURN, LIMIT, ONE, mul_scaled, scaled, smoothing, smoothing_factor};
use crate::host::{Frame, HostReply, HostRequest, Step};
use crate::input::{CameraInput, InputError};
use crate::pitch::{allowed_pitch, clamp_pitch};
use crate::third_person::ThirdPersonCamera;
use crate::vector::{Quat, Transform, Vec2, Vec3};

verus! {

/// A camera that sees from where it stands.
#[derive(Clone, Copy, Debug, PartialEq, Eq, Structural)]
pub struct FirstPersonCamera {
    /// The pose the camera is heading for.
    pub transform: Transform,
    /// A point to keep looking at, if any.
    pub look_target: Option<Vec3>,
    /// The unit vector that points up.
    pub up: Vec3,
    pub config: CameraConfig,
}

impl FirstPersonCamera {
    /// The values are ones the solver can work with.
    pub open spec fn wf(self) -> bool {
        &&& self.transform.translation.within(LIMIT as int)
        &&& self.transform.rotation.wf()
        &&& self.up.is_axis()
        &&& (self.look_target matches Some(t) ==> t.within(LIMIT as int))
        &&& self.config.wf()
    }

    /// The direction in which the camera looks.
    pub open spec fn forward_axis(self) -> Vec3 {
        self.transform.forward_axis()
    }

    /// The camera turned to `rotation`.
    pub open spec fn turned(self, rotation: Quat) -> FirstPersonCamera {
        FirstPersonCamera {
            transform: Transform { translation: self.transform.translation, rotation },
            ..self
        }
    }

    /// The request for the orientation that looks at `target`.
    pub open spec fn looking_at(self, target: Vec3) -> HostRequest {
        HostRequest::LookAt { eye: self.transform.translation, target, up: self.up }
    }

    /// The request to turn in place by a yaw and a pitch.
    pub open spec fn turning(self, yaw: i64, pitch: i64) -> HostRequest {
        HostRequest::Rotate { rotation: self.transform.rotation, up: self.up, yaw, pitch }
    }

    /// The yaw and the pitch by which a pan of `camera_movement` turns the camera
    /// whose view stands at `angle_from_up` from up.
    pub open spec fn controls(self, camera_movement: Vec2, angle_from_up: int) -> (int, int) {
        (
            -scaled(camera_movement.x as int, self.config.mouse_sensitivity_x as int),
            allowed_pitch(
                angle_from_up,
                -scaled(camera_movement.y as int, self.config.mouse_sensitivity_y as int),
                self.config.first_person.most_acute_from_above as int,
                self.config.first_person.most_acute_from_below as int,
            ),
        )
    }

    /// The shown pose moved toward the camera's own for a step of `dt`: the
    /// position as far as it goes, and the request for the orientation.
    pub open spec fn smoothed(self, dt: u64, transform: Transform) -> (Transform, HostRequest) {
        (
            Transform {
                translation: transform.translation.blend(
                    self.transform.translation,
                    smoothing(self.config.first_person.translation_smoothing as int, dt as int),
                ),
                rotation: transform.rotation,
            },
            HostRequest::Slerp {
                start: transform.rotation,
                end: self.transform.rotation,
                factor: smoothing(
                    self.config.first_person.rotation_smoothing as int,
                    dt as int,
                ) as i64,
            },
        )
    }

    /// What the start of an update asks or fails with: the orientation toward
    /// the look target where there is one; else the view's angle from up, to turn
    /// by the pan, and the error where there is no pan to read.
    pub open spec fn begun(self, dt: u64, input: CameraInput, transform: Transform) -> Result<
        Step,
        InputError,
    > {
        match self.look_target {
            Some(look_target) => Ok(
                Step::Ask(Frame { dt, input, transform, pending: self.looking_at(look_target) }),
            ),
            None => match input.pan {
                None => Err(InputError::PanNotAxisPair),
                Some(_) => Ok(
                    Step::Ask(
                        Frame {
                            dt,
                            input,
                            transform,
                            pending: HostRequest::AngleBetween {
                                from: self.forward_axis(),
                                to: self.up,
                            },
                        },
                    ),
                ),
            },
        }
    }

    /// What the camera does once it has its new orientation: it moves the shown
    /// pose toward its own.
    pub open spec fn after_turn(self, frame: Frame, rotation: Quat) -> (
        FirstPersonCamera,
        Result<Step, InputError>,
    ) {
        let camera = self.turned(rotation);
        let (transform, pending) = camera.smoothed(frame.dt, frame.transform);
        (camera, Ok(Step::Ask(Frame { transform, pending, ..frame })))
    }

    /// What a reply does to the camera and to the update in flight.
    ///
    /// A reply that does not answer the pending request changes nothing: the
    /// request stands.
    pub open spec fn resumed(self, frame: Frame, reply: HostReply) -> (
        FirstPersonCamera,
        Result<Step, InputError>,
    ) {
        if !reply.answers(frame.pending) {
            (self, Ok(Step::Ask(frame)))
        } else {
            match (frame.pending, reply) {
                (HostRequest::LookAt { .. }, HostReply::Rotation(rotation)) => self.after_turn(
                    frame,
                    rotation,
                ),
                (HostRequest::AngleBetween { .. }, HostReply::Angle(angle)) => match frame.input.pan {
                    None => (self, Err(InputError::PanNotAxisPair)),
                    Some(pan) => (
                        self,
                        Ok(
                            Step::Ask(
                                Frame {
                                    pending: self.turning(
                                        self.controls(pan, angle as int).0 as i64,
                                        self.controls(pan, angle as int).1 as i64,
                                    ),
                                    ..frame
                                },
                            ),
                        ),
                    ),
                },
                (HostRequest::Rotate { .. }, HostReply::Rotation(rotation)) => self.after_turn(
                    frame,
                    rotation,
                ),
                (HostRequest::Slerp { .. }, HostReply::Rotation(rotation)) => (
                    self,
                    Ok(
                        Step::Done(
                            Transform { translation: frame.transform.translation, rotation },
                        ),
                    ),
                ),
                _ => (self, Ok(Step::Ask(frame))),
            }
        }
    }

    /// The first-person camera that takes over from a third-person one: it
    /// stands on the pivot, turned as the orbiting camera was, and looks at what
    /// was the secondary target.
    pub open spec fn of_third_person(camera: ThirdPersonCamera) -> FirstPersonCamera {
        FirstPersonCamera {
            transform: Transform {
                translation: camera.target,
                rotation: camera.transform.rotation,
            },
            look_target: camera.secondary_target,
            up: camera.up,
            config: camera.config,
        }
    }

    /// Tells whether the values are ones the solver can work with.
    pub fn is_valid(&self) -> (r: bool)
        ensures
            r == self.wf(),
    {
        self.transform.translation.is_within(LIMIT) && self.transform.rotation.is_valid()
            && self.up.is_valid_axis() && match self.look_target {
            Some(t) => t.is_within(LIMIT),
            None => true,
        } && self.config.is_valid()
    }

    /// The direction in which the camera looks.
    pub fn forward(&self) -> (r: Vec3)
        requires
            self.transform.rotation.wf(),
        ensures
            r == self.forward_axis(),
            r.within(4 * ONE),
    {
        self.transform.forward()
    }

    /// Starts an update for a step of `dt` from the pose `transform` that is shown
    /// now.
    ///
    /// The update turns the camera toward its look target where it has one, and
    /// by the pan where it has none, then moves the shown pose toward the result.
    /// The turning is the host's work: the update stops at each piece of it with
    /// [`Step::Ask`] and goes on in [`FirstPersonCamera::resume`]. It fails where
    /// there is no look target and the pan is no axis pair.
    pub fn update_transform(&mut self, dt: u64, input: &CameraInput, transform: Transform) -> (r:
        Result<Step, InputError>)
        requires
            old(self).wf(),
            input.wf(),
            transform.wf(),
        ensures
            r == old(self).begun(dt, *input, transform),
            *final(self) == *old(self),
            r matches Ok(Step::Ask(next)) ==> next.wf(),
    {
        if let Some(look_target) = self.look_target {
            Ok(Step::Ask(Frame { dt, input: *input, transform, pending: self.look_at(look_target) }))
        } else {
            match input.axis_pair() {
                Err(e) => Err(e),
                Ok(_) => Ok(
                    Step::Ask(
                        Frame {
                            dt,
                            input: *input,
                            transform,
                            pending: HostRequest::AngleBetween { from: self.forward(), to: self.up },
                        },
                    ),
                ),
            }
        }
    }

    /// Goes on with an update once the host has answered the pending request.
    ///
    /// A reply that does not answer the pending request changes nothing, and the
    /// same request is asked again.
    pub fn resume(&mut self, frame: Frame, reply: HostReply) -> (r: Result<Step, InputError>)
        requires
            old(self).wf(),
            frame.wf(),
        ensures
            (*final(self), r) == old(self).resumed(frame, reply),
            final(self).wf(),
            r matches Ok(Step::Ask(next)) ==> next.wf(),
            r matches Ok(Step::Done(shown)) ==> shown.wf(),
    {
        if !reply.is_answer_to(&frame.pending) {
            return Ok(Step::Ask(frame));
        }
        match (frame.pending, reply) {
            (HostRequest::LookAt { .. }, HostReply::Rotation(rotation)) => {
                self.transform.rotation = rotation;
                let (transform, pending) = self.get_camera_transform(frame.dt, frame.transform);
                Ok(Step::Ask(Frame { dt: frame.dt, input: frame.input, transform, pending }))
            },
            (HostRequest::AngleBetween { .. }, HostReply::Angle(angle)) => {
                match frame.input.axis_pair() {
                    Err(e) => Err(e),
                    Ok(camera_movement) => {
                        let pending = self.handle_camera_controls(camera_movement, angle);
                        Ok(
                            Step::Ask(
                                Frame {
                                    dt: frame.dt,
                                    input: frame.input,
                                    transform: frame.transform,
                                    pending,
                                },
                            ),
                        )
                    },
                }
            },
            (HostRequest::Rotate { .. }, HostReply::Rotation(rotation)) => {
                self.transform.rotation = rotation;
                let (transform, pending) = self.get_camera_transform(frame.dt, frame.transform);
                Ok(Step::Ask(Frame { dt: frame.dt, input: frame.input, transform, pending }))
            },
            (HostRequest::Slerp { .. }, HostReply::Rotation(rotation)) => {
                Ok(Step::Done(Transform { translation: frame.transform.translation, rotation }))
            },
            _ => Ok(Step::Ask(frame)),
        }
    }

    /// Moves the shown pose toward the camera's own for a step of `dt`: the
    /// position at the rate for translation, and, by the returned request, the
    /// orientation at the rate for rotation.
    pub fn get_camera_transform(&self, dt: u64, transform: Transform) -> (r: (
        Transform,
        HostRequest,
    ))
        requires
            self.wf(),
            transform.wf(),
        ensures
            r == self.smoothed(dt, transform),
            r.0.wf(),
    {
        let translation_smoothing: i64 = self.config.first_person.translation_smoothing;
        let scale: i64 = smoothing_factor(translation_smoothing, dt);
        let translation = transform.translation.lerp(self.transform.translation, scale);

        let rotation_smoothing: i64 = self.config.first_person.rotation_smoothing;
        let scale: i64 = smoothing_factor(rotation_smoothing, dt);
        (
            Transform { translation, rotation: transform.rotation },
            HostRequest::Slerp { start: transform.rotation, end: self.transform.rotation, factor: scale },
        )
    }

    /// Turns a pan into the request to turn in place by a yaw and a pitch, the
    /// pitch cut back to this camera's limits. `angle_from_up` is the angle
    /// between the view and up.
    pub fn handle_camera_controls(&self, camera_movement: Vec2, angle_from_up: i64) -> (r:
        HostRequest)
        requires
            self.wf(),
            camera_movement.within(LIMIT as int),
            0 <= angle_from_up <= HALF_TURN,
        ensures
            r == self.turning(
                self.controls(camera_movement, angle_from_up as int).0 as i64,
                self.controls(camera_movement, angle_from_up as int).1 as i64,
            ),
    {
        let yaw: i64 = -mul_scaled(camera_movement.x, self.config.mouse_sensitivity_x);
        let pitch: i64 = -mul_scaled(camera_movement.y, self.config.mouse_sensitivity_y);
        let pitch: i64 = self.clamp_pitch(angle_from_up, pitch);
        self.rotate(yaw, pitch)
    }

    /// The request for the orientation that looks at `target`.
    pub fn look_at(&self, target: Vec3) -> (r: HostRequest)
        ensures
            r == self.looking_at(target),
    {
        let up = self.up;
        HostRequest::LookAt { eye: self.transform.translation, target, up }
    }

    /// The request to turn in place by `yaw` about up and by `pitch` about the
    /// camera's own right axis.
    pub fn rotate(&self, yaw: i64, pitch: i64) -> (r: HostRequest)
        ensures
            r == self.turning(yaw, pitch),
    {
        HostRequest::Rotate { rotation: self.transform.rotation, up: self.up, yaw, pitch }
    }

    /// Cuts a pitch change back to this camera's limits.
    pub fn clamp_pitch(&self, angle_from_up: i64, angle: i64) -> (r: i64)
        requires
            self.config.wf(),
            0 <= angle_from_up <= HALF_TURN,
        ensures
            r == allowed_pitch(
                angle_from_up as int,
                angle as int,
                self.config.first_person.most_acute_from_above as int,
                self.config.first_person.most_acute_from_below as int,
            ),
    {
        clamp_pitch(
            angle_from_up,
            angle,
            self.config.first_person.most_acute_from_above,
            self.config.first_person.most_acute_from_below,
        )
    }
}

/// Switching to the third-person camera and back leaves the camera where it
/// stood, with the same look target, up axis and configuration, whatever
/// orientation the host found for the third-person camera. On the way, the
/// pivot is where the camera stood, and the eye lies behind it by the shortest
/// orbit distance times the direction the camera looked in: from there to the
/// pivot, the third-person camera looks the way the first-person camera did.
pub proof fn lemma_round_trip_keeps_place(camera: FirstPersonCamera, rotation: Quat)
    requires
        camera.wf(),
    ensures
        ({
            let orbiting = ThirdPersonCamera::of_first_person(camera, rotation);
            let back = FirstPersonCamera::of_third_person(orbiting);
            let step_back = camera.forward_axis().scaled_by(
                camera.config.third_person.min_distance as int,
            );
            &&& orbiting.target == camera.transform.translation
            &&& orbiting.distance == camera.config.third_person.min_distance
            &&& orbiting.transform.translation == camera.transform.translation.difference(
                step_back,
            )
            &&& orbiting.target.difference(orbiting.transform.translation) == step_back
            &&& back.transform.translation == camera.transform.translation
            &&& back.transform.rotation == rotation
            &&& back.look_target == camera.look_target
            &&& back.up == camera.up
            &&& back.config == camera.config
        }),
{
    crate::vector::lemma_forward_in_range(camera.transform.rotation);
    crate::vector::lemma_scaled_direction_in_range(
        camera.forward_axis(),
        camera.config.third_person.min_distance as int,
    );
}

/// An update changes nothing of the camera but the way it is turned: it stays
/// where it stands, with its look target, its up axis and its configuration.
pub proof fn lemma_first_person_update_only_turns(
    camera: FirstPersonCamera,
    frame: Frame,
    reply: HostReply,
)
    ensures
        ({
            let resumed = camera.resumed(frame, reply).0;
            &&& resumed.transform.translation == camera.transform.translation
            &&& resumed.look_target == camera.look_target
            &&& resumed.up == camera.up
            &&& resumed.config == camera.config
        }),
{
}

/// Whatever the pan and wherever the view stands, the pitch that an update asks
/// its host to turn by leads to an angle from up between this camera's limits.
pub proof fn lemma_turn_keeps_pitch_within_limits(
    camera: FirstPersonCamera,
    frame: Frame,
    angle: i64,
)
    requires
        camera.config.wf(),
        frame.pending is AngleBetween,
        frame.input.pan is Some,
        0 <= angle <= HALF_TURN,
    ensures
        camera.resumed(frame, HostReply::Angle(angle)).1 matches Ok(Step::Ask(next))
            && next.pending matches HostRequest::Rotate { pitch, .. }
            && camera.config.first_person.most_acute_from_above <= angle - pitch <= HALF_TURN
            - camera.config.first_person.most_acute_from_below,
{
    assert(HostReply::Angle(angle).answers(frame.pending));
}

/// An answered request is never asked again in the same update: what a reply
/// leads to is the end of the update, its failure, or a request that stands
/// further in. So an update asks its host at most four times.
pub proof fn lemma_first_person_update_advances(
    camera: FirstPersonCamera,
    frame: Frame,
    reply: HostReply,
)
    requires
        reply.answers(frame.pending),
        frame.pending is LookAt || frame.pending is AngleBetween || frame.pending is Rotate
            || frame.pending is Slerp,
    ensures
        camera.resumed(frame, reply).1 matches Ok(Step::Ask(next)) ==> {
            &&& frame.pending.stage() < next.pending.stage() <= 4
            &&& next.pending is Rotate || next.pending is Slerp
        },
        frame.pending is Slerp ==> camera.resumed(frame, reply).1 is Ok && camera.resumed(
            frame,
            reply,
        ).1->Ok_0 is Done,
{
}

/// However long the step, the shown position never passes the camera's own: each
/// of its coordinates ends between where it was and where the camera is. Once
/// rate times step length reaches one, the shown position is exactly the
/// camera's own, and the orientation is asked for the whole way.
pub proof fn lemma_first_person_smoothing_saturates(
    camera: FirstPersonCamera,
    dt: u64,
    transform: Transform,
)
    requires
        camera.wf(),
        transform.wf(),
    ensures
        ({
            let (shown, pending) = camera.smoothed(dt, transform);
            let goal = camera.transform.translation;
            let start = transform.translation;
            &&& start.x <= goal.x ==> start.x <= shown.translation.x <= goal.x
            &&& goal.x <= start.x ==> goal.x <= shown.translation.x <= start.x
            &&& start.y <= goal.y ==> start.y <= shown.translation.y <= goal.y
            &&& goal.y <= start.y ==> goal.y <= shown.translation.y <= start.y
            &&& start.z <= goal.z ==> start.z <= shown.translation.z <= goal.z
            &&& goal.z <= start.z ==> goal.z <= shown.translation.z <= start.z
            &&& camera.config.first_person.translation_smoothing * dt >= ONE * ONE
                ==> shown.translation == goal
            &&& pending matches HostRequest::Slerp { start, end, factor } && start == transform.rotation
                && end == camera.transform.rotation && 0 <= factor <= ONE
            &&& camera.config.first_person.rotation_smoothing * dt >= ONE * ONE ==> pending
                == (HostRequest::Slerp {
                start: transform.rotation,
                end: camera.transform.rotation,
                factor: ONE,
            })
        }),
{
    let rate = camera.config.first_person.translation_smoothing as int;
    let f = smoothing(rate, dt as int);
    crate::fixed::lemma_smoothing_saturates(rate, dt as int);
    crate::fixed::lemma_smoothing_saturates(
        camera.config.first_person.rotation_smoothing as int,
        dt as int,
    );
    let goal = camera.transform.translation;
    let start = transform.translation;
    crate::vector::lemma_blend_between(start.x as int, goal.x as int, f);
    crate::vector::lemma_blend_between(start.y as int, goal.y as int, f);
    crate::vector::lemma_blend_between(start.z as int, goal.z as int, f);
}

impl Default for FirstPersonCamera {
    /// A camera at the origin that looks along the negative third axis, with the
    /// second axis up, no look target and the default configuration.
    fn default() -> (camera: FirstPersonCamera)
        ensures
            camera.transform == (Transform {
                translation: Vec3 { x: 0, y: 0, z: 0 },
                rotation: Quat { x: 0, y: 0, z: 0, w: ONE },
            }),
            camera.look_target is None,
            camera.up == (Vec3 { x: 0, y: ONE, z: 0 }),
            camera.config.wf(),
            camera.wf(),
    {
        FirstPersonCamera {
            transform: Transform::identity(),
            look_target: None,
            up: Vec3::unit_y(),
            config: CameraConfig::default(),
        }
    }
}

impl From<&ThirdPersonCamera> for FirstPersonCamera {
    /// The first-person camera that takes over from a third-person one.
    fn from(camera: &ThirdPersonCamera) -> (r: FirstPersonCamera) {
        let transform = camera.transform.with_translation(camera.target);
        FirstPersonCamera {
            transform,
            look_target: camera.secondary_target,
            up: camera.up,
            config: camera.config,
        }
    }
}

impl FromSpecImpl<&ThirdPersonCamera> for FirstPersonCamera {
    open spec fn obeys_from_spec() -> bool {
        true
    }

    open spec fn from_spec(camera: &ThirdPersonCamera) -> FirstPersonCamera {
        FirstPersonCamera::of_third_person(*camera)
    }
}

} // verus!
