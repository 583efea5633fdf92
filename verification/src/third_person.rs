//! The third-person camera: it orbits a pivot at a distance that the player
//! zooms and that obstacles cut short.

use vstd::prelude::*;
use crate::config::CameraConfig;
use crate::first_person::FirstPersonCamera;
use crate::fixed_angle::FixedAngleCamera;
use crate::fixed::{HALF_TURN, ONE, LIMIT, clamp, clamped, mul_scaled, scaled, smoothing, smoothing_factor};
use crate::host::{Frame, HostReply, HostRequest, Step};
use crate::input::{CameraInput, InputError};
use crate::pitch::{allowed_pitch, clamp_pitch};
use crate::vector::{Quat, Transform, Vec2, Vec3, REACH};

verus! {

/// How far, in squared length, the eye must come closer to the pivot before the
/// move counts as one toward it: a thousandth of a squared unit.
pub const SETTLED_SQUARED: i128 = 1_000_000_000;

/// Whether resolving the line of sight brought the eye closer to the pivot or
/// let it go further away.
#[derive(Clone, Copy, Debug, PartialEq, Eq, Structural)]
pub enum LineOfSightCorrection {
    Closer,
    Further,
}

/// Where the eye may stand, and which way it was moved to get there.
#[derive(Clone, Copy, Debug, PartialEq, Eq, Structural)]
pub struct LineOfSightResult {
    pub location: Vec3,
    pub correction: LineOfSightCorrection,
}

/// A camera that orbits `target`.
#[derive(Clone, Copy, Debug, PartialEq, Eq, Structural)]
pub struct ThirdPersonCamera {
    /// The pose the camera is heading for.
    pub transform: Transform,
    /// The pivot of the orbit.
    pub target: Vec3,
    /// The unit vector that points up.
    pub up: Vec3,
    /// A second point to keep in view beyond the pivot, if any.
    pub secondary_target: Option<Vec3>,
    /// The distance the eye keeps from the pivot where nothing is in the way.
    pub distance: i64,
    pub config: CameraConfig,
}

impl ThirdPersonCamera {
    /// The values are ones the solver can work with.
    pub open spec fn wf(self) -> bool {
        &&& self.transform.wf()
        &&& self.target.within(LIMIT as int)
        &&& self.up.is_axis()
        &&& (self.secondary_target matches Some(s) ==> s.within(LIMIT as int))
        &&& 0 <= self.distance <= LIMIT
        &&& self.config.wf()
    }

    /// The orbit distance lies between the configured shortest and longest.
    pub open spec fn distance_in_range(self) -> bool {
        self.config.third_person.min_distance <= self.distance
            <= self.config.third_person.max_distance
    }

    /// The direction in which the camera looks.
    pub open spec fn forward_axis(self) -> Vec3 {
        self.transform.forward_axis()
    }

    /// The orbit distance after a zoom input of `zoom`: shortened by the input
    /// times the zoom speed, and kept between the shortest and longest distance.
    pub open spec fn zoomed(self, zoom: int) -> int {
        clamped(
            self.distance - scaled(zoom, self.config.third_person.zoom_speed as int),
            self.config.third_person.min_distance as int,
            self.config.third_person.max_distance as int,
        )
    }

    /// The distance from the pivot at which the eye may stand, given where the ray
    /// from the pivot hit: short of the hit by the clearance, or the whole orbit
    /// distance where it hit nothing.
    pub open spec fn usable_distance(self, hit: Option<i64>) -> int {
        match hit {
            Some(d) => d - self.config.third_person.min_distance_to_objects,
            None => self.distance as int,
        }
    }

    /// The ray along which the eye is placed: from the pivot, against the viewing
    /// direction, as far as the orbit distance.
    pub open spec fn sight_ray(self) -> HostRequest {
        HostRequest::CastRay {
            origin: self.target,
            direction: self.forward_axis().negated(),
            max_distance: self.distance,
        }
    }

    /// Where the eye may stand, given where the ray from the pivot hit.
    pub open spec fn sight(self, hit: Option<i64>) -> LineOfSightResult {
        let d = self.usable_distance(hit);
        LineOfSightResult {
            location: self.target.sum(self.forward_axis().negated().scaled_by(d)),
            correction: if d * d < self.target.difference(
                self.transform.translation,
            ).norm_squared() - SETTLED_SQUARED {
                LineOfSightCorrection::Closer
            } else {
                LineOfSightCorrection::Further
            },
        }
    }

    /// The request that swings the eye around the pivot until, seen from above,
    /// the pivot lies in line with `secondary_target`; `None` where the secondary
    /// target lies on the pivot or straight above or below it.
    pub open spec fn alignment(self, secondary_target: Vec3) -> Option<HostRequest> {
        let to = secondary_target.difference(self.target).horizontal_part(self.up);
        if to.negligible() {
            None
        } else {
            Some(
                HostRequest::Align {
                    transform: self.transform,
                    pivot: self.target,
                    from: self.target.difference(self.transform.translation).horizontal_part(
                        self.up,
                    ),
                    to,
                },
            )
        }
    }

    /// The yaw and the pitch by which a pan of `camera_movement` turns the camera
    /// whose view stands at `angle_from_up` from up.
    pub open spec fn controls(self, camera_movement: Vec2, angle_from_up: int) -> (int, int) {
        (
            -scaled(camera_movement.x as int, self.config.mouse_sensitivity_x as int),
            allowed_pitch(
                angle_from_up,
                -scaled(camera_movement.y as int, self.config.mouse_sensitivity_y as int),
                self.config.third_person.most_acute_from_above as int,
                self.config.third_person.most_acute_from_below as int,
            ),
        )
    }

    /// The request to carry the camera around the pivot by a yaw and a pitch.
    pub open spec fn orbiting(self, yaw: i64, pitch: i64) -> HostRequest {
        HostRequest::Orbit { transform: self.transform, pivot: self.target, up: self.up, yaw, pitch }
    }

    /// The rate at which the shown position follows after a correction.
    pub open spec fn translation_rate(self, correction: LineOfSightCorrection) -> int {
        if correction == LineOfSightCorrection::Further {
            self.config.third_person.translation_smoothing_going_further as int
        } else {
            self.config.third_person.translation_smoothing_going_closer as int
        }
    }

    /// The shown pose moved toward the camera's own for a step of `dt`: the
    /// position as far as it goes, and the request for the orientation.
    pub open spec fn smoothed(
        self,
        dt: u64,
        transform: Transform,
        correction: LineOfSightCorrection,
    ) -> (Transform, HostRequest) {
        (
            Transform {
                translation: transform.translation.blend(
                    self.transform.translation,
                    smoothing(self.translation_rate(correction), dt as int),
                ),
                rotation: transform.rotation,
            },
            HostRequest::Slerp {
                start: transform.rotation,
                end: self.transform.rotation,
                factor: smoothing(
                    self.config.first_person.rotation_smoothing as int,
                    dt as int,
                ) as i64,
            },
        )
    }

    /// The camera with another pose.
    pub open spec fn posed(self, transform: Transform) -> ThirdPersonCamera {
        ThirdPersonCamera { transform, ..self }
    }

    /// What an update does once the pan has been applied: it zooms, and asks
    /// for the ray along which the eye is to be placed.
    pub open spec fn after_controls(self, dt: u64, input: CameraInput, transform: Transform) -> (
        ThirdPersonCamera,
        Result<Step, InputError>,
    ) {
        let camera = ThirdPersonCamera { distance: self.zoomed(input.zoom as int) as i64, ..self };
        (camera, Ok(Step::Ask(Frame { dt, input, transform, pending: camera.sight_ray() })))
    }

    /// What an update does once the eye is aligned: it reads the pan, fails where
    /// there is none, and asks for the view's angle from up where there is one
    /// worth turning by.
    pub open spec fn after_alignment(self, dt: u64, input: CameraInput, transform: Transform) -> (
        ThirdPersonCamera,
        Result<Step, InputError>,
    ) {
        match input.pan {
            None => (self, Err(InputError::PanNotAxisPair)),
            Some(pan) => if pan.negligible() {
                self.after_controls(dt, input, transform)
            } else {
                (
                    self,
                    Ok(
                        Step::Ask(
                            Frame {
                                dt,
                                input,
                                transform,
                                pending: HostRequest::AngleBetween {
                                    from: self.forward_axis(),
                                    to: self.up,
                                },
                            },
                        ),
                    ),
                )
            },
        }
    }

    /// What the start of an update does to the camera and what it asks or fails with.
    pub open spec fn begun(self, dt: u64, input: CameraInput, transform: Transform) -> (
        ThirdPersonCamera,
        Result<Step, InputError>,
    ) {
        match self.secondary_target {
            Some(secondary_target) => match self.alignment(secondary_target) {
                Some(pending) => (self, Ok(Step::Ask(Frame { dt, input, transform, pending }))),
                None => self.after_alignment(dt, input, transform),
            },
            None => self.after_alignment(dt, input, transform),
        }
    }

    /// What a reply does to the camera and to the update in flight.
    ///
    /// A reply that does not answer the pending request changes nothing: the
    /// request stands.
    pub open spec fn resumed(self, frame: Frame, reply: HostReply) -> (
        ThirdPersonCamera,
        Result<Step, InputError>,
    ) {
        if !reply.answers(frame.pending) {
            (self, Ok(Step::Ask(frame)))
        } else {
            match (frame.pending, reply) {
                (HostRequest::Align { .. }, HostReply::Pose(pose)) => self.posed(
                    pose,
                ).after_alignment(frame.dt, frame.input, frame.transform),
                (HostRequest::AngleBetween { .. }, HostReply::Angle(angle)) => match frame.input.pan {
                    None => (self, Err(InputError::PanNotAxisPair)),
                    Some(pan) => (
                        self,
                        Ok(
                            Step::Ask(
                                Frame {
                                    pending: self.orbiting(
                                        self.controls(pan, angle as int).0 as i64,
                                        self.controls(pan, angle as int).1 as i64,
                                    ),
                                    ..frame
                                },
                            ),
                        ),
                    ),
                },
                (HostRequest::Orbit { .. }, HostReply::Pose(pose)) => self.posed(
                    pose,
                ).after_controls(frame.dt, frame.input, frame.transform),
                (HostRequest::CastRay { .. }, HostReply::Hit(hit)) => {
                    let resolved = self.sight(hit);
                    let camera = self.posed(
                        Transform {
                            translation: resolved.location,
                            rotation: self.transform.rotation,
                        },
                    );
                    let (transform, pending) = camera.smoothed(
                        frame.dt,
                        frame.transform,
                        resolved.correction,
                    );
                    (camera, Ok(Step::Ask(Frame { transform, pending, ..frame })))
                },
                (HostRequest::Slerp { .. }, HostReply::Rotation(rotation)) => (
                    self,
                    Ok(
                        Step::Done(
                            Transform { translation: frame.transform.translation, rotation },
                        ),
                    ),
                ),
                _ => (self, Ok(Step::Ask(frame))),
            }
        }
    }

    /// The third-person camera that takes over from a first-person one, turned
    /// to `rotation`: the pivot is where the camera stood, the orbit distance is
    /// the shortest one, and the eye lies that far behind the pivot.
    pub open spec fn of_first_person(camera: FirstPersonCamera, rotation: Quat) -> ThirdPersonCamera {
        ThirdPersonCamera {
            transform: Transform {
                translation: camera.transform.translation.difference(
                    camera.forward_axis().scaled_by(camera.config.third_person.min_distance as int),
                ),
                rotation,
            },
            target: camera.transform.translation,
            up: camera.up,
            secondary_target: camera.look_target,
            distance: camera.config.third_person.min_distance,
            config: camera.config,
        }
    }

    /// The third-person camera that takes over from a fixed-angle one, turned to
    /// `rotation`: everything else is the fixed-angle camera's own.
    pub open spec fn of_fixed_angle(camera: FixedAngleCamera, rotation: Quat) -> ThirdPersonCamera {
        ThirdPersonCamera {
            transform: Transform { translation: camera.transform.translation, rotation },
            target: camera.target,
            up: camera.up,
            secondary_target: camera.secondary_target,
            distance: camera.distance,
            config: camera.config,
        }
    }

    /// The orbit distance after the zoom inputs `zooms`, in turn.
    pub open spec fn zoomed_through(self, zooms: Seq<i64>) -> int
        decreases zooms.len(),
    {
        if zooms.len() == 0 {
            self.distance as int
        } else {
            (ThirdPersonCamera {
                distance: self.zoomed_through(zooms.drop_last()) as i64,
                ..self
            }).zoomed(zooms.last() as int)
        }
    }

    /// Tells whether the values are ones the solver can work with.
    pub fn is_valid(&self) -> (r: bool)
        ensures
            r == self.wf(),
    {
        self.transform.is_valid() && self.target.is_within(LIMIT) && self.up.is_valid_axis()
            && match self.secondary_target {
            Some(s) => s.is_within(LIMIT),
            None => true,
        } && 0 <= self.distance && self.distance <= LIMIT && self.config.is_valid()
    }

    /// The direction in which the camera looks.
    pub fn forward(&self) -> (r: Vec3)
        requires
            self.transform.rotation.wf(),
        ensures
            r == self.forward_axis(),
            r.within(4 * ONE),
    {
        self.transform.forward()
    }

    /// Shortens the orbit distance by `zoom` times the zoom speed, and keeps it
    /// between the shortest and the longest distance.
    pub fn zoom(&mut self, zoom: i64)
        requires
            old(self).wf(),
            -LIMIT <= zoom <= LIMIT,
        ensures
            *final(self) == (ThirdPersonCamera {
                distance: old(self).zoomed(zoom as int) as i64,
                ..*old(self)
            }),
            final(self).distance == old(self).zoomed(zoom as int),
            final(self).distance_in_range(),
            final(self).wf(),
    {
        let change: i64 = mul_scaled(zoom, self.config.third_person.zoom_speed);
        self.distance = clamp(
            self.distance - change,
            self.config.third_person.min_distance,
            self.config.third_person.max_distance,
        );
    }

    /// Asks the host to swing the eye around the pivot until, seen from above, the
    /// pivot lies in line with `secondary_target`. Where the secondary target
    /// lies on the pivot, or straight above or below it, there is no direction to
    /// align with and nothing is asked.
    pub fn move_eye_to_align_target_with(&self, secondary_target: Vec3) -> (r: Option<HostRequest>)
        requires
            self.wf(),
            secondary_target.within(LIMIT as int),
        ensures
            r == self.alignment(secondary_target),
    {
        let target_to_secondary_target = secondary_target.minus(self.target).horizontal(self.up);
        if target_to_secondary_target.is_approx_zero() {
            return None;
        }
        let eye_to_target = self.target.minus(self.transform.translation).horizontal(self.up);
        Some(
            HostRequest::Align {
                transform: self.transform,
                pivot: self.target,
                from: eye_to_target,
                to: target_to_secondary_target,
            },
        )
    }

    /// The request to carry the camera around the pivot by `yaw` about up and by
    /// `pitch` about the camera's own right axis.
    pub fn rotate_around_target(&self, yaw: i64, pitch: i64) -> (r: HostRequest)
        ensures
            r == self.orbiting(yaw, pitch),
    {
        let pivot = self.target;
        HostRequest::Orbit { transform: self.transform, pivot, up: self.up, yaw, pitch }
    }

    /// Turns a pan into the request to orbit by a yaw and a pitch, the pitch cut
    /// back to this camera's limits. `angle_from_up` is the angle between the view
    /// and up.
    pub fn handle_camera_controls(&self, camera_movement: Vec2, angle_from_up: i64) -> (r:
        HostRequest)
        requires
            self.wf(),
            camera_movement.within(LIMIT as int),
            0 <= angle_from_up <= HALF_TURN,
        ensures
            r == self.orbiting(
                self.controls(camera_movement, angle_from_up as int).0 as i64,
                self.controls(camera_movement, angle_from_up as int).1 as i64,
            ),
    {
        let yaw: i64 = -mul_scaled(camera_movement.x, self.config.mouse_sensitivity_x);
        let pitch: i64 = -mul_scaled(camera_movement.y, self.config.mouse_sensitivity_y);
        let pitch: i64 = self.clamp_pitch(angle_from_up, pitch);
        self.rotate_around_target(yaw, pitch)
    }

    /// Cuts a pitch change back to this camera's limits.
    pub fn clamp_pitch(&self, angle_from_up: i64, angle: i64) -> (r: i64)
        requires
            self.config.wf(),
            0 <= angle_from_up <= HALF_TURN,
        ensures
            r == allowed_pitch(
                angle_from_up as int,
                angle as int,
                self.config.third_person.most_acute_from_above as int,
                self.config.third_person.most_acute_from_below as int,
            ),
    {
        clamp_pitch(
            angle_from_up,
            angle,
            self.config.third_person.most_acute_from_above,
            self.config.third_person.most_acute_from_below,
        )
    }

    /// The ray to cast for the line of sight: from the pivot, against the viewing
    /// direction, as far as the orbit distance.
    pub fn line_of_sight_ray(&self) -> (r: HostRequest)
        requires
            self.wf(),
        ensures
            r == self.sight_ray(),
    {
        HostRequest::CastRay {
            origin: self.target,
            direction: self.forward().neg(),
            max_distance: self.distance,
        }
    }

    /// The distance from the pivot at which the eye may stand, given the distance
    /// `hit` at which the line-of-sight ray struck: short of it by the clearance
    /// kept from objects, or the whole orbit distance where the ray struck nothing.
    pub fn get_raycast_distance(&self, hit: Option<i64>) -> (r: i64)
        requires
            self.wf(),
            hit matches Some(d) ==> 0 <= d <= LIMIT,
        ensures
            r == self.usable_distance(hit),
            hit matches Some(d) ==> d - r == self.config.third_person.min_distance_to_objects,
            hit is None ==> r == self.distance,
            (hit matches Some(d) ==> d <= self.distance) ==> r <= self.distance,
            -LIMIT <= r <= LIMIT,
    {
        let max_toi: i64 = self.distance;
        let min_distance_to_objects: i64 = self.config.third_person.min_distance_to_objects;
        match hit {
            Some(toi) => toi - min_distance_to_objects,
            None => max_toi,
        }
    }

    /// Where the eye may stand so that nothing lies between it and the pivot, and
    /// whether that is closer to the pivot than it stands now. `hit` is the
    /// distance at which the line-of-sight ray struck.
    pub fn keep_line_of_sight(&self, hit: Option<i64>) -> (r: LineOfSightResult)
        requires
            self.wf(),
            hit matches Some(d) ==> 0 <= d <= LIMIT,
        ensures
            r == self.sight(hit),
            r.location.within(REACH as int),
    {
        let origin = self.target;
        let direction = self.forward().neg();

        let distance: i64 = self.get_raycast_distance(hit);
        let location = origin.plus(direction.scale(distance));

        let eye_to_target = self.target.minus(self.transform.translation);
        proof {
            crate::fixed::lemma_product_bound(
                distance as int,
                distance as int,
                LIMIT as int,
                LIMIT as int,
            );
        }
        let reach: i128 = (distance as i128) * (distance as i128);
        let correction = if reach < eye_to_target.length_squared() - SETTLED_SQUARED {
            LineOfSightCorrection::Closer
        } else {
            LineOfSightCorrection::Further
        };
        LineOfSightResult { location, correction }
    }

    /// Moves the eye to where the line of sight to the pivot is free, and tells
    /// which way it was moved.
    pub fn place_eye_in_valid_position(&mut self, hit: Option<i64>) -> (r: LineOfSightCorrection)
        requires
            old(self).wf(),
            hit matches Some(d) ==> 0 <= d <= LIMIT,
        ensures
            r == old(self).sight(hit).correction,
            *final(self) == old(self).posed(
                Transform {
                    translation: old(self).sight(hit).location,
                    rotation: old(self).transform.rotation,
                },
            ),
            final(self).wf(),
    {
        let line_of_sight_result = self.keep_line_of_sight(hit);
        self.transform.translation = line_of_sight_result.location;
        line_of_sight_result.correction
    }

    /// Moves the shown pose toward the camera's own for a step of `dt`. The shown
    /// position follows at the rate that belongs to the correction; the returned
    /// request asks for the orientation, which follows at the shared turning rate.
    pub fn get_camera_transform(
        &self,
        dt: u64,
        transform: Transform,
        line_of_sight_correction: LineOfSightCorrection,
    ) -> (r: (Transform, HostRequest))
        requires
            self.wf(),
            transform.wf(),
        ensures
            r == self.smoothed(dt, transform, line_of_sight_correction),
            r.0.wf(),
    {
        let translation_smoothing: i64 = if line_of_sight_correction
            == LineOfSightCorrection::Further {
            self.config.third_person.translation_smoothing_going_further
        } else {
            self.config.third_person.translation_smoothing_going_closer
        };

        let scale: i64 = smoothing_factor(translation_smoothing, dt);
        let translation = transform.translation.lerp(self.transform.translation, scale);

        let rotation_smoothing: i64 = self.config.first_person.rotation_smoothing;
        let scale: i64 = smoothing_factor(rotation_smoothing, dt);
        (
            Transform { translation, rotation: transform.rotation },
            HostRequest::Slerp { start: transform.rotation, end: self.transform.rotation, factor: scale },
        )
    }

    /// The request for the orientation of the third-person camera that takes over
    /// from a first-person one: from the eye behind the pivot, it looks at the pivot.
    pub fn look_from_first_person(first_person_camera: &FirstPersonCamera) -> (r: HostRequest)
        requires
            first_person_camera.wf(),
        ensures
            r == (HostRequest::LookAt {
                eye: ThirdPersonCamera::of_first_person(
                    *first_person_camera,
                    first_person_camera.transform.rotation,
                ).transform.translation,
                target: first_person_camera.transform.translation,
                up: first_person_camera.up,
            }),
    {
        let target = first_person_camera.transform.translation;
        let distance: i64 = first_person_camera.config.third_person.min_distance;
        let eye = target.minus(first_person_camera.forward().scale(distance));
        HostRequest::LookAt { eye, target, up: first_person_camera.up }
    }

    /// The third-person camera that takes over from a first-person one. `rotation`
    /// is the host's answer to [`ThirdPersonCamera::look_from_first_person`].
    pub fn from_first_person(first_person_camera: &FirstPersonCamera, rotation: Quat) -> (r:
        ThirdPersonCamera)
        requires
            first_person_camera.wf(),
            rotation.wf(),
        ensures
            r == ThirdPersonCamera::of_first_person(*first_person_camera, rotation),
            r.wf(),
            r.distance_in_range(),
    {
        let target = first_person_camera.transform.translation;
        let distance: i64 = first_person_camera.config.third_person.min_distance;
        let eye = target.minus(first_person_camera.forward().scale(distance));
        let up = first_person_camera.up;
        ThirdPersonCamera {
            transform: Transform { translation: eye, rotation },
            target,
            up,
            distance,
            secondary_target: first_person_camera.look_target,
            config: first_person_camera.config,
        }
    }

    /// The request for the orientation of the third-person camera that takes over
    /// from a fixed-angle one: the fixed-angle camera's own, tilted downward by
    /// the smallest angle the view may keep from straight up.
    pub fn tilt_from_fixed_angle(fixed_angle_camera: &FixedAngleCamera) -> (r: HostRequest)
        ensures
            r == (HostRequest::Tilt {
                rotation: fixed_angle_camera.transform.rotation,
                angle: fixed_angle_camera.config.third_person.most_acute_from_above,
            }),
    {
        HostRequest::Tilt {
            rotation: fixed_angle_camera.transform.rotation,
            angle: fixed_angle_camera.config.third_person.most_acute_from_above,
        }
    }

    /// The third-person camera that takes over from a fixed-angle one. `rotation`
    /// is the host's answer to [`ThirdPersonCamera::tilt_from_fixed_angle`].
    pub fn from_fixed_angle(fixed_angle_camera: &FixedAngleCamera, rotation: Quat) -> (r:
        ThirdPersonCamera)
        ensures
            r == ThirdPersonCamera::of_fixed_angle(*fixed_angle_camera, rotation),
            fixed_angle_camera.wf() && rotation.wf() ==> r.wf(),
    {
        ThirdPersonCamera {
            transform: Transform {
                translation: fixed_angle_camera.transform.translation,
                rotation,
            },
            target: fixed_angle_camera.target,
            up: fixed_angle_camera.up,
            distance: fixed_angle_camera.distance,
            secondary_target: fixed_angle_camera.secondary_target,
            config: fixed_angle_camera.config,
        }
    }

    /// Zooms, and asks for the ray along which the eye is to be placed.
    fn continue_after_controls(&mut self, dt: u64, input: CameraInput, transform: Transform) -> (r:
        Result<Step, InputError>)
        requires
            old(self).wf(),
            input.wf(),
            transform.wf(),
        ensures
            (*final(self), r) == old(self).after_controls(dt, input, transform),
            final(self).wf(),
            final(self).distance_in_range(),
    {
        self.zoom(input.zoom);
        Ok(Step::Ask(Frame { dt, input, transform, pending: self.line_of_sight_ray() }))
    }

    /// Reads the pan and goes on from there.
    fn continue_after_alignment(&mut self, dt: u64, input: CameraInput, transform: Transform) -> (r:
        Result<Step, InputError>)
        requires
            old(self).wf(),
            input.wf(),
            transform.wf(),
        ensures
            (*final(self), r) == old(self).after_alignment(dt, input, transform),
            final(self).wf(),
    {
        let camera_movement = match input.axis_pair() {
            Ok(pan) => pan,
            Err(e) => {
                return Err(e);
            },
        };
        if !camera_movement.is_approx_zero() {
            return Ok(
                Step::Ask(
                    Frame {
                        dt,
                        input,
                        transform,
                        pending: HostRequest::AngleBetween { from: self.forward(), to: self.up },
                    },
                ),
            );
        }
        self.continue_after_controls(dt, input, transform)
    }

    /// Starts an update for a step of `dt` from the pose `transform` that is shown
    /// now.
    ///
    /// The update aligns the eye with the secondary target where there is one,
    /// orbits by the pan, zooms, places the eye where the line of sight is free and
    /// moves the shown pose toward the result. The turning and the ray are the
    /// host's work: the update stops at each with [`Step::Ask`] and goes on in
    /// [`ThirdPersonCamera::resume`]. It fails where the pan is no axis pair.
    pub fn update_transform(&mut self, dt: u64, input: &CameraInput, transform: Transform) -> (r:
        Result<Step, InputError>)
        requires
            old(self).wf(),
            input.wf(),
            transform.wf(),
        ensures
            (*final(self), r) == old(self).begun(dt, *input, transform),
            final(self).wf(),
            r matches Ok(Step::Ask(next)) ==> next.wf(),
    {
        if let Some(secondary_target) = self.secondary_target {
            if let Some(pending) = self.move_eye_to_align_target_with(secondary_target) {
                return Ok(Step::Ask(Frame { dt, input: *input, transform, pending }));
            }
        }
        self.continue_after_alignment(dt, *input, transform)
    }

    /// Goes on with an update once the host has answered the pending request.
    ///
    /// A reply that does not answer the pending request changes nothing, and the
    /// same request is asked again.
    pub fn resume(&mut self, frame: Frame, reply: HostReply) -> (r: Result<Step, InputError>)
        requires
            old(self).wf(),
            frame.wf(),
        ensures
            (*final(self), r) == old(self).resumed(frame, reply),
            final(self).wf(),
            r matches Ok(Step::Ask(next)) ==> next.wf(),
            r matches Ok(Step::Done(shown)) ==> shown.wf(),
    {
        if !reply.is_answer_to(&frame.pending) {
            return Ok(Step::Ask(frame));
        }
        match (frame.pending, reply) {
            (HostRequest::Align { .. }, HostReply::Pose(pose)) => {
                self.transform = pose;
                self.continue_after_alignment(frame.dt, frame.input, frame.transform)
            },
            (HostRequest::AngleBetween { .. }, HostReply::Angle(angle)) => {
                match frame.input.axis_pair() {
                    Err(e) => Err(e),
                    Ok(camera_movement) => {
                        let pending = self.handle_camera_controls(camera_movement, angle);
                        Ok(
                            Step::Ask(
                                Frame {
                                    dt: frame.dt,
                                    input: frame.input,
                                    transform: frame.transform,
                                    pending,
                                },
                            ),
                        )
                    },
                }
            },
            (HostRequest::Orbit { .. }, HostReply::Pose(pose)) => {
                self.transform = pose;
                self.continue_after_controls(frame.dt, frame.input, frame.transform)
            },
            (HostRequest::CastRay { .. }, HostReply::Hit(hit)) => {
                let los_correction = self.place_eye_in_valid_position(hit);
                let (transform, pending) = self.get_camera_transform(
                    frame.dt,
                    frame.transform,
                    los_correction,
                );
                Ok(Step::Ask(Frame { dt: frame.dt, input: frame.input, transform, pending }))
            },
            (HostRequest::Slerp { .. }, HostReply::Rotation(rotation)) => {
                Ok(Step::Done(Transform { translation: frame.transform.translation, rotation }))
            },
            _ => Ok(Step::Ask(frame)),
        }
    }
}

impl Default for ThirdPersonCamera {
    /// A camera at the origin that orbits the origin at five units, with the
    /// second axis up, no secondary target and the default configuration.
    fn default() -> (camera: ThirdPersonCamera)
        ensures
            camera.transform == (Transform {
                translation: Vec3 { x: 0, y: 0, z: 0 },
                rotation: Quat { x: 0, y: 0, z: 0, w: ONE },
            }),
            camera.target == (Vec3 { x: 0, y: 0, z: 0 }),
            camera.up == (Vec3 { x: 0, y: ONE, z: 0 }),
            camera.secondary_target is None,
            camera.distance == 5 * ONE,
            camera.config.wf(),
            camera.wf(),
    {
        ThirdPersonCamera {
            up: Vec3::unit_y(),
            transform: Transform::identity(),
            distance: 5_000_000,
            target: Vec3::zero(),
            secondary_target: None,
            config: CameraConfig::default(),
        }
    }
}

/// After any zoom, and so after any sequence of at least one, the orbit distance
/// lies between the shortest and the longest configured.
pub proof fn lemma_zoom_keeps_distance_in_range(camera: ThirdPersonCamera, zooms: Seq<i64>)
    requires
        camera.config.third_person.min_distance <= camera.config.third_person.max_distance,
        zooms.len() > 0,
    ensures
        camera.config.third_person.min_distance <= camera.zoomed_through(zooms)
            <= camera.config.third_person.max_distance,
{
}

/// No step of an update takes the orbit distance out of its range, and every step
/// that zooms brings it there.
pub proof fn lemma_update_keeps_distance_in_range(
    camera: ThirdPersonCamera,
    dt: u64,
    input: CameraInput,
    transform: Transform,
    frame: Frame,
    reply: HostReply,
)
    requires
        camera.wf(),
    ensures
        camera.distance_in_range() ==> camera.begun(dt, input, transform).0.distance_in_range(),
        camera.distance_in_range() ==> camera.resumed(frame, reply).0.distance_in_range(),
        camera.after_controls(dt, input, transform).0.distance_in_range(),
        camera.begun(dt, input, transform).1 matches Ok(Step::Ask(asked)) && asked.pending
            is CastRay ==> camera.begun(dt, input, transform).0.distance_in_range(),
{
}

/// An update changes the camera's pose and, by zooming, its orbit distance. The
/// pivot, the up axis, the secondary target and the configuration stay as they
/// are.
pub proof fn lemma_third_person_update_keeps_its_bearings(
    camera: ThirdPersonCamera,
    dt: u64,
    input: CameraInput,
    transform: Transform,
    frame: Frame,
    reply: HostReply,
)
    ensures
        ({
            let begun = camera.begun(dt, input, transform).0;
            let resumed = camera.resumed(frame, reply).0;
            &&& begun.target == camera.target && resumed.target == camera.target
            &&& begun.up == camera.up && resumed.up == camera.up
            &&& begun.secondary_target == camera.secondary_target && resumed.secondary_target
                == camera.secondary_target
            &&& begun.config == camera.config && resumed.config == camera.config
            &&& begun.transform == camera.transform
        }),
{
}

/// Whatever the pan and wherever the view stands, the pitch that an update asks
/// its host to orbit by leads to an angle from up between this camera's limits.
pub proof fn lemma_orbit_keeps_pitch_within_limits(
    camera: ThirdPersonCamera,
    frame: Frame,
    angle: i64,
)
    requires
        camera.config.wf(),
        frame.pending is AngleBetween,
        frame.input.pan is Some,
        0 <= angle <= HALF_TURN,
    ensures
        camera.resumed(frame, HostReply::Angle(angle)).1 matches Ok(Step::Ask(next))
            && next.pending matches HostRequest::Orbit { pitch, .. }
            && camera.config.third_person.most_acute_from_above <= angle - pitch <= HALF_TURN
            - camera.config.third_person.most_acute_from_below,
{
    assert(HostReply::Angle(angle).answers(frame.pending));
}

/// An answered request is never asked again in the same update: what a reply
/// leads to is the end of the update, its failure, or a request that stands
/// further in. So an update asks its host at most five times.
pub proof fn lemma_third_person_update_advances(
    camera: ThirdPersonCamera,
    frame: Frame,
    reply: HostReply,
)
    requires
        reply.answers(frame.pending),
        frame.pending is Align || frame.pending is AngleBetween || frame.pending is Orbit
            || frame.pending is CastRay || frame.pending is Slerp,
    ensures
        camera.resumed(frame, reply).1 matches Ok(Step::Ask(next)) ==> {
            &&& frame.pending.stage() < next.pending.stage() <= 4
            &&& next.pending is AngleBetween || next.pending is Orbit || next.pending is CastRay
                || next.pending is Slerp
        },
        frame.pending is Slerp ==> camera.resumed(frame, reply).1 is Ok && camera.resumed(
            frame,
            reply,
        ).1->Ok_0 is Done,
{
}

/// Once the ray from the pivot is answered, the eye stands on that ray, no
/// further from the pivot than the orbit distance and short of what the ray hit
/// by the clearance; the shown position has moved toward it without passing it,
/// and after a step long enough for its rate it is exactly there. What is left
/// to ask is the orientation.
pub proof fn lemma_sighting_places_the_eye(camera: ThirdPersonCamera, frame: Frame, hit: Option<i64>)
    requires
        camera.wf(),
        frame.wf(),
        frame.pending == camera.sight_ray(),
        hit matches Some(d) ==> 0 <= d <= camera.distance,
    ensures
        ({
            let (placed, outcome) = camera.resumed(frame, HostReply::Hit(hit));
            let reach = camera.usable_distance(hit);
            let correction = camera.sight(hit).correction;
            &&& reach <= camera.distance
            &&& hit matches Some(d) ==> reach + camera.config.third_person.min_distance_to_objects
                == d
            &&& placed.transform.translation == camera.target.sum(
                camera.forward_axis().negated().scaled_by(reach),
            )
            &&& placed.transform.rotation == camera.transform.rotation
            &&& placed.distance == camera.distance
            &&& outcome matches Ok(Step::Ask(next)) && next.pending is Slerp && (
            placed.translation_rate(correction) * frame.dt >= ONE * ONE
                ==> next.transform.translation == placed.transform.translation)
        }),
{
    let (placed, outcome) = camera.resumed(frame, HostReply::Hit(hit));
    let correction = camera.sight(hit).correction;
    assert(HostReply::Hit(hit).answers(frame.pending));
    crate::fixed::lemma_smoothing_saturates(
        placed.translation_rate(correction),
        frame.dt as int,
    );
    let f = smoothing(placed.translation_rate(correction), frame.dt as int);
    let goal = placed.transform.translation;
    let start = frame.transform.translation;
    crate::vector::lemma_blend_between(start.x as int, goal.x as int, f);
    crate::vector::lemma_blend_between(start.y as int, goal.y as int, f);
    crate::vector::lemma_blend_between(start.z as int, goal.z as int, f);
}

/// Where the line-of-sight ray hit no further away than the orbit distance, the
/// eye is placed no further from the pivot than the orbit distance, on the ray,
/// and short of what the ray hit by the clearance kept from objects.
pub proof fn lemma_line_of_sight_within_distance(camera: ThirdPersonCamera, hit: Option<i64>)
    requires
        camera.wf(),
        hit matches Some(d) ==> 0 <= d <= camera.distance,
    ensures
        camera.usable_distance(hit) <= camera.distance,
        hit matches Some(d) ==> camera.usable_distance(hit)
            + camera.config.third_person.min_distance_to_objects == d,
        hit is None ==> camera.usable_distance(hit) == camera.distance,
        camera.sight(hit).location == camera.target.sum(
            camera.forward_axis().negated().scaled_by(camera.usable_distance(hit)),
        ),
{
}

/// A secondary target that lies on the pivot gives no direction to align with:
/// the update asks for no alignment and the eye stays where it is.
pub proof fn lemma_no_alignment_with_pivot(camera: ThirdPersonCamera)
    ensures
        camera.alignment(camera.target) is None,
{
    let v = camera.target.difference(camera.target);
    assert(v == Vec3 { x: 0, y: 0, z: 0 });
    assert(v.dot_product(camera.up) == 0) by (nonlinear_arith)
        requires
            v.x == 0 && v.y == 0 && v.z == 0,
            v.dot_product(camera.up) == v.x * camera.up.x + v.y * camera.up.y + v.z * camera.up.z,
    ;
    crate::fixed::lemma_scaled_one(camera.up.x as int);
    crate::fixed::lemma_scaled_one(camera.up.y as int);
    crate::fixed::lemma_scaled_one(camera.up.z as int);
    let h = v.horizontal_part(camera.up);
    assert(h == Vec3 { x: 0, y: 0, z: 0 });
    assert(h.norm_squared() == 0) by (nonlinear_arith)
        requires
            h.x == 0 && h.y == 0 && h.z == 0,
            h.norm_squared() == h.x * h.x + h.y * h.y + h.z * h.z,
    ;
}

/// With the second axis up, aligning goes by what is seen from above: the
/// heights of the eye, the pivot and the secondary target play no part in
/// whether an alignment is asked for, nor in the directions it is asked with.
pub proof fn lemma_alignment_ignores_heights(camera: ThirdPersonCamera, secondary_target: Vec3)
    requires
        camera.up == (Vec3 { x: 0, y: ONE, z: 0 }),
        camera.target.within(LIMIT as int),
        camera.transform.translation.within(REACH as int),
        secondary_target.within(LIMIT as int),
    ensures
        ({
            let eye = camera.transform.translation;
            let from = Vec3 {
                x: (camera.target.x - eye.x) as i64,
                y: 0,
                z: (camera.target.z - eye.z) as i64,
            };
            let to = Vec3 {
                x: (secondary_target.x - camera.target.x) as i64,
                y: 0,
                z: (secondary_target.z - camera.target.z) as i64,
            };
            camera.alignment(secondary_target) == if to.negligible() {
                None
            } else {
                Some(
                    HostRequest::Align {
                        transform: camera.transform,
                        pivot: camera.target,
                        from,
                        to,
                    },
                )
            }
        }),
{
    crate::vector::lemma_horizontal_under_second_axis(
        secondary_target.difference(camera.target),
    );
    crate::vector::lemma_horizontal_under_second_axis(
        camera.target.difference(camera.transform.translation),
    );
}

/// With the second axis up, a secondary target straight above or below the pivot
/// gives no direction to align with.
pub proof fn lemma_no_alignment_with_point_above_pivot(
    camera: ThirdPersonCamera,
    secondary_target: Vec3,
)
    requires
        camera.up == (Vec3 { x: 0, y: ONE, z: 0 }),
        camera.target.within(LIMIT as int),
        secondary_target.within(LIMIT as int),
        secondary_target.x == camera.target.x,
        secondary_target.z == camera.target.z,
    ensures
        camera.alignment(secondary_target) is None,
{
    crate::vector::lemma_horizontal_under_second_axis(
        secondary_target.difference(camera.target),
    );
    let h = secondary_target.difference(camera.target).horizontal_part(camera.up);
    assert(h == Vec3 { x: 0, y: 0, z: 0 });
    assert(h.norm_squared() == 0) by (nonlinear_arith)
        requires
            h.x == 0 && h.y == 0 && h.z == 0,
            h.norm_squared() == h.x * h.x + h.y * h.y + h.z * h.z,
    ;
}

/// However long the step, the shown position never passes the camera's own: each
/// of its coordinates ends between where it was and where the camera is. Once
/// rate times step length reaches one, the shown position is exactly the
/// camera's own, and the orientation is asked for the whole way.
pub proof fn lemma_third_person_smoothing_saturates(
    camera: ThirdPersonCamera,
    dt: u64,
    transform: Transform,
    correction: LineOfSightCorrection,
)
    requires
        camera.wf(),
        transform.wf(),
    ensures
        ({
            let (shown, pending) = camera.smoothed(dt, transform, correction);
            let goal = camera.transform.translation;
            let start = transform.translation;
            &&& start.x <= goal.x ==> start.x <= shown.translation.x <= goal.x
            &&& goal.x <= start.x ==> goal.x <= shown.translation.x <= start.x
            &&& start.y <= goal.y ==> start.y <= shown.translation.y <= goal.y
            &&& goal.y <= start.y ==> goal.y <= shown.translation.y <= start.y
            &&& start.z <= goal.z ==> start.z <= shown.translation.z <= goal.z
            &&& goal.z <= start.z ==> goal.z <= shown.translation.z <= start.z
            &&& camera.translation_rate(correction) * dt >= ONE * ONE ==> shown.translation == goal
            &&& pending matches HostRequest::Slerp { start, end, factor } && start == transform.rotation
                && end == camera.transform.rotation && 0 <= factor <= ONE
            &&& camera.config.first_person.rotation_smoothing * dt >= ONE * ONE ==> pending
                == (HostRequest::Slerp {
                start: transform.rotation,
                end: camera.transform.rotation,
                factor: ONE,
            })
        }),
{
    let rate = camera.translation_rate(correction);
    let f = smoothing(rate, dt as int);
    crate::fixed::lemma_smoothing_saturates(rate, dt as int);
    crate::fixed::lemma_smoothing_saturates(
        camera.config.first_person.rotation_smoothing as int,
        dt as int,
    );
    let goal = camera.transform.translation;
    let start = transform.translation;
    crate::vector::lemma_blend_between(start.x as int, goal.x as int, f);
    crate::vector::lemma_blend_between(start.y as int, goal.y as int, f);
    crate::vector::lemma_blend_between(start.z as int, goal.z as int, f);
}

} // verus!
