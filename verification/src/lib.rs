//! A camera pose solver in fixed-point arithmetic.
//!
//! Once per frame a camera takes the player's pan and zoom and the pose that is
//! shown, and gives the pose to show next. There are two cameras: the
//! [first-person camera](first_person::FirstPersonCamera) stands where it is put
//! and turns, the [third-person camera](third_person::ThirdPersonCamera) orbits a
//! pivot at a distance that obstacles cut short. Either can be made from the
//! other when the game switches between them.
//!
//! Scalars are `i64` counts of millionths ([`fixed`]), and every decision of an
//! update is taken on them: how far a pitch may go, what a zoom does to the orbit
//! distance, where the eye may stand behind an obstacle, how far the shown pose
//! follows in one step. Turning an orientation, measuring an angle between two
//! directions and casting a ray are left to the [host]: an update stops with a
//! [`host::HostRequest`] wherever it needs one of them and is resumed with the
//! [`host::HostReply`].
//!
//! ```text
//! let mut step = camera.update_transform(dt, &input, shown)?;
//! let shown = loop {
//!     match step {
//!         Step::Done(transform) => break transform,
//!         Step::Ask(frame) => {
//!             let reply = host.perform(&frame.pending);
//!             step = camera.resume(frame, reply)?;
//!         }
//!     }
//! };
//! ```

pub mod fixed;
pub mod vector;
pub mod config;
pub mod input;
pub mod pitch;
pub mod host;
pub mod third_person;
pub mod first_person;
pub mod fixed_angle;
