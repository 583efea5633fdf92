//! What the player asks of the camera in one frame.

use vstd::prelude::*;
use crate::fixed::{LIMIT, in_limit, within_limit};
use crate::vector::Vec2;

verus! {

/// The input sampled for one update.
#[derive(Clone, Copy, Debug, PartialEq, Eq, Structural)]
pub struct CameraInput {
    /// The pan control as an axis pair, or `None` where it is not bound as one.
    pub pan: Option<Vec2>,
    /// The zoom control.
    pub zoom: i64,
}

/// Why an update could not read its input.
#[derive(Clone, Copy, Debug, PartialEq, Eq, Structural)]
pub enum InputError {
    /// The pan control does not report an axis pair.
    PanNotAxisPair,
}

impl InputError {
    /// The error in words.
    pub fn message(&self) -> (s: &'static str)
        ensures
            s@ == "Camera movement is not an axis pair"@,
    {
        "Camera movement is not an axis pair"
    }
}

impl CameraInput {
    /// The zoom and the pan, where there is one, are in range.
    pub open spec fn wf(self) -> bool {
        &&& in_limit(self.zoom as int)
        &&& self.pan matches Some(pan) ==> pan.within(LIMIT as int)
    }

    /// Tells whether the values are ones the solver can work with.
    pub fn is_valid(&self) -> (r: bool)
        ensures
            r == self.wf(),
    {
        within_limit(self.zoom) && match self.pan {
            Some(pan) => pan.is_within(LIMIT),
            None => true,
        }
    }

    /// The pan as an axis pair, or the error where it is none.
    pub fn axis_pair(&self) -> (r: Result<Vec2, InputError>)
        ensures
            r == match self.pan {
                Some(pan) => Ok::<Vec2, InputError>(pan),
                None => Err::<Vec2, InputError>(InputError::PanNotAxisPair),
            },
    {
        match self.pan {
            Some(pan) => Ok(pan),
            None => Err(InputError::PanNotAxisPair),
        }
    }
}

} // verus!
