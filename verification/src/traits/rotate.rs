//! Turns and the trait for turning.
use crate::error::Error;
use vstd::prelude::*;

verus! {

/// The turns an image can be asked to make.
#[derive(Debug, Clone, Copy, PartialEq, Eq, Structural)]
pub enum RotationType {
    Clockwise90,
    Clockwise180,
    Clockwise270,
    Anticlockwise90,
    Anticlockwise180,
    Anticlockwise270,
    /// A turn by any number of degrees, clockwise if positive.
    Custom(i32),
}

impl RotationType {
    /// The turn in degrees, clockwise if positive.
    pub open spec fn spec_degree(&self) -> i32 {
        match self {
            RotationType::Clockwise90 => 90,
            RotationType::Clockwise180 => 180,
            RotationType::Clockwise270 => 270,
            RotationType::Anticlockwise90 => -90i32,
            RotationType::Anticlockwise180 => -180i32,
            RotationType::Anticlockwise270 => -270i32,
            RotationType::Custom(value) => *value,
        }
    }

    /// The turn in degrees, clockwise if positive.
    #[verifier::when_used_as_spec(spec_degree)]
    pub fn degree(&self) -> (degrees: i32)
        ensures
            degrees == self.spec_degree(),
    {
        match self {
            RotationType::Clockwise90 => 90,
            RotationType::Clockwise180 => 180,
            RotationType::Clockwise270 => 270,
            RotationType::Anticlockwise90 => -90,
            RotationType::Anticlockwise180 => -180,
            RotationType::Anticlockwise270 => -270,
            RotationType::Custom(value) => *value,
        }
    }
}

/// Something that can be turned by a `T`.
pub trait Rotatable<T> {
    /// What must hold of the value before turning.
    spec fn rotate_req(&self) -> bool;

    /// Turns the value.
    fn rotate(&mut self, value: T) -> (outcome: Result<(), Error>)
        requires
            old(self).rotate_req(),
    ;
}

} // verus!
