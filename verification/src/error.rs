//! The ways in which an operation on a scene can fail.

use vstd::prelude::*;

verus! {

/// Why an operation on a scene was refused. A refused operation changes
/// nothing.
#[derive(Clone, Copy, Debug, PartialEq, Eq, Structural)]
pub enum SceneError {
    /// The mass of a particle is not above zero.
    InvalidMass,
    /// No particle of the scene has the identifier.
    UnknownParticle,
    /// No constraint of the scene has the identifier.
    UnknownConstraint,
    /// Every identifier has been handed out.
    OutOfIds,
}

impl SceneError {
    /// A short description of the error.
    pub fn message(&self) -> (r: &'static str)
        ensures
            r@ == match *self {
                SceneError::InvalidMass => "mass must be above zero"@,
                SceneError::UnknownParticle => "unknown particle"@,
                SceneError::UnknownConstraint => "unknown constraint"@,
                SceneError::OutOfIds => "out of identifiers"@,
            },
    {
        match self {
            SceneError::InvalidMass => "mass must be above zero",
            SceneError::UnknownParticle => "unknown particle",
            SceneError::UnknownConstraint => "unknown constraint",
            SceneError::OutOfIds => "out of identifiers",
        }
    }
}

} // verus!
