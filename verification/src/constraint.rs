//! Distance constraints between particles, and between a particle and a
//! fixed point.

use crate::ids::ParticleId;
use crate::vec2::Vec2;
use vstd::prelude::*;

verus! {

/// Which distances satisfy a constraint: those below the target, those
/// equal to it, or those above it.
#[derive(Clone, Copy, Debug, PartialEq, Eq, Structural)]
pub enum Cmp {
    Less,
    Equal,
    Greater,
}

/// The two particles that a constraint joins.
#[derive(Clone, Copy, Debug, PartialEq, Eq, Structural)]
pub struct Pair(pub ParticleId, pub ParticleId);

/// A constraint that is enforced by moving particles.
#[derive(Clone, Copy, Debug, PartialEq, Eq, Structural)]
pub enum Projective {
    /// Holds two particles at a distance from each other; both move.
    ToPoint { particles: Pair, dist: u32, cmp: Cmp },
    /// Holds one particle at a distance from a fixed point; the point never
    /// moves.
    ToFixed { particle: ParticleId, fixed: Vec2, dist: u32, cmp: Cmp },
}

impl Projective {
    /// The constraint that holds `first` and `second` at the distance `dist` from
    /// each other.
    pub open spec fn point(first: ParticleId, second: ParticleId, dist: u32, gate: Cmp) -> Projective {
        Projective::ToPoint { particles: Pair(first, second), dist, cmp: gate }
    }

    /// The constraint that holds `particle` at the distance `dist` from
    /// the point `fixed`.
    pub open spec fn anchor(particle: ParticleId, fixed: Vec2, dist: u32, gate: Cmp) -> Projective {
        Projective::ToFixed { particle, fixed, dist, cmp: gate }
    }

    /// The comparator of the constraint.
    pub open spec fn gate(self) -> Cmp {
        match self {
            Projective::ToPoint { cmp, .. } => cmp,
            Projective::ToFixed { cmp, .. } => cmp,
        }
    }

    /// The target distance of the constraint.
    pub open spec fn target(self) -> u32 {
        match self {
            Projective::ToPoint { dist, .. } => dist,
            Projective::ToFixed { dist, .. } => dist,
        }
    }
}

} // verus!
