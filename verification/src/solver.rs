//! What one step does to a world: the correction that a constraint asks
//! for, a pass over the constraints, and the integration of the particles.

use crate::constraint::{Cmp, Projective};
use crate::ids::ConstraintId;
use crate::scalar::Scalar;
use crate::vec2::Vec2;
use crate::world::World;
use vstd::prelude::*;

verus! {

/// The bits of 2.
pub const TWO_BITS: u32 = 0x4000_0000;

/// The bits of one half.
pub const HALF_BITS: u32 = 0x3f00_0000;

/// The bits of the distance, a hundred-millionth, below which two points
/// count as one.
pub const TOLERANCE_BITS: u32 = 0x322b_cc77;

/// The bits of a sixtieth, the time step of a scene that is given no other.
pub const DEFAULT_TIMESTEP_BITS: u32 = 0x3c88_8889;

/// The number of passes over the constraints that a scene makes in a step
/// when it is given no other.
pub const DEFAULT_ITERATIONS: u32 = 3;

pub open spec fn two() -> Scalar {
    Scalar { bits: TWO_BITS }
}

pub open spec fn half() -> Scalar {
    Scalar { bits: HALF_BITS }
}

pub open spec fn tolerance() -> Scalar {
    Scalar { bits: TOLERANCE_BITS }
}

/// The Euclidean length of `v`: the root of the sum of the squares of its
/// coordinates.
pub open spec fn length(v: Vec2) -> Scalar {
    v.x.mul(v.x).add(v.y.mul(v.y)).sqrt()
}

/// Whether the distance `d` satisfies a constraint with the comparator
/// `gate` and the target distance `target`.
pub open spec fn satisfied(gate: Cmp, d: Scalar, target: Scalar) -> bool {
    match gate {
        Cmp::Less => d.less_than(target),
        Cmp::Equal => d.equal_to(target),
        Cmp::Greater => d.greater_than(target),
    }
}

/// Whether a constraint leaves a point at `pos` alone: its distance from
/// `c_pos` satisfies the constraint, or is below the tolerance.
pub open spec fn at_rest(pos: Vec2, c_pos: Vec2, dist: u32, gate: Cmp) -> bool {
    let d = length(pos.minus(c_pos));
    satisfied(gate, d, Scalar::from_u32(dist)) || d.less_than(tolerance())
}

/// The vector from `c_pos` to `pos`, scaled by the share of its length
/// that exceeds the target distance `dist`.
pub open spec fn pull(pos: Vec2, c_pos: Vec2, dist: u32) -> Vec2 {
    let offset = pos.minus(c_pos);
    let d = length(offset);
    offset.scaled(d.sub(Scalar::from_u32(dist)).div(d))
}

/// The correction that a constraint asks of a point at `pos` held against
/// `c_pos`, if it asks for one.
pub open spec fn correction(pos: Vec2, c_pos: Vec2, dist: u32, gate: Cmp) -> Option<Vec2> {
    if at_rest(pos, c_pos, dist, gate) {
        None
    } else {
        Some(pull(pos, c_pos, dist))
    }
}

/// The correction as a vector: zero where the constraint asks for none.
pub open spec fn delta(pos: Vec2, c_pos: Vec2, dist: u32, gate: Cmp) -> Vec2 {
    match correction(pos, c_pos, dist, gate) {
        Some(v) => v,
        None => Vec2::zero(),
    }
}

impl World {
    /// Whether `after` is this world with its particles moved: the same
    /// constraints and identifiers, and as many particles with, slot by slot,
    /// the same masses and the same gathered forces.
    pub open spec fn moved_to(self, after: World) -> bool {
        &&& after.slots == self.slots
        &&& after.constraints == self.constraints
        &&& after.issued == self.issued
        &&& after.particles.len() == self.particles.len()
        &&& forall|i: int|
            0 <= i < self.particles.len() ==> (#[trigger] after.particles[i]).mass
                == self.particles[i].mass && after.particles[i].force == self.particles[i].force
    }

    /// The world in which `v` has been added to the current position of
    /// the particle in slot `slot`.
    pub open spec fn pushed(self, slot: int, v: Vec2) -> World {
        let p = self.particles[slot];
        self.with_particles(self.particles.update(slot, p.with_curr_pos(p.curr_pos.plus(v))))
    }

    /// The world in which `v` has been subtracted from the current position
    /// of the particle in slot `slot`.
    pub open spec fn pulled(self, slot: int, v: Vec2) -> World {
        let p = self.particles[slot];
        self.with_particles(self.particles.update(slot, p.with_curr_pos(p.curr_pos.minus(v))))
    }

    /// The world after the constraint `c` has been enforced once. A
    /// constraint between two particles takes half of its correction from
    /// the first and gives it to the second; a constraint to a fixed point
    /// takes the whole correction from its particle. A constraint that is at
    /// rest changes nothing.
    pub open spec fn enforce(self, c: Projective) -> World
        recommends
            self.wf(),
            self.knows_particles_of(c),
    {
        match c {
            Projective::ToPoint { particles, dist, cmp } => {
                let i = self.slots[particles.0];
                let j = self.slots[particles.1];
                match correction(self.particles[i].curr_pos, self.particles[j].curr_pos, dist, cmp) {
                    Some(v) => self.pulled(i, v.scaled(half())).pushed(j, v.scaled(half())),
                    None => self,
                }
            },
            Projective::ToFixed { particle, fixed, dist, cmp } => {
                let i = self.slots[particle];
                match correction(self.particles[i].curr_pos, fixed, dist, cmp) {
                    Some(v) => self.pulled(i, v),
                    None => self,
                }
            },
        }
    }

    /// The world after the constraint `id` has been enforced once; the
    /// world itself if there is no such constraint.
    pub open spec fn relax(self, id: ConstraintId) -> World {
        if self.has_constraint(id) {
            self.enforce(self.constraints[id])
        } else {
            self
        }
    }

    /// The world after one pass: the constraints named in `order` enforced
    /// one after the other, each on the world that the one before it left.
    pub open spec fn relax_pass(self, order: Seq<ConstraintId>) -> World
        decreases order.len(),
    {
        if order.len() == 0 {
            self
        } else {
            self.relax_pass(order.drop_last()).relax(order.last())
        }
    }

    /// The world after `n` passes in the order `order`.
    pub open spec fn relax_passes(self, order: Seq<ConstraintId>, n: nat) -> World
        decreases n,
    {
        if n == 0 {
            self
        } else {
            self.relax_passes(order, (n - 1) as nat).relax_pass(order)
        }
    }

    /// The world in which the particle in slot `slot` has been integrated.
    pub open spec fn integrate_slot(self, slot: int, dt: Scalar) -> World {
        self.with_particles(self.particles.update(slot, self.particles[slot].verlet_step(dt)))
    }

    /// The world in which the particles in the slots below `n` have been
    /// integrated.
    pub open spec fn integrate_below(self, n: int, dt: Scalar) -> World {
        self.with_particles(
            Seq::new(
                self.particles.len(),
                |i: int|
                    if i < n {
                        self.particles[i].verlet_step(dt)
                    } else {
                        self.particles[i]
                    },
            ),
        )
    }

    /// The world in which every particle has been integrated.
    pub open spec fn integrate(self, dt: Scalar) -> World {
        self.with_particles(
            Seq::new(self.particles.len(), |i: int| self.particles[i].verlet_step(dt)),
        )
    }

    /// The world after one step: `iterations` passes over the constraints
    /// in the order `order`, then the integration of every particle.
    pub open spec fn step(self, order: Seq<ConstraintId>, iterations: nat, dt: Scalar) -> World {
        self.relax_passes(order, iterations).integrate(dt)
    }
}

} // verus!
