//! The mathematical model of a scene: what the contracts of the stores and
//! of the solver speak of.

use crate::constraint::Projective;
use crate::error::SceneError;
use crate::ids::{ConstraintId, ParticleId};
use crate::particle::Particle;
use crate::scalar::Scalar;
use vstd::prelude::*;

verus! {

/// The particles and constraints of a scene.
pub struct World {
    /// The particles in the order of their slots, which is the order in
    /// which they were added.
    pub particles: Seq<Particle>,
    /// The slot of each particle that exists.
    pub slots: Map<ParticleId, int>,
    /// The constraints that exist.
    pub constraints: Map<ConstraintId, Projective>,
    /// The number that the next identifier will carry. Every identifier
    /// handed out so far carries a smaller one.
    pub issued: usize,
}

/// Whether `ps` and `qs` are equally many particles with, slot by slot, the
/// same masses.
pub open spec fn same_masses(ps: Seq<Particle>, qs: Seq<Particle>) -> bool {
    &&& ps.len() == qs.len()
    &&& forall|i: int| 0 <= i < ps.len() ==> (#[trigger] ps[i]).mass == qs[i].mass
}

/// Whether `slots` gives the slot `slot` to a particle.
pub open spec fn names_slot(slots: Map<ParticleId, int>, slot: int) -> bool {
    exists|id: ParticleId| slots.contains_key(id) && #[trigger] slots[id] == slot
}

impl World {
    /// A world without particles and constraints, from which no identifier
    /// has been handed out.
    pub open spec fn empty() -> World {
        World { particles: Seq::empty(), slots: Map::empty(), constraints: Map::empty(), issued: 0 }
    }

    pub open spec fn has_particle(self, id: ParticleId) -> bool {
        self.slots.contains_key(id)
    }

    pub open spec fn has_constraint(self, id: ConstraintId) -> bool {
        self.constraints.contains_key(id)
    }

    /// The particle with the identifier `id`.
    pub open spec fn particle(self, id: ParticleId) -> Particle
        recommends
            self.has_particle(id),
    {
        self.particles[self.slots[id]]
    }

    /// Every particle that the constraint names exists.
    pub open spec fn knows_particles_of(self, c: Projective) -> bool {
        match c {
            Projective::ToPoint { particles, .. } => self.has_particle(particles.0)
                && self.has_particle(particles.1),
            Projective::ToFixed { particle, .. } => self.has_particle(particle),
        }
    }

    /// What holds of every world that a scene can reach: the identifiers
    /// of the particles and the slots correspond one to one; every
    /// identifier in use has been handed out; every constraint names
    /// particles that exist; every mass is above zero.
    pub open spec fn wf(self) -> bool {
        &&& forall|id: ParticleId| #[trigger]
            self.slots.contains_key(id) ==> 0 <= self.slots[id] < self.particles.len() && id.0
                < self.issued
        &&& forall|a: ParticleId, b: ParticleId|
            #![trigger self.slots[a], self.slots[b]]
            self.slots.contains_key(a) && self.slots.contains_key(b) && self.slots[a]
                == self.slots[b] ==> a == b
        &&& forall|i: int| 0 <= i < self.particles.len() ==> #[trigger] names_slot(self.slots, i)
        &&& forall|c: ConstraintId| #[trigger]
            self.constraints.contains_key(c) ==> c.0 < self.issued && self.knows_particles_of(
                self.constraints[c],
            )
        &&& forall|i: int|
            0 <= i < self.particles.len() ==> (#[trigger] self.particles[i]).mass.is_positive()
    }

    /// The world with its particles replaced.
    pub open spec fn with_particles(self, particles: Seq<Particle>) -> World {
        World { particles, ..self }
    }

    /// Replacing the particles by as many particles with the same masses
    /// keeps a world well formed.
    pub proof fn lemma_with_particles_wf(self, particles: Seq<Particle>)
        requires
            self.wf(),
            same_masses(self.particles, particles),
        ensures
            self.with_particles(particles).wf(),
    {
        let after = self.with_particles(particles);
        assert forall|i: int| 0 <= i < after.particles.len() implies (#[trigger] after.particles[i]).mass.is_positive() by {
            assert(self.particles[i].mass.is_positive());
        }
    }

    /// The world in which the particle `id` is replaced by `p`.
    pub open spec fn with_particle(self, id: ParticleId, p: Particle) -> World
        recommends
            self.has_particle(id),
    {
        self.with_particles(self.particles.update(self.slots[id], p))
    }

    /// The identifier that a new particle of mass `mass` receives, or the
    /// reason for which it is refused: a mass that is not above zero, or,
    /// failing that, a counter that has run out.
    pub open spec fn grant_particle(self, mass: Scalar) -> Result<ParticleId, SceneError> {
        if !mass.is_positive() {
            Err(SceneError::InvalidMass)
        } else if self.issued == usize::MAX {
            Err(SceneError::OutOfIds)
        } else {
            Ok(ParticleId(self.issued))
        }
    }

    /// The identifier that the new constraint `c` receives, or the reason
    /// for which it is refused: a particle that does not exist, or, failing
    /// that, a counter that has run out.
    pub open spec fn grant_constraint(self, c: Projective) -> Result<ConstraintId, SceneError> {
        if !self.knows_particles_of(c) {
            Err(SceneError::UnknownParticle)
        } else if self.issued == usize::MAX {
            Err(SceneError::OutOfIds)
        } else {
            Ok(ConstraintId(self.issued))
        }
    }

    /// The world after the particle `p` has been added under the next
    /// identifier.
    pub open spec fn add_particle(self, p: Particle) -> World
        recommends
            self.issued < usize::MAX,
    {
        World {
            particles: self.particles.push(p),
            slots: self.slots.insert(ParticleId(self.issued), self.particles.len() as int),
            issued: (self.issued + 1) as usize,
            ..self
        }
    }

    /// Adding a particle with a mass above zero keeps a world well formed.
    pub proof fn lemma_add_particle_wf(self, p: Particle)
        requires
            self.wf(),
            self.issued < usize::MAX,
            p.mass.is_positive(),
        ensures
            self.add_particle(p).wf(),
    {
        let after = self.add_particle(p);
        let fresh = ParticleId(self.issued);
        assert(!self.slots.contains_key(fresh));
        assert forall|i: int| 0 <= i < after.particles.len() implies #[trigger] names_slot(
            after.slots,
            i,
        ) by {
            if i < self.particles.len() {
                assert(names_slot(self.slots, i));
                let id = choose|id: ParticleId|
                    self.slots.contains_key(id) && #[trigger] self.slots[id] == i;
                assert(after.slots.contains_key(id) && after.slots[id] == i);
            } else {
                assert(after.slots.contains_key(fresh) && after.slots[fresh] == i);
            }
        }
        assert forall|i: int| 0 <= i < after.particles.len() implies (
        #[trigger] after.particles[i]).mass.is_positive() by {
            if i < self.particles.len() {
                assert(self.particles[i].mass.is_positive());
            }
        }
    }

    /// The world after the constraint `c` has been added under the next
    /// identifier.
    pub open spec fn add_constraint(self, c: Projective) -> World
        recommends
            self.issued < usize::MAX,
    {
        World {
            constraints: self.constraints.insert(ConstraintId(self.issued), c),
            issued: (self.issued + 1) as usize,
            ..self
        }
    }

    /// The world without the constraint `id`.
    pub open spec fn remove_constraint(self, id: ConstraintId) -> World {
        World { constraints: self.constraints.remove(id), ..self }
    }
}

} // verus!
