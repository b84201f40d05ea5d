//! The store of a scene: its particles, its constraints, and the
//! identifiers under which both are found.

use crate::constraint::{Cmp, Pair, Projective};
use crate::error::SceneError;
use crate::fxmap::{map_get, map_insert, map_keys, map_new, map_remove};
use crate::ids::{draw_serial, ConstraintId, ParticleId};
use crate::particle::{Particle, Particles};
use crate::scalar::Scalar;
use crate::vec2::Vec2;
use crate::world::World;
use fxhash::FxHashMap;
use vstd::prelude::*;

verus! {

/// Owns the particles and the constraints of one scene, and hands out
/// their identifiers from one counter of its own. Particles are never
/// removed; constraints are removed only by
/// [`ParticleManager::remove_constraint`].
#[derive(Clone, Debug)]
pub struct ParticleManager {
    pub(crate) particles: Particles,
    pub(crate) constraints: FxHashMap<usize, Projective>,
    pub(crate) identifiers: FxHashMap<usize, usize>,
    pub(crate) next_id: usize,
}

/// Whether `order` visits every constraint of `constraints` once and
/// nothing else.
pub open spec fn visits_each_once(
    order: Seq<ConstraintId>,
    constraints: Map<ConstraintId, Projective>,
) -> bool {
    &&& order.no_duplicates()
    &&& forall|id: ConstraintId| order.contains(id) <==> constraints.contains_key(id)
}

/// The slots of the particles whose bare identifiers `table` binds.
pub open spec fn slots_of(table: Map<usize, usize>) -> Map<ParticleId, int> {
    Map::new(|id: ParticleId| table.contains_key(id.0), |id: ParticleId| table[id.0] as int)
}

/// The constraints that `table` binds to their bare identifiers.
pub open spec fn constraints_of(table: Map<usize, Projective>) -> Map<ConstraintId, Projective> {
    Map::new(|id: ConstraintId| table.contains_key(id.0), |id: ConstraintId| table[id.0])
}

impl ParticleManager {
    /// The world that the store holds.
    pub open(crate) spec fn view(&self) -> World {
        World {
            particles: self.particles@,
            slots: slots_of(self.identifiers@),
            constraints: constraints_of(self.constraints@),
            issued: self.next_id,
        }
    }

    /// The columns agree in length and the world is well formed.
    pub open(crate) spec fn wf(&self) -> bool {
        &&& self.particles.wf()
        &&& self@.wf()
    }

    /// A store without particles and constraints.
    pub fn new() -> (r: ParticleManager)
        ensures
            r.wf(),
            r@ == World::empty(),
    {
        ParticleManager::with_first_id(0)
    }

    /// A store without particles and constraints whose first identifier
    /// carries the number `first`.
    pub fn with_first_id(first: usize) -> (r: ParticleManager)
        ensures
            r.wf(),
            r@ == (World { issued: first, ..World::empty() }),
    {
        let r = ParticleManager {
            particles: Particles::new(),
            constraints: map_new(),
            identifiers: map_new(),
            next_id: first,
        };
        assert(r@.slots =~= Map::<ParticleId, int>::empty());
        assert(r@.constraints =~= Map::<ConstraintId, Projective>::empty());
        r
    }

    /// The columns of the particles.
    pub fn particles(&self) -> (r: &Particles)
        requires
            self.wf(),
        ensures
            r.wf(),
            r@ == self@.particles,
    {
        &self.particles
    }

    /// The number of particles.
    pub fn len(&self) -> (r: usize)
        requires
            self.wf(),
        ensures
            r == self@.particles.len(),
    {
        self.particles.mass.len()
    }

    /// The slot of the particle `id`, if it exists.
    pub fn slot(&self, id: ParticleId) -> (r: Option<usize>)
        requires
            self.wf(),
        ensures
            r == if self@.has_particle(id) {
                Some(self@.slots[id] as usize)
            } else {
                None
            },
            r is Some ==> r->0 < self@.particles.len(),
    {
        assert(self.identifiers@.contains_key(id.0) == self@.slots.contains_key(id));
        map_get(&self.identifiers, id.0)
    }

    /// Adds a particle with no force on it. The mass must be above zero.
    pub fn add(&mut self, prev_pos: Vec2, curr_pos: Vec2, mass: Scalar) -> (r: Result<
        ParticleId,
        SceneError,
    >)
        requires
            old(self).wf(),
        ensures
            final(self).wf(),
            r == old(self)@.grant_particle(mass),
            r is Ok ==> final(self)@ == old(self)@.add_particle(
                Particle { prev_pos, curr_pos, mass, force: Vec2::zero() },
            ),
            r is Err ==> final(self)@ == old(self)@,
    {
        if !mass.is_positive() {
            return Err(SceneError::InvalidMass);
        }
        if self.next_id == usize::MAX {
            return Err(SceneError::OutOfIds);
        }
        let (id, next) = draw_serial(self.next_id);
        let slot = self.particles.mass.len();
        self.particles.prev_pos.push(prev_pos);
        self.particles.curr_pos.push(curr_pos);
        self.particles.mass.push(mass);
        self.particles.force.push(Vec2::zero());
        let _ = map_insert(&mut self.identifiers, id, slot);
        self.next_id = next;
        proof {
            let before = old(self)@;
            let after = before.add_particle(
                Particle { prev_pos, curr_pos, mass, force: Vec2::zero() },
            );
            assert(self@.particles =~= after.particles);
            assert(self@.slots =~= after.slots);
            assert(self@.constraints =~= after.constraints);
            before.lemma_add_particle_wf(
                Particle { prev_pos, curr_pos, mass, force: Vec2::zero() },
            );
        }
        Ok(ParticleId(id))
    }

    /// Whether every particle that `c` names exists.
    pub fn knows_particles_of(&self, c: &Projective) -> (r: bool)
        requires
            self.wf(),
        ensures
            r == self@.knows_particles_of(*c),
    {
        match c {
            Projective::ToPoint { particles, .. } => {
                self.slot(particles.0).is_some() && self.slot(particles.1).is_some()
            },
            Projective::ToFixed { particle, .. } => self.slot(*particle).is_some(),
        }
    }

    /// Adds a constraint. Every particle that it names must exist.
    pub fn add_constraint(&mut self, c: Projective) -> (r: Result<ConstraintId, SceneError>)
        requires
            old(self).wf(),
        ensures
            final(self).wf(),
            r == old(self)@.grant_constraint(c),
            r is Ok ==> final(self)@ == old(self)@.add_constraint(c),
            r is Err ==> final(self)@ == old(self)@,
    {
        if !self.knows_particles_of(&c) {
            return Err(SceneError::UnknownParticle);
        }
        if self.next_id == usize::MAX {
            return Err(SceneError::OutOfIds);
        }
        let (id, next) = draw_serial(self.next_id);
        let _ = map_insert(&mut self.constraints, id, c);
        self.next_id = next;
        proof {
            let after = old(self)@.add_constraint(c);
            assert(self@.slots =~= after.slots);
            assert(self@.constraints =~= after.constraints);
        }
        Ok(ConstraintId(id))
    }

    /// Adds a constraint that holds the particles `first` and `second` at the
    /// distance `dist` from each other.
    pub fn add_point_constraint(
        &mut self,
        first: ParticleId,
        second: ParticleId,
        dist: u32,
        gate: Cmp,
    ) -> (r: Result<ConstraintId, SceneError>)
        requires
            old(self).wf(),
        ensures
            final(self).wf(),
            r == old(self)@.grant_constraint(Projective::point(first, second, dist, gate)),
            r is Ok ==> final(self)@ == old(self)@.add_constraint(
                Projective::point(first, second, dist, gate),
            ),
            r is Err ==> final(self)@ == old(self)@,
    {
        self.add_constraint(Projective::ToPoint { particles: Pair(first, second), dist, cmp: gate })
    }

    /// Adds a constraint that holds the particle `particle` at the distance
    /// `dist` from the point `fixed`.
    pub fn add_fixed_constraint(
        &mut self,
        particle: ParticleId,
        fixed: Vec2,
        dist: u32,
        gate: Cmp,
    ) -> (r: Result<ConstraintId, SceneError>)
        requires
            old(self).wf(),
        ensures
            final(self).wf(),
            r == old(self)@.grant_constraint(Projective::anchor(particle, fixed, dist, gate)),
            r is Ok ==> final(self)@ == old(self)@.add_constraint(
                Projective::anchor(particle, fixed, dist, gate),
            ),
            r is Err ==> final(self)@ == old(self)@,
    {
        self.add_constraint(Projective::ToFixed { particle, fixed, dist, cmp: gate })
    }

    /// Removes the constraint `id` and returns it; `None` if there is no
    /// such constraint.
    pub fn remove_constraint(&mut self, id: ConstraintId) -> (r: Option<Projective>)
        requires
            old(self).wf(),
        ensures
            final(self).wf(),
            r == if old(self)@.has_constraint(id) {
                Some(old(self)@.constraints[id])
            } else {
                None
            },
            final(self)@ == old(self)@.remove_constraint(id),
    {
        let r = map_remove(&mut self.constraints, id.0);
        proof {
            let after = old(self)@.remove_constraint(id);
            assert(self@.slots =~= after.slots);
            assert(self@.constraints =~= after.constraints);
        }
        r
    }

    /// The constraint `id`, if it exists.
    pub fn constraint(&self, id: ConstraintId) -> (r: Option<Projective>)
        requires
            self.wf(),
        ensures
            r == if self@.has_constraint(id) {
                Some(self@.constraints[id])
            } else {
                None
            },
    {
        map_get(&self.constraints, id.0)
    }

    /// The identifiers of the constraints, each once, in the order in which
    /// the store walks them. The order is the store's choice.
    pub fn constraint_ids(&self) -> (r: Vec<ConstraintId>)
        requires
            self.wf(),
        ensures
            visits_each_once(r@, self@.constraints),
    {
        let keys = map_keys(&self.constraints);
        let mut ids: Vec<ConstraintId> = Vec::new();
        let mut i: usize = 0;
        while i < keys.len()
            invariant
                i <= keys.len(),
                ids@.len() == i,
                forall|j: int| 0 <= j < i ==> (#[trigger] ids@[j]).0 == keys@[j],
            decreases keys.len() - i,
        {
            ids.push(ConstraintId(keys[i]));
            i += 1;
        }
        proof {
            assert forall|id: ConstraintId| ids@.contains(id) <==> self@.constraints.contains_key(
                id,
            ) by {
                if ids@.contains(id) {
                    let j = choose|j: int| 0 <= j < ids@.len() && ids@[j] == id;
                    assert(keys@[j] == id.0);
                    assert(keys@.contains(id.0));
                }
                if self@.constraints.contains_key(id) {
                    assert(keys@.contains(id.0));
                    let j = choose|j: int| 0 <= j < keys@.len() && keys@[j] == id.0;
                    assert(ids@[j] == id);
                }
            }
        }
        ids
    }

    /// Adds `f` to the force gathered on the particle `id`.
    pub fn add_force(&mut self, id: ParticleId, f: Vec2) -> (r: Result<(), SceneError>)
        requires
            old(self).wf(),
        ensures
            final(self).wf(),
            r is Ok <==> old(self)@.has_particle(id),
            r is Err ==> r->Err_0 == SceneError::UnknownParticle && final(self)@ == old(self)@,
            r is Ok ==> final(self)@ == old(self)@.with_particle(
                id,
                old(self)@.particle(id).with_force(old(self)@.particle(id).force.plus(f)),
            ),
    {
        match self.slot(id) {
            Some(ind) => {
                let mut v = self.particles.force[ind];
                v.add(f);
                self.particles.set_force(ind, v);
                proof {
                    old(self)@.lemma_with_particles_wf(self@.particles);
                }
                Ok(())
            },
            None => Err(SceneError::UnknownParticle),
        }
    }

    /// Resets the force gathered on the particle `id` to zero.
    pub fn annul_forces(&mut self, id: ParticleId) -> (r: Result<(), SceneError>)
        requires
            old(self).wf(),
        ensures
            final(self).wf(),
            r is Ok <==> old(self)@.has_particle(id),
            r is Err ==> r->Err_0 == SceneError::UnknownParticle && final(self)@ == old(self)@,
            r is Ok ==> final(self)@ == old(self)@.with_particle(
                id,
                old(self)@.particle(id).with_force(Vec2::zero()),
            ),
    {
        self.set_force(id, Vec2::zero())
    }

    /// Replaces the force gathered on the particle `id`.
    pub fn set_force(&mut self, id: ParticleId, f: Vec2) -> (r: Result<(), SceneError>)
        requires
            old(self).wf(),
        ensures
            final(self).wf(),
            r is Ok <==> old(self)@.has_particle(id),
            r is Err ==> r->Err_0 == SceneError::UnknownParticle && final(self)@ == old(self)@,
            r is Ok ==> final(self)@ == old(self)@.with_particle(
                id,
                old(self)@.particle(id).with_force(f),
            ),
    {
        match self.slot(id) {
            Some(ind) => {
                self.particles.set_force(ind, f);
                proof {
                    old(self)@.lemma_with_particles_wf(self@.particles);
                }
                Ok(())
            },
            None => Err(SceneError::UnknownParticle),
        }
    }

    /// Replaces the current position of the particle `id`.
    pub fn set_curr_pos(&mut self, id: ParticleId, p: Vec2) -> (r: Result<(), SceneError>)
        requires
            old(self).wf(),
        ensures
            final(self).wf(),
            r is Ok <==> old(self)@.has_particle(id),
            r is Err ==> r->Err_0 == SceneError::UnknownParticle && final(self)@ == old(self)@,
            r is Ok ==> final(self)@ == old(self)@.with_particle(
                id,
                old(self)@.particle(id).with_curr_pos(p),
            ),
    {
        match self.slot(id) {
            Some(ind) => {
                self.particles.set_curr_pos(ind, p);
                proof {
                    old(self)@.lemma_with_particles_wf(self@.particles);
                }
                Ok(())
            },
            None => Err(SceneError::UnknownParticle),
        }
    }

    /// Replaces the previous position of the particle `id`.
    pub fn set_prev_pos(&mut self, id: ParticleId, p: Vec2) -> (r: Result<(), SceneError>)
        requires
            old(self).wf(),
        ensures
            final(self).wf(),
            r is Ok <==> old(self)@.has_particle(id),
            r is Err ==> r->Err_0 == SceneError::UnknownParticle && final(self)@ == old(self)@,
            r is Ok ==> final(self)@ == old(self)@.with_particle(
                id,
                old(self)@.particle(id).with_prev_pos(p),
            ),
    {
        match self.slot(id) {
            Some(ind) => {
                self.particles.set_prev_pos(ind, p);
                proof {
                    old(self)@.lemma_with_particles_wf(self@.particles);
                }
                Ok(())
            },
            None => Err(SceneError::UnknownParticle),
        }
    }

    /// The particle `id`.
    pub fn particle(&self, id: ParticleId) -> (r: Result<Particle, SceneError>)
        requires
            self.wf(),
        ensures
            r is Ok <==> self@.has_particle(id),
            r is Err ==> r->Err_0 == SceneError::UnknownParticle,
            r is Ok ==> r->Ok_0 == self@.particle(id),
    {
        match self.slot(id) {
            Some(ind) => Ok(
                Particle {
                    prev_pos: self.particles.prev_pos[ind],
                    curr_pos: self.particles.curr_pos[ind],
                    mass: self.particles.mass[ind],
                    force: self.particles.force[ind],
                },
            ),
            None => Err(SceneError::UnknownParticle),
        }
    }

    /// The current position of the particle `id`.
    pub fn curr_pos(&self, id: ParticleId) -> (r: Result<Vec2, SceneError>)
        requires
            self.wf(),
        ensures
            r is Ok <==> self@.has_particle(id),
            r is Err ==> r->Err_0 == SceneError::UnknownParticle,
            r is Ok ==> r->Ok_0 == self@.particle(id).curr_pos,
    {
        match self.slot(id) {
            Some(ind) => Ok(self.particles.curr_pos[ind]),
            None => Err(SceneError::UnknownParticle),
        }
    }

    /// The force gathered on the particle `id`.
    pub fn force(&self, id: ParticleId) -> (r: Result<Vec2, SceneError>)
        requires
            self.wf(),
        ensures
            r is Ok <==> self@.has_particle(id),
            r is Err ==> r->Err_0 == SceneError::UnknownParticle,
            r is Ok ==> r->Ok_0 == self@.particle(id).force,
    {
        match self.slot(id) {
            Some(ind) => Ok(self.particles.force[ind]),
            None => Err(SceneError::UnknownParticle),
        }
    }

    /// The mass of the particle `id`.
    pub fn mass(&self, id: ParticleId) -> (r: Result<Scalar, SceneError>)
        requires
            self.wf(),
        ensures
            r is Ok <==> self@.has_particle(id),
            r is Err ==> r->Err_0 == SceneError::UnknownParticle,
            r is Ok ==> r->Ok_0 == self@.particle(id).mass,
    {
        match self.slot(id) {
            Some(ind) => Ok(self.particles.mass[ind]),
            None => Err(SceneError::UnknownParticle),
        }
    }

    /// The current positions of all particles, in the order in which the
    /// particles were added.
    pub fn positions(&self) -> (r: &Vec<Vec2>)
        requires
            self.wf(),
        ensures
            r@ == Particles::curr_positions(self@.particles),
    {
        self.particles.curr_pos()
    }
}

impl Default for ParticleManager {
    /// A store without particles and constraints.
    fn default() -> (r: ParticleManager)
        ensures
            r.wf(),
            r@ == World::empty(),
    {
        ParticleManager::new()
    }
}

} // verus!
