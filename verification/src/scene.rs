//! The scene: a store of particles and constraints together with the
//! settings of its solver, and the step that advances it.

use crate::constraint::{Cmp, Projective};
use crate::error::SceneError;
use crate::ids::{ConstraintId, ParticleId};
use crate::manager::{visits_each_once, ParticleManager};
use crate::particle::{Particle, Particles};
use crate::scalar::Scalar;
use crate::solver::{
    correction, delta, DEFAULT_ITERATIONS, DEFAULT_TIMESTEP_BITS, HALF_BITS, TOLERANCE_BITS,
};
use crate::vec2::Vec2;
use crate::world::World;
use vstd::prelude::*;

verus! {

/// What a scene is made with and keeps for its lifetime.
#[derive(Clone, Copy, Debug, PartialEq, Eq, Structural)]
pub struct Settings {
    /// The width of the area that the host shows. The solver does not use
    /// it.
    pub width: u32,
    /// The height of the area that the host shows. The solver does not use
    /// it.
    pub height: u32,
    /// The time that one step covers.
    pub timestep: Scalar,
    /// The number of passes over the constraints in one step.
    pub iterations: u32,
}

impl Settings {
    /// The settings of a scene of the given size that is given nothing
    /// else: a time step of a sixtieth and three passes.
    pub open spec fn standard(width: u32, height: u32) -> Settings {
        Settings {
            width,
            height,
            timestep: Scalar { bits: DEFAULT_TIMESTEP_BITS },
            iterations: DEFAULT_ITERATIONS,
        }
    }
}

/// A world of particles and constraints that is advanced step by step.
#[derive(Clone, Debug)]
pub struct Scene {
    pub(crate) settings: Settings,
    pub(crate) manager: ParticleManager,
}

impl Scene {
    /// The store is well formed.
    pub open(crate) spec fn wf(&self) -> bool {
        self.manager.wf()
    }

    /// The particles and constraints of the scene.
    pub open(crate) spec fn world(&self) -> World {
        self.manager@
    }

    /// The settings that the scene was made with.
    pub open(crate) spec fn settings(&self) -> Settings {
        self.settings
    }

    /// An empty scene of the given size with the standard settings.
    pub fn new(width: u32, height: u32) -> (r: Scene)
        ensures
            r.wf(),
            r.world() == World::empty(),
            r.settings() == Settings::standard(width, height),
    {
        Scene {
            settings: Settings {
                width,
                height,
                timestep: Scalar::from_bits(DEFAULT_TIMESTEP_BITS),
                iterations: DEFAULT_ITERATIONS,
            },
            manager: ParticleManager::new(),
        }
    }

    /// An empty scene with the given settings.
    pub fn with_settings(settings: Settings) -> (r: Scene)
        ensures
            r.wf(),
            r.world() == World::empty(),
            r.settings() == settings,
    {
        Scene { settings, manager: ParticleManager::new() }
    }

    pub fn width(&self) -> (r: u32)
        ensures
            r == self.settings().width,
    {
        self.settings.width
    }

    pub fn height(&self) -> (r: u32)
        ensures
            r == self.settings().height,
    {
        self.settings.height
    }

    /// The time that one step covers.
    pub fn timestep(&self) -> (r: Scalar)
        ensures
            r == self.settings().timestep,
    {
        self.settings.timestep
    }

    /// The number of passes over the constraints in one step.
    pub fn iterations(&self) -> (r: u32)
        ensures
            r == self.settings().iterations,
    {
        self.settings.iterations
    }

    /// The number of particles.
    pub fn particle_count(&self) -> (r: usize)
        requires
            self.wf(),
        ensures
            r == self.world().particles.len(),
    {
        self.manager.len()
    }

    /// The number of coordinates in the buffer of current positions: two
    /// for each particle.
    pub fn particles_length(&self) -> (r: usize)
        requires
            self.wf(),
            2 * self.world().particles.len() <= usize::MAX,
        ensures
            r == 2 * self.world().particles.len(),
    {
        2 * self.manager.len()
    }

    /// The current positions of all particles, in the order in which the
    /// particles were added.
    pub fn particle_positions(&self) -> (r: &Vec<Vec2>)
        requires
            self.wf(),
        ensures
            r@ == Particles::curr_positions(self.world().particles),
    {
        self.manager.positions()
    }

    /// The particle `id`.
    pub fn particle(&self, id: ParticleId) -> (r: Result<Particle, SceneError>)
        requires
            self.wf(),
        ensures
            r is Ok <==> self.world().has_particle(id),
            r is Err ==> r->Err_0 == SceneError::UnknownParticle,
            r is Ok ==> r->Ok_0 == self.world().particle(id),
    {
        self.manager.particle(id)
    }

    /// The constraint `id`, if it exists.
    pub fn constraint(&self, id: ConstraintId) -> (r: Option<Projective>)
        requires
            self.wf(),
        ensures
            r == if self.world().has_constraint(id) {
                Some(self.world().constraints[id])
            } else {
                None
            },
    {
        self.manager.constraint(id)
    }

    /// The identifiers of the constraints, each once, in the order in which
    /// the store walks them. The order is the store's choice.
    pub fn constraint_ids(&self) -> (r: Vec<ConstraintId>)
        requires
            self.wf(),
        ensures
            visits_each_once(r@, self.world().constraints),
    {
        self.manager.constraint_ids()
    }

    /// Adds a particle with no force on it. The mass must be above zero.
    pub fn add_particle(&mut self, prev_pos: Vec2, curr_pos: Vec2, mass: Scalar) -> (r: Result<
        ParticleId,
        SceneError,
    >)
        requires
            old(self).wf(),
        ensures
            final(self).wf(),
            final(self).settings() == old(self).settings(),
            r == old(self).world().grant_particle(mass),
            r is Ok ==> final(self).world() == old(self).world().add_particle(
                Particle { prev_pos, curr_pos, mass, force: Vec2::zero() },
            ),
            r is Err ==> final(self).world() == old(self).world(),
    {
        self.manager.add(prev_pos, curr_pos, mass)
    }

    /// Adds a constraint that holds the particles `first` and `second` at the
    /// distance `dist` from each other. Both particles must exist.
    pub fn add_point_constraint(
        &mut self,
        first: ParticleId,
        second: ParticleId,
        dist: u32,
        gate: Cmp,
    ) -> (r: Result<ConstraintId, SceneError>)
        requires
            old(self).wf(),
        ensures
            final(self).wf(),
            final(self).settings() == old(self).settings(),
            r == old(self).world().grant_constraint(Projective::point(first, second, dist, gate)),
            r is Ok ==> final(self).world() == old(self).world().add_constraint(
                Projective::point(first, second, dist, gate),
            ),
            r is Err ==> final(self).world() == old(self).world(),
    {
        self.manager.add_point_constraint(first, second, dist, gate)
    }

    /// Adds a constraint that holds the particle `particle` at the distance
    /// `dist` from the point `fixed`. The particle must exist.
    pub fn add_fixed_constraint(
        &mut self,
        particle: ParticleId,
        fixed: Vec2,
        dist: u32,
        gate: Cmp,
    ) -> (r: Result<ConstraintId, SceneError>)
        requires
            old(self).wf(),
        ensures
            final(self).wf(),
            final(self).settings() == old(self).settings(),
            r == old(self).world().grant_constraint(Projective::anchor(particle, fixed, dist, gate)),
            r is Ok ==> final(self).world() == old(self).world().add_constraint(
                Projective::anchor(particle, fixed, dist, gate),
            ),
            r is Err ==> final(self).world() == old(self).world(),
    {
        self.manager.add_fixed_constraint(particle, fixed, dist, gate)
    }

    /// Removes the constraint `id` and returns it.
    pub fn remove_constraint(&mut self, id: ConstraintId) -> (r: Result<Projective, SceneError>)
        requires
            old(self).wf(),
        ensures
            final(self).wf(),
            final(self).settings() == old(self).settings(),
            r is Ok <==> old(self).world().has_constraint(id),
            r is Ok ==> r->Ok_0 == old(self).world().constraints[id],
            r is Err ==> r->Err_0 == SceneError::UnknownConstraint,
            final(self).world() == old(self).world().remove_constraint(id),
    {
        match self.manager.remove_constraint(id) {
            Some(c) => Ok(c),
            None => Err(SceneError::UnknownConstraint),
        }
    }

    /// Replaces the current position of the particle `id`.
    pub fn set_curr_pos(&mut self, id: ParticleId, pos: Vec2) -> (r: Result<(), SceneError>)
        requires
            old(self).wf(),
        ensures
            final(self).wf(),
            final(self).settings() == old(self).settings(),
            r is Ok <==> old(self).world().has_particle(id),
            r is Err ==> r->Err_0 == SceneError::UnknownParticle && final(self).world() == old(
                self,
            ).world(),
            r is Ok ==> final(self).world() == old(self).world().with_particle(
                id,
                old(self).world().particle(id).with_curr_pos(pos),
            ),
    {
        self.manager.set_curr_pos(id, pos)
    }

    /// Replaces the previous position of the particle `id`.
    pub fn set_prev_pos(&mut self, id: ParticleId, pos: Vec2) -> (r: Result<(), SceneError>)
        requires
            old(self).wf(),
        ensures
            final(self).wf(),
            final(self).settings() == old(self).settings(),
            r is Ok <==> old(self).world().has_particle(id),
            r is Err ==> r->Err_0 == SceneError::UnknownParticle && final(self).world() == old(
                self,
            ).world(),
            r is Ok ==> final(self).world() == old(self).world().with_particle(
                id,
                old(self).world().particle(id).with_prev_pos(pos),
            ),
    {
        self.manager.set_prev_pos(id, pos)
    }

    /// Replaces the force gathered on the particle `id`.
    pub fn set_force(&mut self, id: ParticleId, force: Vec2) -> (r: Result<(), SceneError>)
        requires
            old(self).wf(),
        ensures
            final(self).wf(),
            final(self).settings() == old(self).settings(),
            r is Ok <==> old(self).world().has_particle(id),
            r is Err ==> r->Err_0 == SceneError::UnknownParticle && final(self).world() == old(
                self,
            ).world(),
            r is Ok ==> final(self).world() == old(self).world().with_particle(
                id,
                old(self).world().particle(id).with_force(force),
            ),
    {
        self.manager.set_force(id, force)
    }

    /// Adds `force` to the force gathered on the particle `id`.
    pub fn add_force(&mut self, id: ParticleId, force: Vec2) -> (r: Result<(), SceneError>)
        requires
            old(self).wf(),
        ensures
            final(self).wf(),
            final(self).settings() == old(self).settings(),
            r is Ok <==> old(self).world().has_particle(id),
            r is Err ==> r->Err_0 == SceneError::UnknownParticle && final(self).world() == old(
                self,
            ).world(),
            r is Ok ==> final(self).world() == old(self).world().with_particle(
                id,
                old(self).world().particle(id).with_force(
                    old(self).world().particle(id).force.plus(force),
                ),
            ),
    {
        self.manager.add_force(id, force)
    }

    /// Resets the force gathered on the particle `id` to zero.
    pub fn annul_forces(&mut self, id: ParticleId) -> (r: Result<(), SceneError>)
        requires
            old(self).wf(),
        ensures
            final(self).wf(),
            final(self).settings() == old(self).settings(),
            r is Ok <==> old(self).world().has_particle(id),
            r is Err ==> r->Err_0 == SceneError::UnknownParticle && final(self).world() == old(
                self,
            ).world(),
            r is Ok ==> final(self).world() == old(self).world().with_particle(
                id,
                old(self).world().particle(id).with_force(Vec2::zero()),
            ),
    {
        self.manager.annul_forces(id)
    }

    /// The correction that a constraint with the target distance `c_dist`
    /// and the comparator `gate` asks of a point at `pos` held against
    /// `c_pos`; `None` where the constraint is satisfied or the two points
    /// are closer than the tolerance.
    pub fn constraint_correction(pos: Vec2, c_pos: Vec2, c_dist: u32, gate: Cmp) -> (r: Option<
        Vec2,
    >)
        ensures
            r == correction(pos, c_pos, c_dist, gate),
    {
        let mut offset = pos;
        offset.sub(c_pos);
        let d = offset.x.mul(offset.x).add(offset.y.mul(offset.y)).sqrt();
        let target = Scalar::from_u32(c_dist);
        let held = match gate {
            Cmp::Less => d.less_than(target),
            Cmp::Equal => d.equal_to(target),
            Cmp::Greater => d.greater_than(target),
        };
        if held || d.less_than(Scalar::from_bits(TOLERANCE_BITS)) {
            return None;
        }
        offset.scale(d.sub(target).div(d));
        Some(offset)
    }

    /// The correction as a vector: zero where the constraint asks for none.
    pub fn constraint_delta(pos: Vec2, c_pos: Vec2, c_dist: u32, gate: Cmp) -> (r: Vec2)
        ensures
            r == delta(pos, c_pos, c_dist, gate),
    {
        match Scene::constraint_correction(pos, c_pos, c_dist, gate) {
            Some(v) => v,
            None => Vec2::zero(),
        }
    }

    /// Enforces the constraint `c` once.
    fn enforce(&mut self, c: Projective)
        requires
            old(self).wf(),
            old(self).world().knows_particles_of(c),
        ensures
            final(self).wf(),
            final(self).settings() == old(self).settings(),
            final(self).world() == old(self).world().enforce(c),
            old(self).world().moved_to(final(self).world()),
    {
        match c {
            Projective::ToPoint { particles, dist, cmp: gate } => {
                let first = self.manager.slot(particles.0);
                let second = self.manager.slot(particles.1);
                if let (Some(i), Some(j)) = (first, second) {
                    let a = self.manager.particles.curr_pos[i];
                    let b = self.manager.particles.curr_pos[j];
                    if let Some(v) = Scene::constraint_correction(a, b, dist, gate) {
                        let mut part = v;
                        part.scale(Scalar::from_bits(HALF_BITS));
                        self.manager.particles.sub_curr_pos(i, part);
                        proof {
                            old(self).manager@.lemma_with_particles_wf(self.manager@.particles);
                        }
                        let ghost between = self.manager@;
                        self.manager.particles.add_curr_pos(j, part);
                        proof {
                            between.lemma_with_particles_wf(self.manager@.particles);
                        }
                    }
                }
            },
            Projective::ToFixed { particle, fixed, dist, cmp: gate } => {
                if let Some(i) = self.manager.slot(particle) {
                    let a = self.manager.particles.curr_pos[i];
                    if let Some(v) = Scene::constraint_correction(a, fixed, dist, gate) {
                        self.manager.particles.sub_curr_pos(i, v);
                        proof {
                            old(self).manager@.lemma_with_particles_wf(self.manager@.particles);
                        }
                    }
                }
            },
        }
    }

    /// Enforces the constraint `id` once: moves the particles that it names
    /// by the correction that it asks for.
    pub fn satisfy_constraint(&mut self, id: ConstraintId) -> (r: Result<(), SceneError>)
        requires
            old(self).wf(),
        ensures
            final(self).wf(),
            final(self).settings() == old(self).settings(),
            r is Ok <==> old(self).world().has_constraint(id),
            r is Err ==> r->Err_0 == SceneError::UnknownConstraint,
            final(self).world() == old(self).world().relax(id),
            old(self).world().moved_to(final(self).world()),
    {
        match self.manager.constraint(id) {
            Some(c) => {
                self.enforce(c);
                Ok(())
            },
            None => Err(SceneError::UnknownConstraint),
        }
    }

    /// Makes as many passes over the constraints as the settings say. In
    /// each pass the constraints named in `order` are enforced one after the
    /// other; a name that no constraint has is passed over.
    pub fn satisfy_in_order(&mut self, order: &Vec<ConstraintId>)
        requires
            old(self).wf(),
        ensures
            final(self).wf(),
            final(self).settings() == old(self).settings(),
            final(self).world() == old(self).world().relax_passes(
                order@,
                old(self).settings().iterations as nat,
            ),
            old(self).world().moved_to(final(self).world()),
    {
        let iterations = self.settings.iterations;
        let mut n: u32 = 0;
        while n < iterations
            invariant
                n <= iterations,
                iterations == old(self).settings().iterations,
                self.wf(),
                self.settings() == old(self).settings(),
                self.world() == old(self).world().relax_passes(order@, n as nat),
                old(self).world().moved_to(self.world()),
            decreases iterations - n,
        {
            let ghost start = self.world();
            let mut i: usize = 0;
            while i < order.len()
                invariant
                    i <= order.len(),
                    self.wf(),
                    self.settings() == old(self).settings(),
                    self.world() == start.relax_pass(order@.take(i as int)),
                    old(self).world().moved_to(self.world()),
                decreases order.len() - i,
            {
                let _ = self.satisfy_constraint(order[i]);
                proof {
                    assert(order@.take(i + 1).drop_last() =~= order@.take(i as int));
                }
                i += 1;
            }
            proof {
                assert(order@.take(order@.len() as int) =~= order@);
            }
            n += 1;
        }
    }

    /// Makes as many passes over the constraints as the settings say, each
    /// in the one order in which the store walks its constraints.
    pub fn satisfy(&mut self)
        requires
            old(self).wf(),
        ensures
            final(self).wf(),
            final(self).settings() == old(self).settings(),
            exists|order: Seq<ConstraintId>|
                visits_each_once(order, old(self).world().constraints) && final(self).world()
                    == old(self).world().relax_passes(
                    order,
                    old(self).settings().iterations as nat,
                ),
            old(self).world().moved_to(final(self).world()),
    {
        let order = self.manager.constraint_ids();
        self.satisfy_in_order(&order);
    }

    /// Integrates the particle in slot `ind` over one time step.
    pub fn verlet_step(&mut self, ind: usize)
        requires
            old(self).wf(),
            ind < old(self).world().particles.len(),
        ensures
            final(self).wf(),
            final(self).settings() == old(self).settings(),
            final(self).world() == old(self).world().integrate_slot(
                ind as int,
                old(self).settings().timestep,
            ),
            old(self).world().moved_to(final(self).world()),
    {
        let dt = self.settings.timestep;
        let before = Particle {
            prev_pos: self.manager.particles.prev_pos[ind],
            curr_pos: self.manager.particles.curr_pos[ind],
            mass: self.manager.particles.mass[ind],
            force: self.manager.particles.force[ind],
        };
        let after = before.verlet_step(dt);
        self.manager.particles.set_prev_pos(ind, after.prev_pos);
        self.manager.particles.set_curr_pos(ind, after.curr_pos);
        proof {
            old(self).manager@.lemma_with_particles_wf(self.manager@.particles);
            assert(self.manager@.particles =~= old(self).world().integrate_slot(
                ind as int,
                dt,
            ).particles);
        }
    }

    /// Integrates every particle over one time step.
    pub fn integrate(&mut self)
        requires
            old(self).wf(),
        ensures
            final(self).wf(),
            final(self).settings() == old(self).settings(),
            final(self).world() == old(self).world().integrate(old(self).settings().timestep),
            old(self).world().moved_to(final(self).world()),
    {
        let count = self.manager.len();
        let ghost before = self.world();
        let ghost dt = self.settings.timestep;
        let mut p: usize = 0;
        proof {
            assert(before.integrate_below(0, dt).particles =~= before.particles);
        }
        while p < count
            invariant
                p <= count,
                count == before.particles.len(),
                dt == old(self).settings().timestep,
                self.wf(),
                self.settings() == old(self).settings(),
                self.world() == before.integrate_below(p as int, dt),
                before.moved_to(self.world()),
            decreases count - p,
        {
            self.verlet_step(p);
            p += 1;
            proof {
                assert(self.world().particles =~= before.integrate_below(p as int, dt).particles);
            }
        }
        proof {
            assert(self.world().particles =~= before.integrate(dt).particles);
        }
    }

    /// Advances the scene by one time step, with the passes over the
    /// constraints made in the order `order`: first the passes, then the
    /// integration of every particle.
    pub fn step_in_order(&mut self, order: &Vec<ConstraintId>)
        requires
            old(self).wf(),
        ensures
            final(self).wf(),
            final(self).settings() == old(self).settings(),
            final(self).world() == old(self).world().step(
                order@,
                old(self).settings().iterations as nat,
                old(self).settings().timestep,
            ),
            old(self).world().moved_to(final(self).world()),
    {
        self.satisfy_in_order(order);
        self.integrate();
    }

    /// Advances the scene by one time step: first the passes over the
    /// constraints, each in the one order in which the store walks them,
    /// then the integration of every particle.
    pub fn step(&mut self)
        requires
            old(self).wf(),
        ensures
            final(self).wf(),
            final(self).settings() == old(self).settings(),
            exists|order: Seq<ConstraintId>|
                visits_each_once(order, old(self).world().constraints) && final(self).world()
                    == old(self).world().step(
                    order,
                    old(self).settings().iterations as nat,
                    old(self).settings().timestep,
                ),
            old(self).world().moved_to(final(self).world()),
    {
        let order = self.manager.constraint_ids();
        self.step_in_order(&order);
    }
}

} // verus!
