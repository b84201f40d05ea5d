//! Particles and the columns that store them.

use crate::scalar::Scalar;
use crate::solver::{two, TWO_BITS};
use crate::vec2::Vec2;
use vstd::prelude::*;

verus! {

/// The state of one point mass: where it was a step ago, where it is, how
/// heavy it is, and the force that has been gathered on it.
#[derive(Clone, Copy, Debug, PartialEq, Eq, Structural)]
pub struct Particle {
    pub prev_pos: Vec2,
    pub curr_pos: Vec2,
    pub mass: Scalar,
    pub force: Vec2,
}

impl Particle {
    pub fn new(prev_pos: Vec2, curr_pos: Vec2, mass: Scalar, force: Vec2) -> (r: Particle)
        ensures
            r == (Particle { prev_pos, curr_pos, mass, force }),
    {
        Particle { prev_pos, curr_pos, mass, force }
    }

    /// The particle after one step of Verlet integration with the time
    /// step `dt`: the current position becomes the previous one, and the new
    /// current position is twice the current one, less the previous one,
    /// plus the force scaled by the square of the time step over the mass.
    /// The mass and the gathered force stay.
    pub open spec fn spec_verlet_step(self, dt: Scalar) -> Particle {
        Particle {
            prev_pos: self.curr_pos,
            curr_pos: self.curr_pos.scaled(two()).minus(self.prev_pos).plus(
                self.force.scaled(dt.mul(dt).div(self.mass)),
            ),
            mass: self.mass,
            force: self.force,
        }
    }

    /// The particle after one step of Verlet integration with the time
    /// step `dt`.
    #[verifier::when_used_as_spec(spec_verlet_step)]
    pub fn verlet_step(self, dt: Scalar) -> (r: Particle)
        ensures
            r == self.spec_verlet_step(dt),
    {
        let mut res_force = self.force;
        res_force.scale(dt.mul(dt).div(self.mass));
        let mut curr = self.curr_pos;
        curr.scale(Scalar::from_bits(TWO_BITS));
        curr.sub(self.prev_pos);
        curr.add(res_force);
        Particle { prev_pos: self.curr_pos, curr_pos: curr, mass: self.mass, force: self.force }
    }

    /// The particle with its current position replaced.
    pub open spec fn with_curr_pos(self, p: Vec2) -> Particle {
        Particle { curr_pos: p, ..self }
    }

    /// The particle with its previous position replaced.
    pub open spec fn with_prev_pos(self, p: Vec2) -> Particle {
        Particle { prev_pos: p, ..self }
    }

    /// The particle with its gathered force replaced.
    pub open spec fn with_force(self, f: Vec2) -> Particle {
        Particle { force: f, ..self }
    }
}

/// The particles of a scene, stored as one column per attribute. A particle
/// is addressed by its slot, the index it has in every column.
#[derive(Clone, Debug)]
pub struct Particles {
    pub(crate) prev_pos: Vec<Vec2>,
    pub(crate) curr_pos: Vec<Vec2>,
    pub(crate) mass: Vec<Scalar>,
    pub(crate) force: Vec<Vec2>,
}

impl Particles {
    /// The columns have one length.
    pub open(crate) spec fn wf(&self) -> bool {
        &&& self.prev_pos@.len() == self.mass@.len()
        &&& self.curr_pos@.len() == self.mass@.len()
        &&& self.force@.len() == self.mass@.len()
    }

    /// The particles, slot by slot.
    pub open(crate) spec fn view(&self) -> Seq<Particle> {
        Seq::new(
            self.mass@.len(),
            |i: int|
                Particle {
                    prev_pos: self.prev_pos@[i],
                    curr_pos: self.curr_pos@[i],
                    mass: self.mass@[i],
                    force: self.force@[i],
                },
        )
    }

    /// The previous positions of `ps`, slot by slot.
    pub open spec fn prev_positions(ps: Seq<Particle>) -> Seq<Vec2> {
        Seq::new(ps.len(), |i: int| ps[i].prev_pos)
    }

    /// The current positions of `ps`, slot by slot.
    pub open spec fn curr_positions(ps: Seq<Particle>) -> Seq<Vec2> {
        Seq::new(ps.len(), |i: int| ps[i].curr_pos)
    }

    /// The masses of `ps`, slot by slot.
    pub open spec fn masses(ps: Seq<Particle>) -> Seq<Scalar> {
        Seq::new(ps.len(), |i: int| ps[i].mass)
    }

    /// The gathered forces of `ps`, slot by slot.
    pub open spec fn forces(ps: Seq<Particle>) -> Seq<Vec2> {
        Seq::new(ps.len(), |i: int| ps[i].force)
    }

    /// Columns without a particle.
    pub fn new() -> (r: Particles)
        ensures
            r.wf(),
            r@ == Seq::<Particle>::empty(),
    {
        let r = Particles {
            prev_pos: Vec::new(),
            curr_pos: Vec::new(),
            mass: Vec::new(),
            force: Vec::new(),
        };
        assert(r@ =~= Seq::<Particle>::empty());
        r
    }

    /// The column of previous positions.
    pub fn prev_pos(&self) -> (r: &Vec<Vec2>)
        requires
            self.wf(),
        ensures
            r@ == Particles::prev_positions(self@),
    {
        assert(self.prev_pos@ =~= Particles::prev_positions(self@));
        &self.prev_pos
    }

    /// The column of current positions.
    pub fn curr_pos(&self) -> (r: &Vec<Vec2>)
        requires
            self.wf(),
        ensures
            r@ == Particles::curr_positions(self@),
    {
        assert(self.curr_pos@ =~= Particles::curr_positions(self@));
        &self.curr_pos
    }

    /// The column of masses.
    pub fn mass(&self) -> (r: &Vec<Scalar>)
        requires
            self.wf(),
        ensures
            r@ == Particles::masses(self@),
    {
        assert(self.mass@ =~= Particles::masses(self@));
        &self.mass
    }

    /// The column of gathered forces.
    pub fn force(&self) -> (r: &Vec<Vec2>)
        requires
            self.wf(),
        ensures
            r@ == Particles::forces(self@),
    {
        assert(self.force@ =~= Particles::forces(self@));
        &self.force
    }

    /// Replaces the previous position of the particle in slot `ind`.
    pub fn set_prev_pos(&mut self, ind: usize, p: Vec2)
        requires
            old(self).wf(),
            ind < old(self)@.len(),
        ensures
            final(self).wf(),
            final(self)@ == old(self)@.update(ind as int, old(self)@[ind as int].with_prev_pos(p)),
    {
        self.prev_pos.set(ind, p);
        assert(self@ =~= old(self)@.update(ind as int, old(self)@[ind as int].with_prev_pos(p)));
    }

    /// Replaces the current position of the particle in slot `ind`.
    pub fn set_curr_pos(&mut self, ind: usize, p: Vec2)
        requires
            old(self).wf(),
            ind < old(self)@.len(),
        ensures
            final(self).wf(),
            final(self)@ == old(self)@.update(ind as int, old(self)@[ind as int].with_curr_pos(p)),
    {
        self.curr_pos.set(ind, p);
        assert(self@ =~= old(self)@.update(ind as int, old(self)@[ind as int].with_curr_pos(p)));
    }

    /// Adds `p` to the previous position of the particle in slot `ind`.
    pub fn add_prev_pos(&mut self, ind: usize, p: Vec2)
        requires
            old(self).wf(),
            ind < old(self)@.len(),
        ensures
            final(self).wf(),
            final(self)@ == old(self)@.update(
                ind as int,
                old(self)@[ind as int].with_prev_pos(old(self)@[ind as int].prev_pos.plus(p)),
            ),
    {
        let mut v = self.prev_pos[ind];
        v.add(p);
        self.set_prev_pos(ind, v);
    }

    /// Adds `p` to the current position of the particle in slot `ind`.
    pub fn add_curr_pos(&mut self, ind: usize, p: Vec2)
        requires
            old(self).wf(),
            ind < old(self)@.len(),
        ensures
            final(self).wf(),
            final(self)@ == old(self)@.update(
                ind as int,
                old(self)@[ind as int].with_curr_pos(old(self)@[ind as int].curr_pos.plus(p)),
            ),
    {
        let mut v = self.curr_pos[ind];
        v.add(p);
        self.set_curr_pos(ind, v);
    }

    /// Subtracts `p` from the previous position of the particle in slot
    /// `ind`.
    pub fn sub_prev_pos(&mut self, ind: usize, p: Vec2)
        requires
            old(self).wf(),
            ind < old(self)@.len(),
        ensures
            final(self).wf(),
            final(self)@ == old(self)@.update(
                ind as int,
                old(self)@[ind as int].with_prev_pos(old(self)@[ind as int].prev_pos.minus(p)),
            ),
    {
        let mut v = self.prev_pos[ind];
        v.sub(p);
        self.set_prev_pos(ind, v);
    }

    /// Subtracts `p` from the current position of the particle in slot
    /// `ind`.
    pub fn sub_curr_pos(&mut self, ind: usize, p: Vec2)
        requires
            old(self).wf(),
            ind < old(self)@.len(),
        ensures
            final(self).wf(),
            final(self)@ == old(self)@.update(
                ind as int,
                old(self)@[ind as int].with_curr_pos(old(self)@[ind as int].curr_pos.minus(p)),
            ),
    {
        let mut v = self.curr_pos[ind];
        v.sub(p);
        self.set_curr_pos(ind, v);
    }

    /// Replaces the gathered force of the particle in slot `ind`.
    pub fn set_force(&mut self, ind: usize, f: Vec2)
        requires
            old(self).wf(),
            ind < old(self)@.len(),
        ensures
            final(self).wf(),
            final(self)@ == old(self)@.update(ind as int, old(self)@[ind as int].with_force(f)),
    {
        self.force.set(ind, f);
        assert(self@ =~= old(self)@.update(ind as int, old(self)@[ind as int].with_force(f)));
    }
}

impl Default for Particles {
    /// Columns without a particle.
    fn default() -> (r: Particles)
        ensures
            r.wf(),
            r@ == Seq::<Particle>::empty(),
    {
        Particles::new()
    }
}

} // verus!
