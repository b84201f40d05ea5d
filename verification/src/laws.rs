//! What holds of every world, proved from the definitions that the
//! contracts of the scene use.

use crate::constraint::Projective;
use crate::ids::{ConstraintId, ParticleId};
use crate::manager::visits_each_once;
use crate::particle::Particle;
use crate::scalar::Scalar;
use crate::solver::{correction, delta, half, length, satisfied, tolerance};
use crate::vec2::Vec2;
use crate::world::{same_masses, World};
use vstd::prelude::*;

verus! {

impl World {
    /// The distance that the constraint `c` measures: between its two
    /// particles, or between its particle and its fixed point.
    pub open spec fn measure(self, c: Projective) -> Scalar {
        match c {
            Projective::ToPoint { particles, .. } => length(
                self.particle(particles.0).curr_pos.minus(self.particle(particles.1).curr_pos),
            ),
            Projective::ToFixed { particle, fixed, .. } => length(
                self.particle(particle).curr_pos.minus(fixed),
            ),
        }
    }

    /// Whether the identifier `id` has been handed out to a constraint that
    /// has since been removed, or to a particle.
    pub open spec fn retired(self, id: ConstraintId) -> bool {
        id.0 < self.issued && !self.has_constraint(id)
    }
}

/// Enforcing a constraint keeps a world well formed and moves particles
/// only: the constraints, the identifiers, the masses and the gathered
/// forces stay as they are.
pub proof fn law_enforce_moves_particles_only(w: World, c: Projective)
    requires
        w.wf(),
        w.knows_particles_of(c),
    ensures
        w.enforce(c).wf(),
        w.moved_to(w.enforce(c)),
{
    let after = w.enforce(c);
    assert(same_masses(w.particles, after.particles));
    w.lemma_with_particles_wf(after.particles);
}

/// Passes keep a world well formed and move particles only.
pub proof fn law_passes_move_particles_only(w: World, order: Seq<ConstraintId>, n: nat)
    requires
        w.wf(),
    ensures
        w.relax_pass(order).wf(),
        w.moved_to(w.relax_pass(order)),
        w.relax_passes(order, n).wf(),
        w.moved_to(w.relax_passes(order, n)),
    decreases n, order.len(),
{
    if order.len() > 0 {
        let front = w.relax_pass(order.drop_last());
        law_passes_move_particles_only(w, order.drop_last(), 0);
        if front.has_constraint(order.last()) {
            law_enforce_moves_particles_only(front, front.constraints[order.last()]);
        }
    }
    if n > 0 {
        let earlier = w.relax_passes(order, (n - 1) as nat);
        law_passes_move_particles_only(w, order, (n - 1) as nat);
        law_passes_move_particles_only(earlier, order, 0);
    }
}

/// A pass over one order followed by another is the pass over the first
/// order followed by the pass over the second; as many passes as two numbers
/// make together are the passes of the first number followed by those of
/// the second.
pub proof fn law_passes_compose(
    w: World,
    front: Seq<ConstraintId>,
    back: Seq<ConstraintId>,
    m: nat,
    n: nat,
)
    ensures
        w.relax_pass(front + back) == w.relax_pass(front).relax_pass(back),
        w.relax_passes(front, m + n) == w.relax_passes(front, m).relax_passes(front, n),
    decreases n, back.len(),
{
    if back.len() > 0 {
        law_passes_compose(w, front, back.drop_last(), m, 0);
        assert((front + back).drop_last() =~= front + back.drop_last());
    } else {
        assert(front + back =~= front);
    }
    if n > 0 {
        law_passes_compose(w, front, back, m, (n - 1) as nat);
        assert(((m + n) - 1) as nat == m + ((n - 1) as nat));
    }
}

/// A step keeps a world well formed and moves particles only. The force
/// gathered on a particle is still there after the step.
pub proof fn law_step_moves_particles_only(
    w: World,
    order: Seq<ConstraintId>,
    iterations: nat,
    dt: Scalar,
)
    requires
        w.wf(),
    ensures
        w.integrate(dt).wf(),
        w.moved_to(w.integrate(dt)),
        w.step(order, iterations, dt).wf(),
        w.moved_to(w.step(order, iterations, dt)),
{
    assert(same_masses(w.particles, w.integrate(dt).particles));
    w.lemma_with_particles_wf(w.integrate(dt).particles);
    let relaxed = w.relax_passes(order, iterations);
    law_passes_move_particles_only(w, order, iterations);
    assert(same_masses(relaxed.particles, relaxed.integrate(dt).particles));
    relaxed.lemma_with_particles_wf(relaxed.integrate(dt).particles);
}

/// A constraint whose measured distance satisfies its comparator moves
/// nothing when it is enforced: both of its ends stay where they are, and
/// so does every other particle.
pub proof fn law_satisfied_constraint_moves_nothing(w: World, c: Projective)
    requires
        satisfied(c.gate(), w.measure(c), Scalar::from_u32(c.target())),
    ensures
        w.enforce(c) == w,
{
}

/// A pass over constraints that are all satisfied in a world leaves the
/// world as it is.
pub proof fn law_pass_over_satisfied_constraints(w: World, order: Seq<ConstraintId>)
    requires
        forall|k: int|
            0 <= k < order.len() && w.has_constraint(#[trigger] order[k]) ==> satisfied(
                w.constraints[order[k]].gate(),
                w.measure(w.constraints[order[k]]),
                Scalar::from_u32(w.constraints[order[k]].target()),
            ),
    ensures
        w.relax_pass(order) == w,
    decreases order.len(),
{
    if order.len() > 0 {
        let front = order.drop_last();
        assert forall|k: int| 0 <= k < front.len() && w.has_constraint(#[trigger] front[k]) implies satisfied(
            w.constraints[front[k]].gate(),
            w.measure(w.constraints[front[k]]),
            Scalar::from_u32(w.constraints[front[k]].target()),
        ) by {
            assert(front[k] == order[k]);
        }
        law_pass_over_satisfied_constraints(w, front);
        let id = order[order.len() - 1];
        if w.has_constraint(id) {
            law_satisfied_constraint_moves_nothing(w, w.constraints[id]);
        }
    }
}

/// What a constraint between two different particles takes from the first
/// it gives to the second: with `part` half of the correction, the first
/// ends at its position less `part` and the second at its position plus
/// `part`. Where the constraint asks for no correction neither moves. No
/// other particle moves.
pub proof fn law_point_correction_is_symmetric(
    w: World,
    a: ParticleId,
    b: ParticleId,
    c: Projective,
)
    requires
        w.wf(),
        w.has_particle(a),
        w.has_particle(b),
        a != b,
        c matches Projective::ToPoint { particles, .. } && particles.0 == a && particles.1 == b,
    ensures
        match correction(w.particle(a).curr_pos, w.particle(b).curr_pos, c.target(), c.gate()) {
            Some(v) => {
                &&& w.enforce(c).particle(a).curr_pos == w.particle(a).curr_pos.minus(
                    v.scaled(half()),
                )
                &&& w.enforce(c).particle(b).curr_pos == w.particle(b).curr_pos.plus(
                    v.scaled(half()),
                )
            },
            None => w.enforce(c) == w,
        },
        forall|other: ParticleId|
            w.has_particle(other) && other != a && other != b ==> w.enforce(c).particle(other)
                == w.particle(other),
{
    assert(w.slots[a] != w.slots[b]);
    assert forall|other: ParticleId|
        w.has_particle(other) && other != a && other != b implies w.enforce(c).particle(other)
        == w.particle(other) by {
        assert(w.slots[other] != w.slots[a]);
        assert(w.slots[other] != w.slots[b]);
    }
}

/// A constraint to a fixed point takes its whole correction from its
/// particle and moves no other particle.
pub proof fn law_fixed_correction_moves_one_particle(w: World, a: ParticleId, c: Projective)
    requires
        w.wf(),
        w.has_particle(a),
        c matches Projective::ToFixed { particle, .. } && particle == a,
    ensures
        w.enforce(c).particle(a).curr_pos == w.particle(a).curr_pos.minus(
            delta(w.particle(a).curr_pos, c->fixed, c.target(), c.gate()),
        ) || w.enforce(c) == w,
        forall|other: ParticleId|
            w.has_particle(other) && other != a ==> w.enforce(c).particle(other) == w.particle(
                other,
            ),
{
    assert forall|other: ParticleId|
        w.has_particle(other) && other != a implies w.enforce(c).particle(other) == w.particle(
        other,
    ) by {
        assert(w.slots[other] != w.slots[a]);
    }
}

/// Two points that are closer than the tolerance ask for no correction,
/// whatever the target distance and the comparator: the correction vector
/// is zero.
pub proof fn law_no_correction_below_tolerance(pos: Vec2, c_pos: Vec2, c: Projective)
    requires
        length(pos.minus(c_pos)).less_than(tolerance()),
    ensures
        correction(pos, c_pos, c.target(), c.gate()) is None,
        delta(pos, c_pos, c.target(), c.gate()) == Vec2::zero(),
{
}

/// A pass neither adds nor removes a constraint.
proof fn lemma_pass_keeps_constraints(w: World, order: Seq<ConstraintId>)
    ensures
        w.relax_pass(order).constraints == w.constraints,
    decreases order.len(),
{
    if order.len() > 0 {
        lemma_pass_keeps_constraints(w, order.drop_last());
    }
}

/// The order `order` with every occurrence of `id` left out.
pub open spec fn leaving_out(order: Seq<ConstraintId>, id: ConstraintId) -> Seq<ConstraintId> {
    order.filter(|k: ConstraintId| k != id)
}

/// Once a constraint is removed, enforcing its identifier changes nothing,
/// a pass changes what it would change without that identifier in its
/// order, and the order in which the store walks its constraints does not
/// hold the identifier.
pub proof fn law_removed_constraint_moves_nothing(
    w: World,
    id: ConstraintId,
    order: Seq<ConstraintId>,
)
    ensures
        w.remove_constraint(id).relax(id) == w.remove_constraint(id),
        w.remove_constraint(id).relax_pass(order) == w.remove_constraint(id).relax_pass(
            leaving_out(order, id),
        ),
        visits_each_once(order, w.remove_constraint(id).constraints) ==> !order.contains(id),
    decreases order.len(),
{
    reveal(Seq::filter);
    let after = w.remove_constraint(id);
    if order.len() > 0 {
        let front = order.drop_last();
        let last = order.last();
        law_removed_constraint_moves_nothing(w, id, front);
        if last != id {
            assert(leaving_out(order, id) == leaving_out(front, id).push(last));
            assert(leaving_out(order, id).drop_last() =~= leaving_out(front, id));
        } else {
            assert(leaving_out(order, id) == leaving_out(front, id));
            lemma_pass_keeps_constraints(after, front);
        }
    } else {
        assert(leaving_out(order, id) =~= order);
    }
}

/// An identifier is handed out once. An identifier that a well-formed
/// world has yet to hand out names neither a particle nor a constraint of
/// it; the next particle and the next constraint receive such an
/// identifier, and the world stays well formed.
pub proof fn law_new_identifiers_are_unused(w: World, p: Particle, c: Projective)
    requires
        w.wf(),
    ensures
        forall|id: ParticleId| id.0 >= w.issued ==> !#[trigger] w.has_particle(id),
        forall|id: ConstraintId| id.0 >= w.issued ==> !#[trigger] w.has_constraint(id),
        w.issued < usize::MAX && p.mass.is_positive() ==> w.add_particle(p).wf()
            && w.add_particle(p).issued > w.issued,
        w.issued < usize::MAX && w.knows_particles_of(c) ==> w.add_constraint(c).wf()
            && w.add_constraint(c).issued > w.issued,
{
    if w.issued < usize::MAX && p.mass.is_positive() {
        w.lemma_add_particle_wf(p);
    }
    if w.issued < usize::MAX && w.knows_particles_of(c) {
        let after = w.add_constraint(c);
        assert(after.wf());
    }
}

/// The identifier of a removed constraint is never used again: removing
/// a constraint retires its identifier, and a retired identifier stays
/// retired whatever is added, removed or moved afterwards.
pub proof fn law_removed_identifier_stays_unused(
    w: World,
    id: ConstraintId,
    other: ConstraintId,
    p: Particle,
    c: Projective,
    particles: Seq<Particle>,
)
    requires
        w.wf(),
    ensures
        w.has_constraint(id) ==> w.remove_constraint(id).retired(id),
        w.remove_constraint(id).wf(),
        w.retired(id) && w.issued < usize::MAX ==> w.add_particle(p).retired(id),
        w.retired(id) && w.issued < usize::MAX ==> w.add_constraint(c).retired(id),
        w.retired(id) ==> w.remove_constraint(other).retired(id),
        w.retired(id) ==> w.with_particles(particles).retired(id),
{
}

} // verus!
