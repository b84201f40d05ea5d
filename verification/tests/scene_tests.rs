use verlet2d::constraint::{Cmp, Pair, Projective};
use verlet2d::error::SceneError;
use verlet2d::ids::{ConstraintId, ParticleId};
use verlet2d::particle::Particle;
use verlet2d::scalar::Scalar;
use verlet2d::scene::{Scene, Settings};
use verlet2d::vec2::Vec2;

fn s(x: f32) -> Scalar {
    Scalar::from_bits(x.to_bits())
}

fn v(x: f32, y: f32) -> Vec2 {
    Vec2::new(s(x), s(y))
}

fn xy(p: Vec2) -> (f32, f32) {
    (f32::from_bits(p.x.to_bits()), f32::from_bits(p.y.to_bits()))
}

fn at_rest(scene: &mut Scene, x: f32, y: f32) -> ParticleId {
    scene.add_particle(v(x, y), v(x, y), s(1.0)).unwrap()
}

fn curr(scene: &Scene, id: ParticleId) -> (f32, f32) {
    xy(scene.particle(id).unwrap().curr_pos)
}

fn prev(scene: &Scene, id: ParticleId) -> (f32, f32) {
    xy(scene.particle(id).unwrap().prev_pos)
}

fn one_pass(width: u32, height: u32) -> Scene {
    Scene::with_settings(Settings { width, height, timestep: s(1.0 / 60.0), iterations: 1 })
}

#[test]
fn new_scene_has_the_standard_settings() {
    let scene = Scene::new(640, 480);
    assert_eq!(scene.width(), 640);
    assert_eq!(scene.height(), 480);
    assert_eq!(scene.iterations(), 3);
    assert_eq!(scene.timestep().to_bits(), (1.0f32 / 60.0f32).to_bits());
    assert_eq!(scene.particle_count(), 0);
    assert_eq!(scene.particles_length(), 0);
    assert!(scene.particle_positions().is_empty());
    assert!(scene.constraint_ids().is_empty());
}

#[test]
fn settings_are_kept_as_given() {
    let settings = Settings { width: 1, height: 2, timestep: s(0.25), iterations: 10 };
    let mut scene = Scene::with_settings(settings);
    assert_eq!(scene.width(), 1);
    assert_eq!(scene.height(), 2);
    assert_eq!(scene.timestep(), s(0.25));
    assert_eq!(scene.iterations(), 10);
    at_rest(&mut scene, 0.0, 0.0);
    scene.step();
    assert_eq!(scene.timestep(), s(0.25));
    assert_eq!(scene.iterations(), 10);
}

#[test]
fn particles_length_counts_coordinates() {
    let mut scene = Scene::new(10, 10);
    at_rest(&mut scene, 0.0, 0.0);
    at_rest(&mut scene, 1.0, 0.0);
    at_rest(&mut scene, 2.0, 0.0);
    assert_eq!(scene.particle_count(), 3);
    assert_eq!(scene.particles_length(), 6);
    assert_eq!(scene.particle_positions(), &vec![v(0.0, 0.0), v(1.0, 0.0), v(2.0, 0.0)]);
}

#[test]
fn free_particle_keeps_its_velocity() {
    let mut scene = Scene::new(10, 10);
    let a = scene.add_particle(v(1.0, 2.0), v(3.0, 5.0), s(1.0)).unwrap();
    scene.verlet_step(0);
    assert_eq!(curr(&scene, a), (5.0, 8.0));
    assert_eq!(prev(&scene, a), (3.0, 5.0));
    scene.step();
    assert_eq!(curr(&scene, a), (7.0, 11.0));
    assert_eq!(prev(&scene, a), (5.0, 8.0));
}

#[test]
fn free_particle_moves_by_twice_current_less_previous() {
    let cases = [(0.1f32, 0.2f32, 0.3f32, 0.7f32), (-3.25, 1.0e-3, 12.5, -1.0e6), (7.0, 7.0, 7.0, 7.0)];
    for (px, py, cx, cy) in cases {
        let before = Particle::new(v(px, py), v(cx, cy), s(1.0), Vec2::zero());
        let after = before.verlet_step(s(1.0 / 60.0));
        assert_eq!(xy(after.curr_pos), (2.0 * cx - px, 2.0 * cy - py));
        assert_eq!(xy(after.prev_pos), (cx, cy));
        assert_eq!(after.mass, before.mass);
        assert_eq!(after.force, before.force);
    }
}

#[test]
fn force_accelerates_by_the_squared_time_step_over_the_mass() {
    let dt = 1.0f32 / 60.0f32;
    let before = Particle::new(v(0.0, 10.0), v(0.5, 9.0), s(2.0), v(3.0, -10.0));
    let after = before.verlet_step(s(dt));
    let k = dt * dt / 2.0f32;
    assert_eq!(
        xy(after.curr_pos),
        (0.5f32 * 2.0 - 0.0 + 3.0f32 * k, 9.0f32 * 2.0 - 10.0 + -10.0f32 * k)
    );
    assert_eq!(xy(after.prev_pos), (0.5, 9.0));
    let with_unit_step = before.verlet_step(s(1.0));
    assert_eq!(xy(with_unit_step.curr_pos), (2.5, 3.0));
}

#[test]
fn step_does_not_clear_the_force() {
    let mut scene = Scene::with_settings(Settings {
        width: 1,
        height: 1,
        timestep: s(1.0),
        iterations: 3,
    });
    let a = at_rest(&mut scene, 0.0, 0.0);
    scene.set_force(a, v(0.0, -2.0)).unwrap();
    scene.step();
    assert_eq!(curr(&scene, a), (0.0, -2.0));
    assert_eq!(scene.particle(a).unwrap().force, v(0.0, -2.0));
    scene.step();
    assert_eq!(curr(&scene, a), (0.0, -6.0));
    scene.annul_forces(a).unwrap();
    scene.step();
    assert_eq!(curr(&scene, a), (0.0, -10.0));
    scene.add_force(a, v(1.0, 4.0)).unwrap();
    scene.add_force(a, v(1.0, 0.0)).unwrap();
    assert_eq!(scene.particle(a).unwrap().force, v(2.0, 4.0));
}

#[test]
fn verlet_step_moves_one_particle_only() {
    let mut scene = Scene::new(10, 10);
    let a = scene.add_particle(v(0.0, 0.0), v(1.0, 1.0), s(1.0)).unwrap();
    let b = scene.add_particle(v(0.0, 0.0), v(2.0, 2.0), s(1.0)).unwrap();
    scene.verlet_step(1);
    assert_eq!(curr(&scene, a), (1.0, 1.0));
    assert_eq!(prev(&scene, a), (0.0, 0.0));
    assert_eq!(curr(&scene, b), (4.0, 4.0));
    assert_eq!(prev(&scene, b), (2.0, 2.0));
    scene.integrate();
    assert_eq!(curr(&scene, a), (2.0, 2.0));
    assert_eq!(curr(&scene, b), (6.0, 6.0));
}

#[test]
fn point_constraint_halves_the_error_between_two_particles() {
    let mut scene = Scene::new(100, 100);
    let a = at_rest(&mut scene, 0.0, 0.0);
    let b = at_rest(&mut scene, 10.0, 0.0);
    let c = scene.add_point_constraint(a, b, 5, Cmp::Equal).unwrap();
    assert_eq!(xy(Scene::constraint_delta(v(0.0, 0.0), v(10.0, 0.0), 5, Cmp::Equal)), (-5.0, 0.0));
    assert_eq!(scene.satisfy_constraint(c), Ok(()));
    assert_eq!(curr(&scene, a), (2.5, 0.0));
    assert_eq!(curr(&scene, b), (7.5, 0.0));
    assert_eq!(prev(&scene, a), (0.0, 0.0));
    assert_eq!(prev(&scene, b), (10.0, 0.0));
}

#[test]
fn fixed_constraint_moves_the_particle_by_the_whole_error() {
    let mut scene = Scene::new(100, 100);
    let a = at_rest(&mut scene, 0.0, 10.0);
    let c = scene.add_fixed_constraint(a, v(0.0, 0.0), 8, Cmp::Equal).unwrap();
    assert_eq!(xy(Scene::constraint_delta(v(0.0, 10.0), v(0.0, 0.0), 8, Cmp::Equal)), (0.0, 2.0));
    assert_eq!(scene.satisfy_constraint(c), Ok(()));
    assert_eq!(curr(&scene, a), (0.0, 8.0));
    assert_eq!(
        scene.constraint(c),
        Some(Projective::ToFixed { particle: a, fixed: v(0.0, 0.0), dist: 8, cmp: Cmp::Equal })
    );
}

#[test]
fn point_correction_is_equal_and_opposite() {
    let mut scene = Scene::new(100, 100);
    let a = at_rest(&mut scene, 1.0, 1.0);
    let b = at_rest(&mut scene, 4.0, 5.0);
    let bystander = at_rest(&mut scene, 2.0, 2.0);
    let c = scene.add_point_constraint(a, b, 10, Cmp::Equal).unwrap();
    scene.satisfy_constraint(c).unwrap();
    let (ax, ay) = curr(&scene, a);
    let (bx, by) = curr(&scene, b);
    assert_eq!((ax, ay), (-0.5, -1.0));
    assert_eq!((bx, by), (5.5, 7.0));
    assert_eq!((ax - 1.0, ay - 1.0), (-(bx - 4.0), -(by - 5.0)));
    assert_eq!(curr(&scene, bystander), (2.0, 2.0));
}

#[test]
fn point_correction_gives_what_it_takes() {
    let mut scene = Scene::new(100, 100);
    let a = at_rest(&mut scene, 0.3, -7.1);
    let b = at_rest(&mut scene, 12.9, 4.4);
    let c = scene.add_point_constraint(a, b, 3, Cmp::Less).unwrap();
    let mut part = Scene::constraint_delta(v(0.3, -7.1), v(12.9, 4.4), 3, Cmp::Less);
    part.scale(s(0.5));
    let mut wanted_a = v(0.3, -7.1);
    wanted_a.sub(part);
    let mut wanted_b = v(12.9, 4.4);
    wanted_b.add(part);
    scene.satisfy_constraint(c).unwrap();
    assert_eq!(scene.particle(a).unwrap().curr_pos, wanted_a);
    assert_eq!(scene.particle(b).unwrap().curr_pos, wanted_b);
    assert_ne!(wanted_a, v(0.3, -7.1));
}

#[test]
fn correction_follows_the_formula() {
    let (px, py, qx, qy) = (0.3f32, -7.1f32, 12.9f32, 4.4f32);
    let (dx, dy) = (px - qx, py - qy);
    let d = (dx * dx + dy * dy).sqrt();
    let share = (d - 3.0f32) / d;
    let got = Scene::constraint_delta(v(px, py), v(qx, qy), 3, Cmp::Equal);
    assert_eq!(xy(got), (dx * share, dy * share));
    assert_eq!(Scene::constraint_correction(v(px, py), v(qx, qy), 3, Cmp::Equal), Some(got));
}

#[test]
fn satisfied_less_constraint_moves_nothing() {
    let mut scene = Scene::new(100, 100);
    let a = at_rest(&mut scene, -0.0, 1.0);
    let b = at_rest(&mut scene, 3.0, -0.0);
    let c = scene.add_point_constraint(a, b, 5, Cmp::Less).unwrap();
    let before = (scene.particle(a), scene.particle(b));
    assert_eq!(Scene::constraint_correction(v(-0.0, 1.0), v(3.0, -0.0), 5, Cmp::Less), None);
    assert_eq!(Scene::constraint_delta(v(-0.0, 1.0), v(3.0, -0.0), 5, Cmp::Less), Vec2::zero());
    assert_eq!(scene.satisfy_constraint(c), Ok(()));
    assert_eq!((scene.particle(a), scene.particle(b)), before);
    scene.satisfy();
    assert_eq!((scene.particle(a), scene.particle(b)), before);
}

#[test]
fn each_comparator_rests_on_its_own_side() {
    let near = v(0.0, 4.0);
    let on = v(0.0, 8.0);
    let far = v(0.0, 10.0);
    let anchor = v(0.0, 0.0);
    let asked = |pos: Vec2, gate: Cmp| Scene::constraint_correction(pos, anchor, 8, gate).map(xy);
    assert_eq!(asked(near, Cmp::Less), None);
    assert_eq!(asked(on, Cmp::Less), Some((0.0, 0.0)));
    assert_eq!(asked(far, Cmp::Less), Some((0.0, 2.0)));
    assert_eq!(asked(near, Cmp::Equal), Some((0.0, -4.0)));
    assert_eq!(asked(on, Cmp::Equal), None);
    assert_eq!(asked(far, Cmp::Equal), Some((0.0, 2.0)));
    assert_eq!(asked(near, Cmp::Greater), Some((0.0, -4.0)));
    assert_eq!(asked(on, Cmp::Greater), Some((0.0, 0.0)));
    assert_eq!(asked(far, Cmp::Greater), None);
}

#[test]
fn greater_constraint_pushes_a_particle_out() {
    let mut scene = Scene::new(100, 100);
    let a = at_rest(&mut scene, 0.0, 4.0);
    let c = scene.add_fixed_constraint(a, v(0.0, 0.0), 8, Cmp::Greater).unwrap();
    scene.satisfy_constraint(c).unwrap();
    assert_eq!(curr(&scene, a), (0.0, 8.0));
}

#[test]
fn coincident_points_ask_for_no_correction() {
    for gate in [Cmp::Less, Cmp::Equal, Cmp::Greater] {
        for dist in [0, 1, 5, 1000, u32::MAX] {
            for at in [v(0.0, 0.0), v(3.5, -2.25), v(-1.0e20, 1.0e-20)] {
                let got = Scene::constraint_delta(at, at, dist, gate);
                assert_eq!(xy(got), (0.0, 0.0));
                assert!(got.x.is_finite() && got.y.is_finite());
            }
        }
    }
}

#[test]
fn coincident_particles_stay_where_they_are() {
    for dist in [0, 7] {
        let mut scene = Scene::new(100, 100);
        let a = at_rest(&mut scene, 3.5, -2.25);
        let b = at_rest(&mut scene, 3.5, -2.25);
        scene.add_point_constraint(a, b, dist, Cmp::Equal).unwrap();
        scene.add_point_constraint(a, a, dist, Cmp::Greater).unwrap();
        scene.step();
        assert_eq!(curr(&scene, a), (3.5, -2.25));
        assert_eq!(curr(&scene, b), (3.5, -2.25));
    }
}

#[test]
fn points_closer_than_the_tolerance_are_left_alone() {
    let got = Scene::constraint_correction(v(1.0e-9, 0.0), v(0.0, 0.0), 5, Cmp::Equal);
    assert_eq!(got, None);
    let moved = Scene::constraint_correction(v(1.0e-7, 0.0), v(0.0, 0.0), 5, Cmp::Equal);
    assert!(moved.is_some());
}

#[test]
fn removed_constraint_moves_nothing() {
    let mut scene = Scene::new(100, 100);
    let a = at_rest(&mut scene, 0.0, 0.0);
    let b = at_rest(&mut scene, 10.0, 0.0);
    let c = scene.add_point_constraint(a, b, 5, Cmp::Equal).unwrap();
    assert_eq!(
        scene.remove_constraint(c),
        Ok(Projective::ToPoint { particles: Pair(a, b), dist: 5, cmp: Cmp::Equal })
    );
    scene.satisfy();
    assert_eq!(curr(&scene, a), (0.0, 0.0));
    assert_eq!(curr(&scene, b), (10.0, 0.0));
    scene.satisfy_in_order(&vec![c, c]);
    assert_eq!(curr(&scene, a), (0.0, 0.0));
    assert_eq!(curr(&scene, b), (10.0, 0.0));
    scene.step();
    assert_eq!(curr(&scene, a), (0.0, 0.0));
    assert_eq!(curr(&scene, b), (10.0, 0.0));
    assert!(scene.constraint_ids().is_empty());
}

#[test]
fn stale_constraint_identifier_is_unknown() {
    let mut scene = Scene::new(100, 100);
    let a = at_rest(&mut scene, 0.0, 0.0);
    let c = scene.add_fixed_constraint(a, v(1.0, 1.0), 5, Cmp::Equal).unwrap();
    assert!(scene.remove_constraint(c).is_ok());
    assert_eq!(scene.remove_constraint(c), Err(SceneError::UnknownConstraint));
    assert_eq!(scene.satisfy_constraint(c), Err(SceneError::UnknownConstraint));
    assert_eq!(scene.constraint(c), None);
    let d = scene.add_fixed_constraint(a, v(1.0, 1.0), 5, Cmp::Equal).unwrap();
    assert_ne!(c, d);
    assert_eq!(scene.satisfy_constraint(c), Err(SceneError::UnknownConstraint));
    assert_eq!(scene.satisfy_constraint(ConstraintId(77)), Err(SceneError::UnknownConstraint));
}

#[test]
fn identifiers_are_handed_out_once() {
    let mut scene = Scene::new(100, 100);
    let mut seen = Vec::new();
    let first = at_rest(&mut scene, 0.0, 0.0);
    seen.push(first.0);
    for round in 0..10 {
        let p = at_rest(&mut scene, round as f32, 0.0);
        let c = scene.add_point_constraint(first, p, round, Cmp::Less).unwrap();
        let d = scene.add_fixed_constraint(p, v(0.0, 0.0), round, Cmp::Greater).unwrap();
        scene.remove_constraint(c).unwrap();
        for id in [p.0, c.0, d.0] {
            assert!(!seen.contains(&id));
            seen.push(id);
        }
    }
    assert_eq!(seen, (0..31).collect::<Vec<usize>>());
}

#[test]
fn unknown_particle_is_reported_by_the_scene() {
    let mut scene = Scene::new(100, 100);
    let a = at_rest(&mut scene, 0.0, 0.0);
    let stranger = ParticleId(5);
    assert_eq!(scene.particle(stranger), Err(SceneError::UnknownParticle));
    assert_eq!(scene.set_curr_pos(stranger, v(0.0, 0.0)), Err(SceneError::UnknownParticle));
    assert_eq!(scene.set_prev_pos(stranger, v(0.0, 0.0)), Err(SceneError::UnknownParticle));
    assert_eq!(scene.set_force(stranger, v(0.0, 0.0)), Err(SceneError::UnknownParticle));
    assert_eq!(scene.add_force(stranger, v(0.0, 0.0)), Err(SceneError::UnknownParticle));
    assert_eq!(scene.annul_forces(stranger), Err(SceneError::UnknownParticle));
    assert_eq!(
        scene.add_point_constraint(a, stranger, 1, Cmp::Less),
        Err(SceneError::UnknownParticle)
    );
    assert_eq!(
        scene.add_fixed_constraint(stranger, v(0.0, 0.0), 1, Cmp::Less),
        Err(SceneError::UnknownParticle)
    );
    assert_eq!(scene.add_particle(v(0.0, 0.0), v(0.0, 0.0), s(-1.0)), Err(SceneError::InvalidMass));
    assert_eq!(scene.particle_count(), 1);
}

#[test]
fn scene_setters_change_one_particle() {
    let mut scene = Scene::new(100, 100);
    let a = at_rest(&mut scene, 0.0, 0.0);
    let b = at_rest(&mut scene, 1.0, 1.0);
    assert_eq!(scene.set_curr_pos(a, v(2.0, 3.0)), Ok(()));
    assert_eq!(scene.set_prev_pos(a, v(4.0, 5.0)), Ok(()));
    assert_eq!(scene.set_force(a, v(6.0, 7.0)), Ok(()));
    assert_eq!(
        scene.particle(a),
        Ok(Particle::new(v(4.0, 5.0), v(2.0, 3.0), s(1.0), v(6.0, 7.0)))
    );
    assert_eq!(
        scene.particle(b),
        Ok(Particle::new(v(1.0, 1.0), v(1.0, 1.0), s(1.0), Vec2::zero()))
    );
    assert_eq!(scene.particle_positions(), &vec![v(2.0, 3.0), v(1.0, 1.0)]);
}

#[test]
fn step_relaxes_before_it_integrates() {
    let mut scene = one_pass(100, 100);
    let a = at_rest(&mut scene, 0.0, 10.0);
    scene.add_fixed_constraint(a, v(0.0, 0.0), 8, Cmp::Equal).unwrap();
    scene.step();
    assert_eq!(curr(&scene, a), (0.0, 6.0));
    assert_eq!(prev(&scene, a), (0.0, 8.0));
}

#[test]
fn later_constraint_sees_the_earlier_correction() {
    let mut scene = one_pass(100, 100);
    let a = at_rest(&mut scene, 0.0, 0.0);
    let b = at_rest(&mut scene, 10.0, 0.0);
    let c = at_rest(&mut scene, 20.0, 0.0);
    let ab = scene.add_point_constraint(a, b, 5, Cmp::Equal).unwrap();
    let bc = scene.add_point_constraint(b, c, 5, Cmp::Equal).unwrap();
    let mut forward = scene.clone();
    forward.satisfy_in_order(&vec![ab, bc]);
    let share = (12.5f32 - 5.0) / 12.5f32;
    let part = (7.5f32 - 20.0) * share * 0.5;
    assert_eq!(curr(&forward, a), (2.5, 0.0));
    assert_eq!(curr(&forward, b), (7.5 - part, 0.0));
    assert_eq!(curr(&forward, c), (20.0 + part, 0.0));
    let mut backward = scene.clone();
    backward.satisfy_in_order(&vec![bc, ab]);
    let back_part = (0.0f32 - 12.5) * share * 0.5;
    assert_eq!(curr(&backward, c), (17.5, 0.0));
    assert_eq!(curr(&backward, a), (0.0 - back_part, 0.0));
    assert_eq!(curr(&backward, b), (12.5 + back_part, 0.0));
    assert_ne!(curr(&forward, b), curr(&backward, b));
}

#[test]
fn satisfy_walks_the_constraints_in_the_order_of_the_store() {
    let mut scene = Scene::new(100, 100);
    let mut last = at_rest(&mut scene, 0.0, 0.0);
    for k in 1..8 {
        let next = at_rest(&mut scene, 10.0 * k as f32, k as f32);
        scene.add_point_constraint(last, next, 5, Cmp::Equal).unwrap();
        last = next;
    }
    let order = scene.constraint_ids();
    assert_eq!(order.len(), 7);
    let mut by_hand = scene.clone();
    by_hand.satisfy_in_order(&order);
    let mut stepped = scene.clone();
    scene.satisfy();
    assert_eq!(scene.particle_positions(), by_hand.particle_positions());
    by_hand.integrate();
    let mut in_order = stepped.clone();
    stepped.step();
    in_order.step_in_order(&order);
    assert_eq!(stepped.particle_positions(), by_hand.particle_positions());
    assert_eq!(in_order.particle_positions(), by_hand.particle_positions());
}

#[test]
fn step_in_order_relaxes_in_the_given_order_and_integrates() {
    let mut scene = one_pass(100, 100);
    let a = scene.add_particle(v(0.0, 0.0), v(0.0, 0.0), s(1.0)).unwrap();
    let b = scene.add_particle(v(9.0, 0.0), v(10.0, 0.0), s(1.0)).unwrap();
    let c = scene.add_point_constraint(a, b, 5, Cmp::Equal).unwrap();
    scene.step_in_order(&vec![c]);
    assert_eq!(curr(&scene, a), (5.0, 0.0));
    assert_eq!(prev(&scene, a), (2.5, 0.0));
    assert_eq!(curr(&scene, b), (6.0, 0.0));
    assert_eq!(prev(&scene, b), (7.5, 0.0));
}

#[test]
fn passes_are_made_as_often_as_the_settings_say() {
    let build = |iterations: u32| {
        let mut scene = Scene::with_settings(Settings {
            width: 1,
            height: 1,
            timestep: s(1.0 / 60.0),
            iterations,
        });
        let a = at_rest(&mut scene, 0.0, 0.0);
        let b = at_rest(&mut scene, 10.0, 0.0);
        let c = at_rest(&mut scene, 20.0, 0.0);
        let ab = scene.add_point_constraint(a, b, 5, Cmp::Equal).unwrap();
        let bc = scene.add_point_constraint(b, c, 5, Cmp::Equal).unwrap();
        (scene, vec![ab, bc])
    };
    let (mut none, order) = build(0);
    none.satisfy_in_order(&order);
    assert_eq!(none.particle_positions(), &vec![v(0.0, 0.0), v(10.0, 0.0), v(20.0, 0.0)]);
    let (mut thrice, order) = build(3);
    thrice.satisfy_in_order(&order);
    let (mut once, order) = build(1);
    once.satisfy_in_order(&order);
    assert_ne!(once.particle_positions(), thrice.particle_positions());
    once.satisfy_in_order(&order);
    once.satisfy_in_order(&order);
    assert_eq!(once.particle_positions(), thrice.particle_positions());
}

#[test]
fn a_name_without_a_constraint_is_passed_over() {
    let mut scene = one_pass(100, 100);
    let a = at_rest(&mut scene, 0.0, 10.0);
    let c = scene.add_fixed_constraint(a, v(0.0, 0.0), 8, Cmp::Equal).unwrap();
    scene.satisfy_in_order(&vec![ConstraintId(50), c, ConstraintId(51)]);
    assert_eq!(curr(&scene, a), (0.0, 8.0));
}

#[test]
fn rope_hangs_from_its_anchor() {
    let mut scene = Scene::new(100, 100);
    let top = at_rest(&mut scene, 0.0, 0.0);
    let bottom = at_rest(&mut scene, 0.0, -3.0);
    scene.add_fixed_constraint(top, v(0.0, 0.0), 0, Cmp::Equal).unwrap();
    scene.add_point_constraint(top, bottom, 5, Cmp::Less).unwrap();
    scene.set_force(bottom, v(0.0, -100.0)).unwrap();
    for _ in 0..600 {
        scene.step();
    }
    let (x, y) = curr(&scene, bottom);
    assert!(x == 0.0);
    assert!(y < -3.0 && y > -7.0, "{}", y);
    let (tx, ty) = curr(&scene, top);
    assert!(tx.abs() < 1.0 && ty.abs() < 2.0, "{} {}", tx, ty);
}
