//! Vector composition and the joint operators.

use jointsim::enviroment::joint::Joint;
use jointsim::enviroment::joint::Vector;
use jointsim::fixed::SCALE;
use jointsim::trig::HALF_PI;
use jointsim::trig::PI;

fn unit_joint(x: i64, y: i64, speed: i64, angle: i64) -> Joint {
    Joint::new(x, y, 10 * SCALE, SCALE, speed, angle, SCALE, SCALE)
}

#[test]
fn compose_with_zero_is_identity() {
    let v = Vector { angle: 0, magnitude: 1000 };
    let z = Vector { angle: 31415, magnitude: 0 };
    let r = v.compose(z);
    assert_eq!(r.angle, 0);
    assert_eq!(r.magnitude, 1000);
}

#[test]
fn compose_is_commutative_on_samples() {
    let pairs = [
        (Vector { angle: 30000, magnitude: 5000 }, Vector { angle: -120000, magnitude: 777 }),
        (Vector { angle: 0, magnitude: 0 }, Vector { angle: 205888, magnitude: 58982 }),
        (Vector { angle: -1, magnitude: 65536 }, Vector { angle: 1, magnitude: -65536 }),
    ];
    for (a, b) in pairs {
        assert_eq!(a.compose(b), b.compose(a));
    }
}

#[test]
fn head_on_equal_mass_swap() {
    // equal masses, elasticity 1.0, moving straight at each other along x
    let mut a = unit_joint(0, 0, 1000, HALF_PI);
    let mut b = unit_joint(15 * SCALE, 0, 500, -HALF_PI);
    a.collide(&mut b, 1);
    // the speeds swap exactly, and so do the directions
    assert_eq!(a.speed, 500);
    assert_eq!(a.angle, -HALF_PI);
    assert_eq!(b.speed, 1000);
    assert_eq!(b.angle, HALF_PI);
    // kinetic energy is conserved exactly (equal masses: compare speeds squared)
    let before = 1000i128 * 1000 + 500 * 500;
    let after = i128::from(a.speed) * i128::from(a.speed) + i128::from(b.speed) * i128::from(
        b.speed,
    );
    assert_eq!(before, after);
    // the overlap of 5 units is padded by 1 and split between the bodies
    assert_eq!(a.x, -3 * SCALE);
    assert_eq!(b.x, 18 * SCALE);
    assert_eq!(a.y, 0);
    assert_eq!(b.y, 0);
}

#[test]
fn separated_joints_do_not_collide() {
    let mut a = unit_joint(0, 0, 1000, HALF_PI);
    let mut b = unit_joint(25 * SCALE, 0, 500, -HALF_PI);
    let a0 = a;
    let b0 = b;
    a.collide(&mut b, 1);
    assert_eq!(a, a0);
    assert_eq!(b, b0);
}

#[test]
fn right_wall_bounce_is_exact() {
    let width = 600 * SCALE;
    let height = 600 * SCALE;
    let size = 10 * SCALE;
    // one step past the wall, heading right
    let mut j = Joint::new(width - size + 1, 20 * SCALE, size, SCALE, 1000, 30000, 52429, SCALE);
    j.bounce(width, height);
    assert_eq!(j.x, width - size);
    assert_eq!(j.angle, -30000);
    // speed scaled by the elasticity 0.8: floor(1000 * 52429 / 65536)
    assert_eq!(j.speed, 800);
    assert_eq!(j.y, 20 * SCALE);
}

#[test]
fn corner_bounce_applies_both_walls() {
    let size = 10 * SCALE;
    let mut j = Joint::new(-5, -7, size, SCALE, 1000, 30000, SCALE, SCALE);
    j.bounce(600 * SCALE, 600 * SCALE);
    assert_eq!(j.x, size);
    assert_eq!(j.y, size);
    // mirrored by the vertical wall, then reflected by the horizontal one
    assert_eq!(j.angle, PI - (-30000));
    assert_eq!(j.speed, 1000);
}

#[test]
fn drag_scales_speed() {
    let mut j = Joint::new(0, 0, SCALE, SCALE, 1000, 0, SCALE, SCALE / 2);
    j.experience_drag();
    assert_eq!(j.speed, 500);
    j.experience_drag();
    assert_eq!(j.speed, 250);
}

#[test]
fn update_advances_along_the_heading() {
    // heading right at 3 units per step
    let mut j = Joint::new(0, 0, SCALE, SCALE, 3 * SCALE, HALF_PI, SCALE, SCALE);
    j.update(1);
    assert_eq!(j.x, 3 * SCALE);
    assert_eq!(j.y, 0);
    // heading up the screen: y decreases
    let mut k = Joint::new(0, 0, SCALE, SCALE, 2 * SCALE, 0, SCALE, SCALE);
    k.update(1);
    assert_eq!(k.x, 0);
    assert_eq!(k.y, -2 * SCALE);
}

#[test]
fn move_to_heads_at_a_tenth_of_the_distance() {
    let mut j = Joint::new(0, 0, SCALE, SCALE, 0, 0, SCALE, SCALE);
    j.move_to(3 * SCALE, 4 * SCALE);
    assert_eq!(j.speed, SCALE / 2);
    // still at the old position: only the velocity points at the target
    assert_eq!(j.x, 0);
    assert_eq!(j.y, 0);
}

#[test]
fn combine_merges_overlapping_equal_masses() {
    let mut a = unit_joint(0, 0, 0, 0);
    let b = unit_joint(10 * SCALE, 0, 0, 0);
    a.combine(b);
    // midpoint of equal masses
    assert_eq!(a.x, 5 * SCALE);
    assert_eq!(a.y, 0);
    // the survivor absorbs the pair's whole mass on top of its own
    assert_eq!(a.mass, 3 * SCALE);
    assert_eq!(a.speed, 0);
}

#[test]
fn attract_pulls_toward_the_other_body() {
    let mut a = unit_joint(0, 0, 0, 0);
    let b = unit_joint(10 * SCALE, 0, 0, 0);
    a.attract(b);
    // some speed toward +x: the heading's sine is positive
    assert!(a.speed > 0);
    let s = jointsim::trig::sin_fp(a.angle);
    assert!(s > 0, "attraction heading was {}", a.angle);
    // a coincident pair is left untouched
    let mut c = unit_joint(7, 7, 0, 12345);
    let d = unit_joint(7, 7, 0, 0);
    let c0 = c;
    c.attract(d);
    assert_eq!(c, c0);
}
