//! The environment: factories, queries, springs, and whole ticks.

use jointsim::enviroment::Enviroment;
use jointsim::enviroment::joint::Joint;
use jointsim::enviroment::joint::Vector;
use jointsim::enviroment::line::Line;
use jointsim::enviroment::spring::Spring;
use jointsim::fixed::SCALE;
use jointsim::fixed::div_fp;
use jointsim::fixed::mul_fp;
use jointsim::trig::HALF_PI;
use jointsim::trig::PI;

fn quiet_environment(width: i32, height: i32) -> Enviroment {
    Enviroment::new_custom(
        height,
        width,
        3277,
        false,
        false,
        true,
        true,
        false,
        false,
        true,
        13107,
        Vector { angle: 0, magnitude: 0 },
    )
}

#[test]
fn default_environment_configuration() {
    let e = Enviroment::new(600, 600);
    assert_eq!(e.width, 600);
    assert_eq!(e.height, 600);
    assert!(e.allow_acceleration && e.allow_bounce && e.allow_collide && e.allow_move);
    assert!(!e.allow_attract && !e.allow_combine && !e.allow_drag);
    assert_eq!(e.acceleration.angle, PI);
    assert_eq!(e.acceleration.magnitude, 58982);
    assert_eq!(e.get_joints().len(), 0);
}

#[test]
fn add_joint_derives_mass_and_drag() {
    let mut e = Enviroment::new(600, 600);
    let j = e.add_joint(300 * SCALE, 300 * SCALE, 10 * SCALE, 0, 0);
    // mass is the squared size: 100 units
    assert_eq!(j.mass, 100 * SCALE);
    assert_eq!(j.elasticity, 52429);
    let ratio = div_fp(j.mass, j.mass + 13107);
    assert_eq!(j.drag, mul_fp(ratio, ratio));
    assert!(0 < j.drag && j.drag < SCALE);
    assert_eq!(e.get_joints().len(), 1);
    assert_eq!(e.get_joint(0), j);
}

#[test]
fn add_joint_custom_keeps_given_mass() {
    let mut e = Enviroment::new(600, 600);
    let j = e.add_joint_custom(SCALE, 2 * SCALE, 3 * SCALE, 7 * SCALE, 100, 200, SCALE / 2);
    assert_eq!(j.x, SCALE);
    assert_eq!(j.y, 2 * SCALE);
    assert_eq!(j.size, 3 * SCALE);
    assert_eq!(j.mass, 7 * SCALE);
    assert_eq!(j.speed, 100);
    assert_eq!(j.angle, 200);
    assert_eq!(j.elasticity, SCALE / 2);
    // the drag exponent is the size in whole units: three factors
    let ratio = div_fp(j.mass, j.mass + 13107);
    assert_eq!(j.drag, mul_fp(mul_fp(ratio, ratio), ratio));
}

#[test]
fn joint_at_sentinel_and_first_match() {
    let mut e = quiet_environment(600, 600);
    e.add_joint(300 * SCALE, 300 * SCALE, 10 * SCALE, 0, 0);
    // a point 5 units in: found
    assert_eq!(e.get_joint_at(305 * SCALE, 300 * SCALE), 0);
    // a point 11 units away from the only joint: the sentinel, the length
    assert_eq!(e.get_joint_at(311 * SCALE, 300 * SCALE), 1);
    // overlapping joints: the first in insertion order wins
    e.add_joint(302 * SCALE, 300 * SCALE, 10 * SCALE, 0, 0);
    assert_eq!(e.get_joint_at(303 * SCALE, 300 * SCALE), 0);
    // a point only the second joint covers
    assert_eq!(e.get_joint_at(311 * SCALE, 300 * SCALE), 1);
    // far from both: the new length
    assert_eq!(e.get_joint_at(500 * SCALE, 300 * SCALE), 2);
}

#[test]
fn remove_joint_shifts_later_indices() {
    let mut e = quiet_environment(600, 600);
    e.add_joint(100 * SCALE, 100 * SCALE, 10 * SCALE, 0, 0);
    e.add_joint(200 * SCALE, 200 * SCALE, 10 * SCALE, 0, 0);
    e.remove_joint(0);
    assert_eq!(e.get_joints().len(), 1);
    assert_eq!(e.get_joint(0).x, 200 * SCALE);
}

#[test]
fn spring_at_rest_length_exerts_no_force() {
    let a = Joint::new(0, 0, SCALE, SCALE, 0, 0, SCALE, SCALE);
    let b = Joint::new(5 * SCALE, 0, SCALE, SCALE, 0, 0, SCALE, SCALE);
    let mut s = Spring::new((0, 1), 5 * SCALE, 2 * SCALE);
    let (va, vb) = s.update(&a, &b);
    assert_eq!(va.magnitude, 0);
    assert_eq!(vb.magnitude, 0);
    // the endpoints were cached for the renderer
    assert_eq!(s.position_1, (0, 0));
    assert_eq!(s.position_2, (5 * SCALE, 0));
}

#[test]
fn stretched_spring_pulls_the_bodies_together() {
    let a = Joint::new(0, 0, SCALE, SCALE, 0, 0, SCALE, SCALE);
    let b = Joint::new(8 * SCALE, 0, SCALE, SCALE, 0, 0, SCALE, SCALE);
    let mut s = Spring::new((0, 1), 5 * SCALE, SCALE);
    let (va, vb) = s.update(&a, &b);
    // force = (5 - 8) * 1.0 = -3.0, divided by the first mass
    assert_eq!(va.magnitude, -3 * SCALE);
    assert_eq!(vb.magnitude, -3 * SCALE);
    // opposite perpendiculars of the bearing from a to b
    assert_eq!(va.angle, PI + HALF_PI);
    assert_eq!(vb.angle, PI - HALF_PI);
}

#[test]
fn stability_clamp_zeroes_small_speeds() {
    let mut e = Enviroment::new_custom(
        600,
        600,
        5000,
        false,
        false,
        true,
        true,
        false,
        false,
        true,
        13107,
        Vector { angle: 0, magnitude: 0 },
    );
    e.add_joint_custom(300 * SCALE, 300 * SCALE, 10 * SCALE, 100 * SCALE, 3000, HALF_PI, SCALE);
    e.update(16);
    assert_eq!(e.get_joint(0).speed, 0);
    // a speed above the threshold survives the tick
    let mut f = quiet_environment(600, 600);
    f.add_joint_custom(300 * SCALE, 300 * SCALE, 10 * SCALE, 100 * SCALE, 5000, HALF_PI, SCALE);
    f.update(16);
    assert_eq!(f.get_joint(0).speed, 5000);
}

#[test]
fn neutral_environment_holds_still() {
    // no gravity, no speed: a tick changes nothing, whatever dt is
    for dt in [1i64, 16, 1000] {
        let mut e = quiet_environment(600, 600);
        e.add_joint(300 * SCALE, 300 * SCALE, 10 * SCALE, 0, 0);
        e.update(dt);
        let j = e.get_joint(0);
        assert_eq!(j.x, 300 * SCALE);
        assert_eq!(j.y, 300 * SCALE);
        assert_eq!(j.speed, 0);
    }
}

#[test]
fn gravity_accelerates_a_resting_joint() {
    let mut e = Enviroment::new(600, 600);
    e.add_joint(300 * SCALE, 300 * SCALE, 10 * SCALE, 0, 0);
    e.update(16);
    let j = e.get_joint(0);
    // one step of the default gravity: 0.9 units straight down the screen
    assert_eq!(j.speed, 58982);
    assert_eq!(j.angle, PI);
    assert_eq!(j.x, 300 * SCALE);
    assert_eq!(j.y, 300 * SCALE + 58982);
}

#[test]
fn substeps_run_the_tick_repeatedly() {
    let mut once = Enviroment::new(600, 600);
    once.add_joint(300 * SCALE, 300 * SCALE, 10 * SCALE, 0, 0);
    once.update(8);
    once.update(8);
    let mut sub = Enviroment::new(600, 600);
    sub.add_joint(300 * SCALE, 300 * SCALE, 10 * SCALE, 0, 0);
    sub.update_substeps(16, 2);
    assert_eq!(once.get_joint(0), sub.get_joint(0));
}

#[test]
fn spring_drives_the_tick_pipeline() {
    let mut e = quiet_environment(2000, 2000);
    e.add_joint_custom(100 * SCALE, 100 * SCALE, 5 * SCALE, 25 * SCALE, 0, 0, SCALE);
    e.add_joint_custom(150 * SCALE, 100 * SCALE, 5 * SCALE, 25 * SCALE, 0, 0, SCALE);
    e.add_spring(0, 1, 30 * SCALE, SCALE / 4);
    e.update(16);
    // a stretched spring sets both joints moving
    assert!(e.get_joint(0).speed != 0);
    assert!(e.get_joint(1).speed != 0);
    // and caches its endpoints
    assert_eq!(e.get_spring(0).position_1, (100 * SCALE, 100 * SCALE));
    assert_eq!(e.get_spring(0).position_2, (150 * SCALE, 100 * SCALE));
}

#[test]
fn line_detects_the_closest_point() {
    let l = Line::new(0, 0, 10 * SCALE, 0, SCALE);
    let near = Joint::new(5 * SCALE, SCALE / 2, SCALE, SCALE, 0, 0, SCALE, SCALE);
    let far = Joint::new(5 * SCALE, 10 * SCALE, SCALE, SCALE, 0, 0, SCALE, SCALE);
    assert!(l.check_collide(near));
    assert!(!l.check_collide(far));
    // beyond the end, the closest point clamps to the endpoint
    let past_end = Joint::new(11 * SCALE, 0, SCALE, SCALE, 0, 0, SCALE, SCALE);
    assert!(l.check_collide(past_end));
    let far_past = Joint::new(20 * SCALE, 0, SCALE, SCALE, 0, 0, SCALE, SCALE);
    assert!(!l.check_collide(far_past));
}

#[test]
fn lines_are_stored_for_rendering() {
    let mut e = quiet_environment(600, 600);
    let l = e.add_line(0, 0, 100 * SCALE, 100 * SCALE, SCALE);
    assert_eq!(e.get_lines().len(), 1);
    assert_eq!(e.get_lines()[0], l);
    assert_eq!(l.width, SCALE);
}
