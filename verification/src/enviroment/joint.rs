//! The point mass and the polar vector it moves by.
//!
//! A `Vector` is a velocity or an impulse in polar form; composition goes
//! through Cartesian components and back, and is the one primitive every
//! force-application path uses. A `Joint` is a point mass with position,
//! size, mass, polar velocity, elasticity and drag. Each mutating method is
//! pinned exactly by a spec twin over the fixed-point model.

use vstd::prelude::*;
use crate::fixed::FP_MAX;
use crate::fixed::SCALE;
use crate::fixed::add_fp;
use crate::fixed::clamp_i128;
use crate::fixed::fp_clamp;
use crate::fixed::fp_in_range;
use crate::fixed::hypot_fp;
use crate::fixed::lemma_mul_bounds;
use crate::fixed::lemma_mul_nonneg;
use crate::fixed::lemma_square_nonneg;
use crate::fixed::lemma_square_pos;
use crate::fixed::mul_fp;
use crate::fixed::muldiv_fp;
use crate::fixed::div_fp;
use crate::fixed::spec_add_fp;
use crate::fixed::spec_div_fp;
use crate::fixed::spec_hypot;
use crate::fixed::spec_mul_fp;
use crate::fixed::spec_muldiv_fp;
use crate::fixed::spec_sub_fp;
use crate::fixed::spec_wavg_fp;
use crate::fixed::sub_fp;
use crate::fixed::tdiv;
use crate::fixed::wavg_fp;
use crate::trig::HALF_PI;
use crate::trig::PI;
use crate::trig::TWO_PI;
use crate::trig::atan2_fp;
use crate::trig::cos_fp;
use crate::trig::sin_fp;
use crate::trig::spec_atan2;
use crate::trig::spec_cos;
use crate::trig::spec_sin;

verus! {

/// A 2D quantity in polar form: a velocity or an impulse, never a position.
/// The magnitude may go negative transiently; composition folds the sign
/// back into the angle.
#[derive(Clone, Copy, PartialEq, Eq, Structural, Debug)]
pub struct Vector {
    pub angle: i64,
    pub magnitude: i64,
}

/// A point mass: position, collision radius, mass, polar velocity, and the
/// material coefficients.
#[derive(Clone, Copy, PartialEq, Eq, Structural, Debug)]
pub struct Joint {
    pub angle: i64,
    pub drag: i64,
    pub elasticity: i64,
    pub mass: i64,
    pub size: i64,
    pub speed: i64,
    pub x: i64,
    pub y: i64,
}

impl Vector {
    /// Both components in the saturation range.
    pub open spec fn wf(self) -> bool {
        fp_in_range(self.angle as int) && fp_in_range(self.magnitude as int)
    }
}

/// What `Vector::compose` returns: each vector to Cartesian components
/// (`dx` along the sine, `dy` along the cosine), summed, and converted back
/// through the arctangent; the magnitude is never negative.
pub open spec fn spec_compose(a: Vector, b: Vector) -> Vector {
    let dx = spec_add_fp(
        spec_mul_fp(spec_sin(a.angle as int), a.magnitude as int),
        spec_mul_fp(spec_sin(b.angle as int), b.magnitude as int),
    );
    let dy = spec_add_fp(
        spec_mul_fp(spec_cos(a.angle as int), a.magnitude as int),
        spec_mul_fp(spec_cos(b.angle as int), b.magnitude as int),
    );
    Vector {
        angle: spec_sub_fp(HALF_PI as int, spec_atan2(dy, dx)) as i64,
        magnitude: spec_hypot(dx, dy) as i64,
    }
}

impl Vector {
    /// Polar composition, the sole primitive for combining a velocity with
    /// an applied acceleration or impulse.
    pub fn compose(self, other: Vector) -> (r: Vector)
        requires
            self.wf(),
            other.wf(),
        ensures
            r == spec_compose(self, other),
            r.wf(),
            0 <= r.magnitude,
    {
        let dx = add_fp(
            mul_fp(sin_fp(self.angle), self.magnitude),
            mul_fp(sin_fp(other.angle), other.magnitude),
        );
        let dy = add_fp(
            mul_fp(cos_fp(self.angle), self.magnitude),
            mul_fp(cos_fp(other.angle), other.magnitude),
        );
        Vector { angle: sub_fp(HALF_PI, atan2_fp(dy, dx)), magnitude: hypot_fp(dx, dy) }
    }
}

/// Law: polar composition is commutative — the two Cartesian sums do not
/// depend on the order of the operands.
pub proof fn lemma_compose_commutative(a: Vector, b: Vector)
    ensures
        spec_compose(a, b) == spec_compose(b, a),
{
}

impl Joint {
    /// Every field in the saturation range, a positive radius and mass, and
    /// both coefficients in `[0, 1]`.
    pub open spec fn wf(self) -> bool {
        &&& fp_in_range(self.x as int)
        &&& fp_in_range(self.y as int)
        &&& fp_in_range(self.angle as int)
        &&& fp_in_range(self.speed as int)
        &&& 0 < self.size <= FP_MAX
        &&& 0 < self.mass <= FP_MAX
        &&& 0 <= self.elasticity <= SCALE
        &&& 0 <= self.drag <= SCALE
    }
}

/// What `Joint::accelerate` does: composes the current velocity with the
/// applied vector and writes the result back.
pub open spec fn spec_accelerate(j: Joint, acceleration: Vector) -> Joint {
    let v = spec_compose(Vector { angle: j.angle, magnitude: j.speed }, acceleration);
    Joint { angle: v.angle, speed: v.magnitude, ..j }
}

/// What `Joint::update` does: advances the position by one step of the
/// current velocity.
pub open spec fn spec_move(j: Joint) -> Joint {
    Joint {
        x: spec_add_fp(j.x as int, spec_mul_fp(spec_sin(j.angle as int), j.speed as int)) as i64,
        y: spec_sub_fp(j.y as int, spec_mul_fp(spec_cos(j.angle as int), j.speed as int)) as i64,
        ..j
    }
}

/// What `Joint::experience_drag` does: scales the speed by the drag
/// coefficient.
pub open spec fn spec_drag(j: Joint) -> Joint {
    Joint { speed: spec_mul_fp(j.speed as int, j.drag as int) as i64, ..j }
}

/// The vertical-wall phase of `Joint::bounce`: clamp to the wall, mirror
/// the angle, scale the speed by the elasticity.
pub open spec fn spec_bounce_x(j: Joint, width: int) -> Joint {
    if j.x > spec_sub_fp(width, j.size as int) {
        Joint {
            x: spec_sub_fp(width, j.size as int) as i64,
            angle: (-(j.angle as int)) as i64,
            speed: spec_mul_fp(j.speed as int, j.elasticity as int) as i64,
            ..j
        }
    } else if j.x < j.size {
        Joint {
            x: j.size,
            angle: (-(j.angle as int)) as i64,
            speed: spec_mul_fp(j.speed as int, j.elasticity as int) as i64,
            ..j
        }
    } else {
        j
    }
}

/// The horizontal-wall phase of `Joint::bounce`: clamp to the wall, reflect
/// the angle about the horizontal, scale the speed by the elasticity.
pub open spec fn spec_bounce_y(j: Joint, height: int) -> Joint {
    if j.y > spec_sub_fp(height, j.size as int) {
        Joint {
            y: spec_sub_fp(height, j.size as int) as i64,
            angle: spec_sub_fp(PI as int, j.angle as int) as i64,
            speed: spec_mul_fp(j.speed as int, j.elasticity as int) as i64,
            ..j
        }
    } else if j.y < j.size {
        Joint {
            y: j.size,
            angle: spec_sub_fp(PI as int, j.angle as int) as i64,
            speed: spec_mul_fp(j.speed as int, j.elasticity as int) as i64,
            ..j
        }
    } else {
        j
    }
}

/// What `Joint::bounce` does: the vertical walls first, then the
/// horizontal ones; a corner applies both in one call.
pub open spec fn spec_bounce(j: Joint, width: int, height: int) -> Joint {
    spec_bounce_y(spec_bounce_x(j, width), height)
}

/// What `Joint::collide` does to the pair `(self, other)` when they
/// overlap: an elastic two-body exchange along the contact normal, both
/// post-collision speeds scaled by the product of the elasticities, and the
/// bodies pushed apart by half the padded overlap each.
pub open spec fn spec_collide(a: Joint, b: Joint) -> (Joint, Joint) {
    let dx = spec_sub_fp(a.x as int, b.x as int);
    let dy = spec_sub_fp(a.y as int, b.y as int);
    let distance = spec_hypot(dx, dy);
    let size_sum = spec_add_fp(a.size as int, b.size as int);
    if distance < size_sum {
        let tangent = spec_atan2(dy, dx);
        let angle = spec_add_fp(HALF_PI as int, tangent);
        let total_mass = spec_add_fp(a.mass as int, b.mass as int);
        let v1 = spec_compose(
            Vector {
                angle: a.angle,
                magnitude: spec_muldiv_fp(
                    a.speed as int,
                    spec_sub_fp(a.mass as int, b.mass as int),
                    total_mass,
                ) as i64,
            },
            Vector {
                angle: angle as i64,
                magnitude: spec_muldiv_fp(
                    spec_add_fp(b.speed as int, b.speed as int),
                    b.mass as int,
                    total_mass,
                ) as i64,
            },
        );
        let v2 = spec_compose(
            Vector {
                angle: b.angle,
                magnitude: spec_muldiv_fp(
                    b.speed as int,
                    spec_sub_fp(b.mass as int, a.mass as int),
                    total_mass,
                ) as i64,
            },
            Vector {
                angle: spec_add_fp(angle, PI as int) as i64,
                magnitude: spec_muldiv_fp(
                    spec_add_fp(a.speed as int, a.speed as int),
                    a.mass as int,
                    total_mass,
                ) as i64,
            },
        );
        let new_elasticity = spec_mul_fp(a.elasticity as int, b.elasticity as int);
        let overlap = tdiv(
            spec_add_fp(spec_sub_fp(size_sum, distance), SCALE as int),
            2,
        );
        let push_x = spec_mul_fp(spec_sin(angle), overlap);
        let push_y = spec_mul_fp(spec_cos(angle), overlap);
        (
            Joint {
                angle: v1.angle,
                speed: spec_mul_fp(v1.magnitude as int, new_elasticity) as i64,
                x: spec_add_fp(a.x as int, push_x) as i64,
                y: spec_sub_fp(a.y as int, push_y) as i64,
                ..a
            },
            Joint {
                angle: v2.angle,
                speed: spec_mul_fp(v2.magnitude as int, new_elasticity) as i64,
                x: spec_sub_fp(b.x as int, push_x) as i64,
                y: spec_add_fp(b.y as int, push_y) as i64,
                ..b
            },
        )
    } else {
        (a, b)
    }
}

/// What `Joint::combine` does when the two joints overlap: positions are
/// averaged by mass, the velocities composed with momentum weights, and the
/// mass grown by the combined total: a deliberate quirk of this engine,
/// the survivor absorbs the pair's whole mass on top of its own.
pub open spec fn spec_combine(a: Joint, b: Joint) -> Joint {
    let dx = spec_sub_fp(a.x as int, b.x as int);
    let dy = spec_sub_fp(a.y as int, b.y as int);
    let distance = spec_hypot(dx, dy);
    if distance < spec_add_fp(a.size as int, b.size as int) {
        let total_mass = spec_add_fp(a.mass as int, b.mass as int);
        let v = spec_compose(
            Vector {
                angle: a.angle,
                magnitude: spec_muldiv_fp(a.speed as int, a.mass as int, total_mass) as i64,
            },
            Vector {
                angle: b.angle,
                magnitude: spec_muldiv_fp(b.speed as int, b.mass as int, total_mass) as i64,
            },
        );
        Joint {
            x: spec_wavg_fp(a.x as int, a.mass as int, b.x as int, b.mass as int, total_mass) as i64,
            y: spec_wavg_fp(a.y as int, a.mass as int, b.y as int, b.mass as int, total_mass) as i64,
            angle: v.angle,
            speed: v.magnitude,
            mass: spec_add_fp(a.mass as int, total_mass) as i64,
            ..a
        }
    } else {
        a
    }
}

/// What `Joint::move_to` does: heads toward the target at a tenth of the
/// distance per step.
pub open spec fn spec_move_to(j: Joint, x: int, y: int) -> Joint {
    let dx = spec_sub_fp(x, j.x as int);
    let dy = spec_sub_fp(y, j.y as int);
    Joint {
        angle: spec_add_fp(spec_atan2(dy, dx), HALF_PI as int) as i64,
        speed: tdiv(spec_hypot(dx, dy), 10) as i64,
        ..j
    }
}

/// What `Joint::attract` does to `self`: an inverse-square pull of strength
/// `mass_a * mass_b / (5 * distance^2)` toward the other body, applied as an
/// acceleration; two coincident bodies are left untouched rather than
/// dividing by a zero distance.
pub open spec fn spec_attract(a: Joint, b: Joint) -> Joint {
    let dx = spec_sub_fp(a.x as int, b.x as int);
    let dy = spec_sub_fp(a.y as int, b.y as int);
    if dx == 0 && dy == 0 {
        a
    } else {
        let theta = spec_atan2(dy, dx);
        let force = fp_clamp(
            tdiv((a.mass as int) * (b.mass as int) * (SCALE as int), 5 * (dx * dx + dy * dy)),
        );
        spec_accelerate(
            a,
            Vector {
                angle: spec_sub_fp(theta, HALF_PI as int) as i64,
                magnitude: spec_div_fp(force, a.mass as int) as i64,
            },
        )
    }
}

/// Law: a joint beyond the right wall and clear of the horizontal walls is
/// clamped exactly onto the wall by one bounce, its angle mirrored and its
/// speed scaled by its elasticity.
pub proof fn lemma_wall_bounce(j: Joint, width: int, height: int)
    requires
        j.wf(),
        j.x > spec_sub_fp(width, j.size as int),
        j.size <= j.y <= spec_sub_fp(height, j.size as int),
    ensures
        spec_bounce(j, width, height).x as int == spec_sub_fp(width, j.size as int),
        spec_bounce(j, width, height).speed as int == spec_mul_fp(
            j.speed as int,
            j.elasticity as int,
        ),
        spec_bounce(j, width, height).angle as int == -(j.angle as int),
        spec_bounce(j, width, height).y == j.y,
{
}

/// Law: two overlapping joints of equal mass and full elasticity meeting
/// head-on along the horizontal axis exchange their speeds and headings
/// exactly, so their total kinetic energy is conserved to the last bit.
pub proof fn lemma_head_on_swap(a: Joint, b: Joint)
    requires
        a.wf(),
        b.wf(),
        a.mass == b.mass,
        2 * a.mass <= FP_MAX,
        a.elasticity == SCALE,
        b.elasticity == SCALE,
        a.y == b.y,
        a.x < b.x,
        b.x - a.x <= FP_MAX,
        b.x - a.x < spec_add_fp(a.size as int, b.size as int),
        a.angle == HALF_PI,
        b.angle == -HALF_PI,
        1 <= a.speed,
        2 * a.speed <= FP_MAX,
        1 <= b.speed,
        2 * b.speed <= FP_MAX,
    ensures
        spec_collide(a, b).0.speed == b.speed,
        spec_collide(a, b).1.speed == a.speed,
        spec_collide(a, b).0.angle == b.angle,
        spec_collide(a, b).1.angle == a.angle,
        spec_collide(a, b).0.speed * spec_collide(a, b).0.speed + spec_collide(a, b).1.speed
            * spec_collide(a, b).1.speed == a.speed * a.speed + b.speed * b.speed,
{
    let m = a.mass as int;
    let sa = a.speed as int;
    let sb = b.speed as int;
    let dx = spec_sub_fp(a.x as int, b.x as int);
    assert(dx == a.x - b.x);
    crate::fixed::lemma_hypot_axis(-dx);
    assert(spec_hypot(dx, spec_sub_fp(a.y as int, b.y as int)) == b.x - a.x);
    crate::trig::lemma_atan2_axis(-dx);
    crate::trig::lemma_sin_quarter_turns();
    crate::fixed::lemma_muldiv_parts(sa, m);
    crate::fixed::lemma_muldiv_parts(sb, m);
    crate::fixed::lemma_mul_fp_zero(spec_sin((HALF_PI as int)));
    crate::fixed::lemma_mul_fp_zero(spec_sin((-HALF_PI) as int));
    crate::fixed::lemma_mul_fp_zero(spec_cos((HALF_PI as int)));
    crate::fixed::lemma_mul_fp_zero(spec_cos((-HALF_PI) as int));
    crate::fixed::lemma_mul_fp_zero(sa);
    crate::fixed::lemma_mul_fp_zero(sb);
    crate::fixed::lemma_mul_fp_unit(SCALE as int);
    crate::fixed::lemma_mul_fp_unit(sa);
    crate::fixed::lemma_mul_fp_unit(sb);
    crate::fixed::lemma_mul_fp_unit_left(sa);
    crate::fixed::lemma_mul_fp_unit_left(sb);
    crate::fixed::lemma_hypot_axis(sa);
    crate::fixed::lemma_hypot_axis(sb);
    crate::trig::lemma_atan2_axis(sa);
    crate::trig::lemma_atan2_axis(sb);
    let tangent = spec_atan2(spec_sub_fp(a.y as int, b.y as int), dx);
    assert(tangent == PI as int);
    let angle = spec_add_fp(HALF_PI as int, tangent);
    assert(angle == (PI + HALF_PI) as int);
    assert(spec_add_fp(angle, PI as int) == (TWO_PI + HALF_PI) as int);
    assert(spec_cos((PI + HALF_PI) as int) == spec_sin(TWO_PI as int));
    assert(spec_cos((TWO_PI + HALF_PI) as int) == spec_sin((TWO_PI + PI) as int));
    let v1 = spec_compose(
        Vector { angle: a.angle, magnitude: 0 },
        Vector { angle: ((PI + HALF_PI) as i64), magnitude: b.speed },
    );
    assert(v1.magnitude == b.speed && v1.angle == -HALF_PI);
    let v2 = spec_compose(
        Vector { angle: b.angle, magnitude: 0 },
        Vector { angle: ((TWO_PI + HALF_PI) as i64), magnitude: a.speed },
    );
    assert(v2.magnitude == a.speed && v2.angle == HALF_PI);
    assert(spec_collide(a, b).0.speed == b.speed);
    assert(spec_collide(a, b).1.speed == a.speed);
}

impl Joint {
    /// A joint from its raw fields.
    pub fn new(
        x: i64,
        y: i64,
        size: i64,
        mass: i64,
        speed: i64,
        angle: i64,
        elasticity: i64,
        drag: i64,
    ) -> (j: Joint)
        requires
            fp_in_range(x as int),
            fp_in_range(y as int),
            fp_in_range(speed as int),
            fp_in_range(angle as int),
            0 < size <= FP_MAX,
            0 < mass <= FP_MAX,
            0 <= elasticity <= SCALE,
            0 <= drag <= SCALE,
        ensures
            j == (Joint { x, y, size, mass, speed, angle, elasticity, drag }),
            j.wf(),
    {
        Joint { x, y, size, mass, speed, angle, elasticity, drag }
    }

    /// Composes the current velocity with `acceleration`.
    pub fn accelerate(&mut self, acceleration: Vector)
        requires
            old(self).wf(),
            acceleration.wf(),
        ensures
            *final(self) == spec_accelerate(*old(self), acceleration),
            final(self).wf(),
    {
        let velocity = (Vector { angle: self.angle, magnitude: self.speed }).compose(
            acceleration,
        );
        self.angle = velocity.angle;
        self.speed = velocity.magnitude;
    }

    /// Pulls `self` toward `other` with an inverse-square force. The
    /// other body is taken by value, so only `self` changes; the opposite
    /// push is discarded with the copy.
    pub fn attract(&mut self, other: Joint)
        requires
            old(self).wf(),
            other.wf(),
        ensures
            *final(self) == spec_attract(*old(self), other),
            final(self).wf(),
    {
        let dx = sub_fp(self.x, other.x);
        let dy = sub_fp(self.y, other.y);
        if dx == 0 && dy == 0 {
        } else {
            let theta = atan2_fp(dy, dx);
            proof {
                lemma_mul_bounds(dx as int, dx as int, FP_MAX as int, FP_MAX as int);
                lemma_mul_bounds(dy as int, dy as int, FP_MAX as int, FP_MAX as int);
                lemma_square_nonneg(dx as int);
                lemma_square_nonneg(dy as int);
                if dx != 0 {
                    lemma_square_pos(dx as int);
                } else {
                    lemma_square_pos(dy as int);
                }
                lemma_mul_bounds(self.mass as int, other.mass as int, FP_MAX as int, FP_MAX as int);
                lemma_mul_nonneg(self.mass as int, other.mass as int);
            }
            let d2: i128 = (dx as i128) * (dx as i128) + (dy as i128) * (dy as i128);
            let mm: i128 = (self.mass as i128) * (other.mass as i128);
            assert(0 <= mm as int <= 79228162514264337593543950336) by (nonlinear_arith)
                requires
                    0 < self.mass as int <= 281474976710656,
                    0 < other.mass as int <= 281474976710656,
                    mm as int == (self.mass as int) * (other.mass as int),
            ;
            let p: i128 = mm * 65536i128;
            let q: i128 = p / (5 * d2);
            let force = clamp_i128(q);
            self.accelerate(
                Vector { angle: sub_fp(theta, HALF_PI), magnitude: div_fp(force, self.mass) },
            );
        }
    }

    /// Bounces off the four arena walls: clamp to the wall, mirror the
    /// angle, scale the speed by the elasticity; the vertical walls are
    /// checked first.
    pub fn bounce(&mut self, width: i64, height: i64)
        requires
            old(self).wf(),
            fp_in_range(width as int),
            fp_in_range(height as int),
        ensures
            *final(self) == spec_bounce(*old(self), width as int, height as int),
            final(self).wf(),
    {
        if self.x > sub_fp(width, self.size) {
            self.x = sub_fp(width, self.size);
            self.angle = -self.angle;
            self.speed = mul_fp(self.speed, self.elasticity);
        } else if self.x < self.size {
            self.x = self.size;
            self.angle = -self.angle;
            self.speed = mul_fp(self.speed, self.elasticity);
        }
        if self.y > sub_fp(height, self.size) {
            self.y = sub_fp(height, self.size);
            self.angle = sub_fp(PI, self.angle);
            self.speed = mul_fp(self.speed, self.elasticity);
        } else if self.y < self.size {
            self.y = self.size;
            self.angle = sub_fp(PI, self.angle);
            self.speed = mul_fp(self.speed, self.elasticity);
        }
    }

    /// Resolves an overlapping pair elastically; without overlap both
    /// joints are left as they are.
    pub fn collide(&mut self, other: &mut Joint, dt: i64)
        requires
            old(self).wf(),
            old(other).wf(),
        ensures
            *final(self) == spec_collide(*old(self), *old(other)).0,
            *final(other) == spec_collide(*old(self), *old(other)).1,
            final(self).wf(),
            final(other).wf(),
    {
        let dx = sub_fp(self.x, other.x);
        let dy = sub_fp(self.y, other.y);
        let distance = hypot_fp(dx, dy);
        let size_sum = add_fp(self.size, other.size);
        if distance < size_sum {
            let tangent = atan2_fp(dy, dx);
            let angle = add_fp(HALF_PI, tangent);
            let total_mass = add_fp(self.mass, other.mass);
            let v1 = (Vector {
                angle: self.angle,
                magnitude: muldiv_fp(self.speed, sub_fp(self.mass, other.mass), total_mass),
            }).compose(
                Vector {
                    angle: angle,
                    magnitude: muldiv_fp(add_fp(other.speed, other.speed), other.mass, total_mass),
                },
            );
            let v2 = (Vector {
                angle: other.angle,
                magnitude: muldiv_fp(other.speed, sub_fp(other.mass, self.mass), total_mass),
            }).compose(
                Vector {
                    angle: add_fp(angle, PI),
                    magnitude: muldiv_fp(add_fp(self.speed, self.speed), self.mass, total_mass),
                },
            );
            let new_elasticity = mul_fp(self.elasticity, other.elasticity);
            let t = add_fp(sub_fp(size_sum, distance), SCALE);
            let overlap = t / 2;
            let push_x = mul_fp(sin_fp(angle), overlap);
            let push_y = mul_fp(cos_fp(angle), overlap);
            self.angle = v1.angle;
            self.speed = mul_fp(v1.magnitude, new_elasticity);
            other.angle = v2.angle;
            other.speed = mul_fp(v2.magnitude, new_elasticity);
            self.x = add_fp(self.x, push_x);
            self.y = sub_fp(self.y, push_y);
            other.x = sub_fp(other.x, push_x);
            other.y = add_fp(other.y, push_y);
        }
    }

    /// Merges `other` into `self` when the two overlap. The other body is
    /// taken by value, so only `self` changes, and the mass grows by the
    /// combined total.
    pub fn combine(&mut self, other: Joint)
        requires
            old(self).wf(),
            other.wf(),
        ensures
            *final(self) == spec_combine(*old(self), other),
            final(self).wf(),
    {
        let dx = sub_fp(self.x, other.x);
        let dy = sub_fp(self.y, other.y);
        let distance = hypot_fp(dx, dy);
        if distance < add_fp(self.size, other.size) {
            let total_mass = add_fp(self.mass, other.mass);
            self.x = wavg_fp(self.x, self.mass, other.x, other.mass, total_mass);
            self.y = wavg_fp(self.y, self.mass, other.y, other.mass, total_mass);
            let vector = (Vector {
                angle: self.angle,
                magnitude: muldiv_fp(self.speed, self.mass, total_mass),
            }).compose(
                Vector {
                    angle: other.angle,
                    magnitude: muldiv_fp(other.speed, other.mass, total_mass),
                },
            );
            self.angle = vector.angle;
            self.speed = vector.magnitude;
            self.mass = add_fp(self.mass, total_mass);
        }
    }

    /// Scales the speed by the drag coefficient.
    pub fn experience_drag(&mut self)
        requires
            old(self).wf(),
        ensures
            *final(self) == spec_drag(*old(self)),
            final(self).wf(),
    {
        self.speed = mul_fp(self.speed, self.drag);
    }

    /// Advances the position by one step of the current velocity. `dt` is
    /// accepted but does not scale the step: the pipeline advances by raw
    /// speed per call: the pace of the simulation is set by how often it
    /// ticks.
    pub fn update(&mut self, dt: i64)
        requires
            old(self).wf(),
        ensures
            *final(self) == spec_move(*old(self)),
            final(self).wf(),
    {
        let step_x = mul_fp(sin_fp(self.angle), self.speed);
        let step_y = mul_fp(cos_fp(self.angle), self.speed);
        self.x = add_fp(self.x, step_x);
        self.y = sub_fp(self.y, step_y);
    }

    /// Points the velocity at `(x, y)` with a tenth of the distance as
    /// speed; used for drag-to-reposition interaction, not a physical
    /// force.
    pub fn move_to(&mut self, x: i64, y: i64)
        requires
            old(self).wf(),
            fp_in_range(x as int),
            fp_in_range(y as int),
        ensures
            *final(self) == spec_move_to(*old(self), x as int, y as int),
            final(self).wf(),
    {
        let dx = sub_fp(x, self.x);
        let dy = sub_fp(y, self.y);
        self.angle = add_fp(atan2_fp(dy, dx), HALF_PI);
        self.speed = hypot_fp(dx, dy) / 10;
    }
}

} // verus!
