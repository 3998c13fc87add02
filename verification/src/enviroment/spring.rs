//! The elastic constraint between two joints.
//!
//! A spring stores the indices of its two endpoint joints, a rest length
//! and a stiffness; each step it caches the endpoint positions for the
//! renderer and returns the pair of restoring-force vectors. Both returned
//! magnitudes are divided by the first joint's mass: a deliberate
//! asymmetry of this engine, pinned by the contract.

use vstd::prelude::*;
use vstd::arithmetic::div_mod::lemma_div_nonincreasing;
use vstd::arithmetic::div_mod::lemma_div_pos_is_pos;
use crate::fixed::fp_in_range;
use crate::fixed::spec_add_fp;
use crate::fixed::spec_div_fp;
use crate::fixed::spec_hypot;
use crate::fixed::spec_mul_fp;
use crate::fixed::spec_sub_fp;
use crate::fixed::add_fp;
use crate::fixed::div_fp;
use crate::fixed::hypot_fp;
use crate::fixed::mul_fp;
use crate::fixed::sub_fp;
use crate::trig::HALF_PI;
use crate::trig::atan2_fp;
use crate::trig::spec_atan2;
use super::joint::Joint;
use super::joint::Vector;

verus! {

/// A distance constraint between the joints at `indices`, with cached
/// endpoint positions for rendering.
#[derive(Clone, Copy, PartialEq, Debug)]
pub struct Spring {
    pub position_1: (i64, i64),
    pub position_2: (i64, i64),
    pub indices: (usize, usize),
    pub length: i64,
    pub strength: i64,
}

impl Spring {
    /// Rest length, stiffness and cached positions in the saturation range.
    pub open spec fn wf(self) -> bool {
        &&& fp_in_range(self.length as int)
        &&& fp_in_range(self.strength as int)
        &&& fp_in_range(self.position_1.0 as int)
        &&& fp_in_range(self.position_1.1 as int)
        &&& fp_in_range(self.position_2.0 as int)
        &&& fp_in_range(self.position_2.1 as int)
    }
}

/// What `Spring::update` does: caches both endpoints, then returns the
/// force pair `(for the first joint, for the second)`. The force magnitude
/// is `(rest length - distance) * strength`: it pulls the bodies together
/// when stretched and pushes them apart when compressed, applied
/// perpendicular to each side of the bearing.
pub open spec fn spec_spring_update(s: Spring, a: Joint, b: Joint) -> (Spring, Vector, Vector) {
    let dx = spec_sub_fp(a.x as int, b.x as int);
    let dy = spec_sub_fp(a.y as int, b.y as int);
    let distance = spec_hypot(dx, dy);
    let theta = spec_atan2(dy, dx);
    let force = spec_mul_fp(spec_sub_fp(s.length as int, distance), s.strength as int);
    (
        Spring { position_1: (a.x, a.y), position_2: (b.x, b.y), ..s },
        Vector {
            angle: spec_add_fp(theta, HALF_PI as int) as i64,
            magnitude: spec_div_fp(force, a.mass as int) as i64,
        },
        Vector {
            angle: spec_sub_fp(theta, HALF_PI as int) as i64,
            magnitude: spec_div_fp(force, a.mass as int) as i64,
        },
    )
}

impl Spring {
    /// A spring between the joints at `indices`; the cached endpoints start
    /// at the origin until the first update.
    pub fn new(indices: (usize, usize), length: i64, strength: i64) -> (s: Spring)
        requires
            fp_in_range(length as int),
            fp_in_range(strength as int),
        ensures
            s == (Spring {
                position_1: (0i64, 0i64),
                position_2: (0i64, 0i64),
                indices,
                length,
                strength,
            }),
            s.wf(),
    {
        Spring { position_1: (0, 0), position_2: (0, 0), indices, length, strength }
    }

    /// Caches the endpoint positions and computes the restoring-force pair
    /// for the two connected joints.
    pub fn update(&mut self, a: &Joint, b: &Joint) -> (r: (Vector, Vector))
        requires
            old(self).wf(),
            a.wf(),
            b.wf(),
        ensures
            *final(self) == spec_spring_update(*old(self), *a, *b).0,
            r.0 == spec_spring_update(*old(self), *a, *b).1,
            r.1 == spec_spring_update(*old(self), *a, *b).2,
            final(self).wf(),
            r.0.wf(),
            r.1.wf(),
    {
        self.position_1 = (a.x, a.y);
        self.position_2 = (b.x, b.y);
        let dx = sub_fp(a.x, b.x);
        let dy = sub_fp(a.y, b.y);
        let distance = hypot_fp(dx, dy);
        let theta = atan2_fp(dy, dx);
        let force = mul_fp(sub_fp(self.length, distance), self.strength);
        (
            Vector { angle: add_fp(theta, HALF_PI), magnitude: div_fp(force, a.mass) },
            Vector { angle: sub_fp(theta, HALF_PI), magnitude: div_fp(force, a.mass) },
        )
    }
}

/// Law: a spring at exactly its rest length exerts no force — both
/// returned vectors have magnitude zero.
pub proof fn lemma_spring_at_rest_zero_force(s: Spring, a: Joint, b: Joint)
    requires
        s.wf(),
        a.wf(),
        b.wf(),
        spec_hypot(spec_sub_fp(a.x as int, b.x as int), spec_sub_fp(a.y as int, b.y as int))
            == s.length as int,
    ensures
        spec_spring_update(s, a, b).1.magnitude == 0,
        spec_spring_update(s, a, b).2.magnitude == 0,
{
    let dx = spec_sub_fp(a.x as int, b.x as int);
    let dy = spec_sub_fp(a.y as int, b.y as int);
    let diff = spec_sub_fp(s.length as int, spec_hypot(dx, dy));
    assert(diff == 0);
    assert(diff * (s.strength as int) == 0) by (nonlinear_arith)
        requires
            diff == 0,
    ;
    assert(spec_mul_fp(diff, s.strength as int) == 0);
    lemma_div_pos_is_pos(0, a.mass as int);
    lemma_div_nonincreasing(0, a.mass as int);
    assert(spec_div_fp(0, a.mass as int) == 0);
}

} // verus!
