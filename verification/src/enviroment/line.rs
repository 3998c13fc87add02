//! A static line obstacle.
//!
//! Detection only: the collision test projects the joint's centre onto the
//! segment, clamps the projection parameter to the segment, and checks the
//! closest point against a padded box around the joint. No physical
//! response is applied and nothing is mutated.

use vstd::prelude::*;
use vstd::arithmetic::div_mod::lemma_div_is_ordered;
use vstd::arithmetic::div_mod::lemma_div_multiples_vanish;
use vstd::arithmetic::div_mod::lemma_div_pos_is_pos;
use crate::fixed::FP_MAX;
use crate::fixed::SCALE;
use crate::fixed::add_fp;
use crate::fixed::fp_in_range;
use crate::fixed::lemma_mul_bounds;
use crate::fixed::mul_fp;
use crate::fixed::spec_add_fp;
use crate::fixed::spec_mul_fp;
use crate::fixed::spec_sub_fp;
use crate::fixed::sub_fp;
use crate::fixed::tdiv;
use super::joint::Joint;

verus! {

/// A segment with a thickness; immutable once created.
#[derive(Clone, Copy, PartialEq, Eq, Structural, Debug)]
pub struct Line {
    pub start_x: i64,
    pub start_y: i64,
    pub end_x: i64,
    pub end_y: i64,
    pub width: i64,
}

impl Line {
    /// Every coordinate and the width in the saturation range.
    pub open spec fn wf(self) -> bool {
        &&& fp_in_range(self.start_x as int)
        &&& fp_in_range(self.start_y as int)
        &&& fp_in_range(self.end_x as int)
        &&& fp_in_range(self.end_y as int)
        &&& fp_in_range(self.width as int)
    }
}

/// The projection parameter of the joint's centre onto the segment, as a
/// fraction in `[0, SCALE]`, clamped to the segment's ends; zero for a
/// degenerate segment.
pub open spec fn spec_line_t(l: Line, j: Joint) -> int {
    let abx = spec_sub_fp(l.end_x as int, l.start_x as int);
    let aby = spec_sub_fp(l.end_y as int, l.start_y as int);
    let edge2 = abx * abx + aby * aby;
    let jax = spec_sub_fp(j.x as int, l.start_x as int);
    let jay = spec_sub_fp(j.y as int, l.start_y as int);
    let dot = jax * abx + jay * aby;
    if edge2 == 0 {
        0
    } else if dot <= 0 {
        0
    } else if dot >= edge2 {
        SCALE as int
    } else {
        tdiv(dot * (SCALE as int), edge2)
    }
}

/// What `Line::check_collide` returns: whether the closest point of the
/// segment to the joint's centre lies inside a box around the joint padded
/// by the line's width plus the joint's radius.
pub open spec fn spec_check_collide(l: Line, j: Joint) -> bool {
    let abx = spec_sub_fp(l.end_x as int, l.start_x as int);
    let aby = spec_sub_fp(l.end_y as int, l.start_y as int);
    let t = spec_line_t(l, j);
    let cx = spec_add_fp(l.start_x as int, spec_mul_fp(t, abx));
    let cy = spec_add_fp(l.start_y as int, spec_mul_fp(t, aby));
    &&& spec_add_fp(spec_add_fp(cx, l.width as int), j.size as int) > j.x as int
    &&& cx < spec_add_fp(spec_add_fp(j.x as int, l.width as int), j.size as int)
    &&& spec_add_fp(spec_add_fp(cy, l.width as int), j.size as int) > j.y as int
    &&& cy < spec_add_fp(spec_add_fp(j.y as int, l.width as int), j.size as int)
}

impl Line {
    /// A line from its endpoints and thickness.
    pub fn new(start_x: i64, start_y: i64, end_x: i64, end_y: i64, width: i64) -> (l: Line)
        requires
            fp_in_range(start_x as int),
            fp_in_range(start_y as int),
            fp_in_range(end_x as int),
            fp_in_range(end_y as int),
            fp_in_range(width as int),
        ensures
            l == (Line { start_x, start_y, end_x, end_y, width }),
            l.wf(),
    {
        Line { start_x, start_y, end_x, end_y, width }
    }

    /// Tests the joint against the segment; detection only, nothing is
    /// mutated.
    pub fn check_collide(&self, j: Joint) -> (r: bool)
        requires
            self.wf(),
            j.wf(),
        ensures
            r == spec_check_collide(*self, j),
    {
        let abx = sub_fp(self.end_x, self.start_x);
        let aby = sub_fp(self.end_y, self.start_y);
        let jax = sub_fp(j.x, self.start_x);
        let jay = sub_fp(j.y, self.start_y);
        proof {
            lemma_mul_bounds(abx as int, abx as int, FP_MAX as int, FP_MAX as int);
            lemma_mul_bounds(aby as int, aby as int, FP_MAX as int, FP_MAX as int);
            lemma_mul_bounds(jax as int, abx as int, FP_MAX as int, FP_MAX as int);
            lemma_mul_bounds(jay as int, aby as int, FP_MAX as int, FP_MAX as int);
        }
        let edge2: i128 = (abx as i128) * (abx as i128) + (aby as i128) * (aby as i128);
        let dot: i128 = (jax as i128) * (abx as i128) + (jay as i128) * (aby as i128);
        let t: i64 = if edge2 == 0 {
            0
        } else if dot <= 0 {
            0
        } else if dot >= edge2 {
            SCALE
        } else {
            let q: i128 = (dot * 65536i128) / edge2;
            proof {
                lemma_div_pos_is_pos(dot as int * 65536, edge2 as int);
                lemma_div_is_ordered(dot as int * 65536, edge2 as int * 65536, edge2 as int);
                lemma_div_multiples_vanish(65536, edge2 as int);
            }
            q as i64
        };
        let cx = add_fp(self.start_x, mul_fp(t, abx));
        let cy = add_fp(self.start_y, mul_fp(t, aby));
        let hit_x = add_fp(add_fp(cx, self.width), j.size) > j.x && cx < add_fp(
            add_fp(j.x, self.width),
            j.size,
        );
        let hit_y = add_fp(add_fp(cy, self.width), j.size) > j.y && cy < add_fp(
            add_fp(j.y, self.width),
            j.size,
        );
        hit_x && hit_y
    }
}

} // verus!
