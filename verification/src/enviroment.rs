//! The simulation environment: joints, springs, static lines and the
//! global configuration, with the per-tick pipeline.
//!
//! One tick runs every joint through acceleration, integration, drag, wall
//! bounce and the stability clamp, then sweeps every ordered pair for
//! collisions, then applies every spring's force pair. The whole tick is
//! pinned by a recursive spec model, so `update` has an exact contract.

pub mod joint;
pub mod line;
pub mod spring;

use vstd::prelude::*;
use crate::fixed::FP_MAX;
use crate::fixed::SCALE;
use crate::fixed::add_fp;
use crate::fixed::div_fp;
use crate::fixed::fp_in_range;
use crate::fixed::hypot_fp;
use crate::fixed::iabs;
use crate::fixed::lemma_mul_bounds;
use crate::fixed::lemma_mul_nonneg;
use crate::fixed::mul_fp;
use crate::fixed::pow_unit_fp;
use crate::fixed::spec_add_fp;
use crate::fixed::spec_div_fp;
use crate::fixed::spec_hypot;
use crate::fixed::spec_mul_fp;
use crate::fixed::spec_pow_unit;
use crate::fixed::spec_sub_fp;
use crate::fixed::sub_fp;
use crate::trig::PI;
use vstd::arithmetic::div_mod::lemma_div_is_ordered;
use vstd::arithmetic::div_mod::lemma_div_multiples_vanish;
use vstd::arithmetic::div_mod::lemma_div_pos_is_pos;
use self::joint::Joint;
use self::joint::Vector;
use self::joint::spec_accelerate;
use self::joint::spec_bounce;
use self::joint::spec_collide;
use self::joint::spec_drag;
use self::joint::spec_move;
use self::line::Line;
use self::spring::Spring;
use self::spring::spec_spring_update;

verus! {

/// The speed below which a joint is considered at rest, in the default
/// configuration (0.05 units).
pub const DEFAULT_STABLE: i64 = 3277;

/// The default air-mass constant entering the drag coefficient (0.2 units).
pub const DEFAULT_AIRMASS: i64 = 13107;

/// The elasticity the simple joint factory assigns (0.8).
pub const DEFAULT_ELASTICITY: i64 = 52429;

/// The magnitude of the default global acceleration (0.9 units).
pub const DEFAULT_ACCEL_MAGNITUDE: i64 = 58982;

/// The global constants one tick runs under; a ghost projection of the
/// environment, so that contracts can say a tick depends on nothing else.
pub struct Config {
    pub width: i32,
    pub height: i32,
    pub stable: i64,
    pub allow_acceleration: bool,
    pub allow_attract: bool,
    pub allow_bounce: bool,
    pub allow_collide: bool,
    pub allow_combine: bool,
    pub allow_drag: bool,
    pub allow_move: bool,
    pub airmass: i64,
    pub acceleration: Vector,
}

impl Config {
    /// The arena width in fixed-point units.
    pub open spec fn width_fp(self) -> int {
        (self.width as int) * (SCALE as int)
    }

    /// The arena height in fixed-point units.
    pub open spec fn height_fp(self) -> int {
        (self.height as int) * (SCALE as int)
    }

    /// The scalar constants in the saturation range and a usable air mass.
    pub open spec fn wf(self) -> bool {
        &&& fp_in_range(self.stable as int)
        &&& 1 <= self.airmass <= FP_MAX
        &&& self.acceleration.wf()
    }

    /// One joint through the gated per-joint phases of a tick, before the
    /// stability clamp: acceleration, integration, drag, wall bounce.
    pub open spec fn spec_glide(self, j: Joint) -> Joint {
        let j1 = if self.allow_acceleration {
            spec_accelerate(j, self.acceleration)
        } else {
            j
        };
        let j2 = if self.allow_move {
            spec_move(j1)
        } else {
            j1
        };
        let j3 = if self.allow_drag {
            spec_drag(j2)
        } else {
            j2
        };
        if self.allow_bounce {
            spec_bounce(j3, self.width_fp(), self.height_fp())
        } else {
            j3
        }
    }

    /// The full per-joint phase: the gated phases, then the stability
    /// clamp, which zeroes any speed smaller in magnitude than `stable`.
    pub open spec fn spec_step_joint(self, j: Joint) -> Joint {
        let g = self.spec_glide(j);
        if iabs(g.speed as int) < self.stable as int {
            Joint { speed: 0, ..g }
        } else {
            g
        }
    }

    /// The collision sweep of outer joint `i` against its first `cnt`
    /// partners, in order. Only the partner is written back: the copy of
    /// joint `i` that collides is discarded, so joint `i` itself
    /// changes only when it is the partner of a later sweep.
    pub open spec fn spec_collide_pass(self, js: Seq<Joint>, i: int, cnt: int) -> Seq<Joint>
        decreases cnt,
    {
        if cnt <= 0 {
            js
        } else {
            let prev = self.spec_collide_pass(js, i, cnt - 1);
            let jj = cnt - 1;
            if jj != i && self.allow_collide {
                prev.update(jj, spec_collide(prev[i], prev[jj]).1)
            } else {
                prev
            }
        }
    }

    /// The per-joint phase and collision sweep of the first `cnt` joints,
    /// in order.
    pub open spec fn spec_update_joints(self, js: Seq<Joint>, cnt: int) -> Seq<Joint>
        decreases cnt,
    {
        if cnt <= 0 {
            js
        } else {
            let prev = self.spec_update_joints(js, cnt - 1);
            let i = cnt - 1;
            let stepped = prev.update(i, self.spec_step_joint(prev[i]));
            self.spec_collide_pass(stepped, i, stepped.len() as int)
        }
    }

    /// The first `cnt` springs applied in declaration order: each caches
    /// its endpoints and accelerates its two joints by the returned force
    /// pair.
    pub open spec fn spec_apply_springs(js: Seq<Joint>, ss: Seq<Spring>, cnt: int) -> (
        Seq<Joint>,
        Seq<Spring>,
    )
        decreases cnt,
    {
        if cnt <= 0 {
            (js, ss)
        } else {
            let prev = Self::spec_apply_springs(js, ss, cnt - 1);
            let k = cnt - 1;
            let s = prev.1[k];
            let ia = s.indices.0 as int;
            let ib = s.indices.1 as int;
            let upd = spec_spring_update(s, prev.0[ia], prev.0[ib]);
            let js1 = prev.0.update(ia, spec_accelerate(prev.0[ia], upd.1));
            let js2 = js1.update(ib, spec_accelerate(js1[ib], upd.2));
            (js2, prev.1.update(k, upd.0))
        }
    }

    /// What one whole tick does to the joints and springs.
    pub open spec fn spec_tick(self, js: Seq<Joint>, ss: Seq<Spring>) -> (Seq<Joint>, Seq<Spring>) {
        let js2 = self.spec_update_joints(js, js.len() as int);
        Self::spec_apply_springs(js2, ss, ss.len() as int)
    }

    /// `n` whole ticks in a row.
    pub open spec fn spec_tick_n(self, js: Seq<Joint>, ss: Seq<Spring>, n: nat) -> (
        Seq<Joint>,
        Seq<Spring>,
    )
        decreases n,
    {
        if n == 0 {
            (js, ss)
        } else {
            let prev = self.spec_tick_n(js, ss, (n - 1) as nat);
            self.spec_tick(prev.0, prev.1)
        }
    }
}

/// Whether the point `(x, y)` lies strictly inside the joint's radius.
pub open spec fn spec_contains_point(j: Joint, x: int, y: int) -> bool {
    spec_hypot(spec_sub_fp(x, j.x as int), spec_sub_fp(y, j.y as int)) < j.size
}

/// The arena, its contents, and the global constants; the owner of the
/// whole simulation state.
pub struct Enviroment {
    pub width: i32,
    pub height: i32,
    pub stable: i64,
    pub allow_acceleration: bool,
    pub allow_attract: bool,
    pub allow_bounce: bool,
    pub allow_collide: bool,
    pub allow_combine: bool,
    pub allow_drag: bool,
    pub allow_move: bool,
    pub airmass: i64,
    pub joints: Vec<Joint>,
    pub springs: Vec<Spring>,
    pub lines: Vec<Line>,
    pub acceleration: Vector,
}

impl Enviroment {
    /// The configuration a tick of this environment runs under.
    pub open spec fn spec_config(self) -> Config {
        Config {
            width: self.width,
            height: self.height,
            stable: self.stable,
            allow_acceleration: self.allow_acceleration,
            allow_attract: self.allow_attract,
            allow_bounce: self.allow_bounce,
            allow_collide: self.allow_collide,
            allow_combine: self.allow_combine,
            allow_drag: self.allow_drag,
            allow_move: self.allow_move,
            airmass: self.airmass,
            acceleration: self.acceleration,
        }
    }

    /// Every joint well-formed.
    pub open spec fn joints_wf(self) -> bool {
        forall|i: int| 0 <= i < self.joints@.len() ==> (#[trigger] self.joints@[i]).wf()
    }

    /// Every spring well-formed.
    pub open spec fn springs_wf(self) -> bool {
        forall|i: int| 0 <= i < self.springs@.len() ==> (#[trigger] self.springs@[i]).wf()
    }

    /// Every line well-formed.
    pub open spec fn lines_wf(self) -> bool {
        forall|i: int| 0 <= i < self.lines@.len() ==> (#[trigger] self.lines@[i]).wf()
    }

    /// The environment's invariant: configuration and contents
    /// well-formed.
    pub open spec fn wf(self) -> bool {
        &&& self.spec_config().wf()
        &&& self.joints_wf()
        &&& self.springs_wf()
        &&& self.lines_wf()
    }

    /// Every spring's two indices name current joints. Removing a joint
    /// can break this; `update` demands it.
    pub open spec fn springs_linked(self) -> bool {
        forall|k: int|
            0 <= k < self.springs@.len() ==> ((#[trigger] self.springs@[k]).indices.0
                < self.joints@.len() && self.springs@[k].indices.1 < self.joints@.len())
    }

    /// An empty arena of the given size with the default configuration:
    /// gravity of 0.9 units straight down, bounce and collision on,
    /// attraction, merging and drag off.
    pub fn new(width: i32, height: i32) -> (e: Enviroment)
        ensures
            e.width == width,
            e.height == height,
            e.stable == DEFAULT_STABLE,
            e.allow_acceleration,
            !e.allow_attract,
            e.allow_bounce,
            e.allow_collide,
            !e.allow_combine,
            !e.allow_drag,
            e.allow_move,
            e.airmass == DEFAULT_AIRMASS,
            e.acceleration == (Vector { angle: PI, magnitude: DEFAULT_ACCEL_MAGNITUDE }),
            e.joints@ == Seq::<Joint>::empty(),
            e.springs@ == Seq::<Spring>::empty(),
            e.lines@ == Seq::<Line>::empty(),
            e.wf(),
            e.springs_linked(),
    {
        Enviroment {
            width,
            height,
            stable: DEFAULT_STABLE,
            allow_acceleration: true,
            allow_attract: false,
            allow_bounce: true,
            allow_collide: true,
            allow_combine: false,
            allow_drag: false,
            allow_move: true,
            airmass: DEFAULT_AIRMASS,
            acceleration: Vector { angle: PI, magnitude: DEFAULT_ACCEL_MAGNITUDE },
            joints: Vec::new(),
            springs: Vec::new(),
            lines: Vec::new(),
        }
    }

    /// An empty arena with every constant and toggle chosen by the caller.
    pub fn new_custom(
        height: i32,
        width: i32,
        stable: i64,
        allow_acceleration: bool,
        allow_attract: bool,
        allow_bounce: bool,
        allow_collide: bool,
        allow_combine: bool,
        allow_drag: bool,
        allow_move: bool,
        airmass: i64,
        acceleration: Vector,
    ) -> (e: Enviroment)
        requires
            fp_in_range(stable as int),
            1 <= airmass <= FP_MAX,
            acceleration.wf(),
        ensures
            e.height == height,
            e.width == width,
            e.stable == stable,
            e.allow_acceleration == allow_acceleration,
            e.allow_attract == allow_attract,
            e.allow_bounce == allow_bounce,
            e.allow_collide == allow_collide,
            e.allow_combine == allow_combine,
            e.allow_drag == allow_drag,
            e.allow_move == allow_move,
            e.airmass == airmass,
            e.acceleration == acceleration,
            e.joints@ == Seq::<Joint>::empty(),
            e.springs@ == Seq::<Spring>::empty(),
            e.lines@ == Seq::<Line>::empty(),
            e.wf(),
            e.springs_linked(),
    {
        Enviroment {
            height,
            width,
            stable,
            allow_acceleration,
            allow_attract,
            allow_bounce,
            allow_collide,
            allow_combine,
            allow_drag,
            allow_move,
            airmass,
            acceleration,
            joints: Vec::new(),
            springs: Vec::new(),
            lines: Vec::new(),
        }
    }

    /// The joint at `index`, by value.
    pub fn get_joint(&self, index: usize) -> (j: Joint)
        requires
            index < self.joints@.len(),
        ensures
            j == self.joints@[index as int],
    {
        self.joints[index]
    }

    /// Replaces the joint at `index`; the write-back partner of
    /// `get_joint`.
    pub fn set_joint(&mut self, index: usize, j: Joint)
        requires
            index < old(self).joints@.len(),
            j.wf(),
        ensures
            final(self).joints@ == old(self).joints@.update(index as int, j),
            final(self).springs@ == old(self).springs@,
            final(self).lines@ == old(self).lines@,
            final(self).spec_config() == old(self).spec_config(),
            old(self).wf() ==> final(self).wf(),
            old(self).springs_linked() ==> final(self).springs_linked(),
    {
        self.joints.set(index, j);
    }

    /// The index of the first joint, in insertion order, whose radius
    /// strictly contains `(x, y)`; the collection length as the
    /// "not found" sentinel.
    pub fn get_joint_at(&self, x: i64, y: i64) -> (r: usize)
        requires
            self.wf(),
            fp_in_range(x as int),
            fp_in_range(y as int),
        ensures
            r <= self.joints@.len(),
            r == self.joints@.len() ==> forall|k: int|
                0 <= k < self.joints@.len() ==> !spec_contains_point(
                    #[trigger] self.joints@[k],
                    x as int,
                    y as int,
                ),
            r < self.joints@.len() ==> spec_contains_point(
                self.joints@[r as int],
                x as int,
                y as int,
            ) && forall|k: int|
                0 <= k < r ==> !spec_contains_point(
                    #[trigger] self.joints@[k],
                    x as int,
                    y as int,
                ),
    {
        let n = self.joints.len();
        let mut i: usize = 0;
        while i < n
            invariant
                i <= n,
                n == self.joints@.len(),
                self.wf(),
                fp_in_range(x as int),
                fp_in_range(y as int),
                forall|k: int|
                    0 <= k < i ==> !spec_contains_point(
                        #[trigger] self.joints@[k],
                        x as int,
                        y as int,
                    ),
            decreases n - i,
        {
            let j = self.joints[i];
            if hypot_fp(sub_fp(x, j.x), sub_fp(y, j.y)) < j.size {
                return i;
            }
            i = i + 1;
        }
        n
    }

    /// The spring at `index`, by value.
    pub fn get_spring(&self, index: usize) -> (s: Spring)
        requires
            index < self.springs@.len(),
        ensures
            s == self.springs@[index as int],
    {
        self.springs[index]
    }

    /// All springs, for rendering.
    pub fn get_springs(&self) -> (r: &Vec<Spring>)
        ensures
            r@ == self.springs@,
    {
        &self.springs
    }

    /// All joints, for rendering.
    pub fn get_joints(&self) -> (r: &Vec<Joint>)
        ensures
            r@ == self.joints@,
    {
        &self.joints
    }

    /// All lines, for rendering.
    pub fn get_lines(&self) -> (r: &Vec<Line>)
        ensures
            r@ == self.lines@,
    {
        &self.lines
    }

    /// What the simple joint factory builds: mass is the squared size, the
    /// elasticity the default, and the drag the squared ratio of the mass
    /// to the air-laden mass.
    pub open spec fn spec_default_joint(self, x: int, y: int, size: int, angle: int, speed: int) -> Joint {
        let mass = spec_mul_fp(size, size);
        let ratio = spec_div_fp(mass, spec_add_fp(mass, self.airmass as int));
        Joint {
            x: x as i64,
            y: y as i64,
            size: size as i64,
            mass: mass as i64,
            speed: speed as i64,
            angle: angle as i64,
            elasticity: DEFAULT_ELASTICITY,
            drag: spec_mul_fp(ratio, ratio) as i64,
        }
    }

    /// Appends a joint with derived mass and drag and returns it. The size
    /// must be at least 1/256 unit, so the derived mass stays positive.
    pub fn add_joint(&mut self, x: i64, y: i64, size: i64, angle: i64, speed: i64) -> (j: Joint)
        requires
            old(self).wf(),
            fp_in_range(x as int),
            fp_in_range(y as int),
            fp_in_range(angle as int),
            fp_in_range(speed as int),
            256 <= size <= 4294967296,
        ensures
            j == old(self).spec_default_joint(x as int, y as int, size as int, angle as int, speed as int),
            j.wf(),
            final(self).joints@ == old(self).joints@.push(j),
            final(self).springs@ == old(self).springs@,
            final(self).lines@ == old(self).lines@,
            final(self).spec_config() == old(self).spec_config(),
            final(self).wf(),
            old(self).springs_linked() ==> final(self).springs_linked(),
    {
        proof {
            assert(65536 <= (size as int) * (size as int) <= 18446744073709551616) by (nonlinear_arith)
                requires
                    256 <= size as int <= 4294967296,
            ;
        }
        let mass = mul_fp(size, size);
        let den = add_fp(mass, self.airmass);
        let ratio = div_fp(mass, den);
        proof {
            lemma_div_pos_is_pos((mass as int) * 65536, den as int);
            lemma_div_is_ordered((mass as int) * 65536, (den as int) * 65536, den as int);
            lemma_div_multiples_vanish(65536, den as int);
            lemma_mul_nonneg(ratio as int, ratio as int);
            lemma_mul_bounds(ratio as int, ratio as int, SCALE as int, SCALE as int);
        }
        let drag = mul_fp(ratio, ratio);
        let j = Joint::new(x, y, size, mass, speed, angle, DEFAULT_ELASTICITY, drag);
        self.joints.push(j);
        j
    }

    /// What the custom joint factory assigns as drag: the mass ratio
    /// raised to the size in whole units: unlike the simple factory, the
    /// exponent grows with the joint.
    pub open spec fn spec_custom_drag(self, size: int, mass: int) -> int {
        let ratio = spec_div_fp(mass, spec_add_fp(mass, self.airmass as int));
        spec_pow_unit(ratio, (size / (SCALE as int)) as nat)
    }

    /// Appends a joint with caller-chosen mass and elasticity and returns
    /// it; the drag exponent is the size in whole units.
    pub fn add_joint_custom(
        &mut self,
        x: i64,
        y: i64,
        size: i64,
        mass: i64,
        speed: i64,
        angle: i64,
        elasticity: i64,
    ) -> (j: Joint)
        requires
            old(self).wf(),
            fp_in_range(x as int),
            fp_in_range(y as int),
            fp_in_range(angle as int),
            fp_in_range(speed as int),
            1 <= size <= FP_MAX,
            1 <= mass <= FP_MAX,
            0 <= elasticity <= SCALE,
        ensures
            j == (Joint {
                x,
                y,
                size,
                mass,
                speed,
                angle,
                elasticity,
                drag: old(self).spec_custom_drag(size as int, mass as int) as i64,
            }),
            j.wf(),
            final(self).joints@ == old(self).joints@.push(j),
            final(self).springs@ == old(self).springs@,
            final(self).lines@ == old(self).lines@,
            final(self).spec_config() == old(self).spec_config(),
            final(self).wf(),
            old(self).springs_linked() ==> final(self).springs_linked(),
    {
        let den = add_fp(mass, self.airmass);
        let ratio = div_fp(mass, den);
        proof {
            lemma_div_pos_is_pos((mass as int) * 65536, den as int);
            lemma_div_is_ordered((mass as int) * 65536, (den as int) * 65536, den as int);
            lemma_div_multiples_vanish(65536, den as int);
        }
        let exponent: u64 = (size / SCALE) as u64;
        let drag = pow_unit_fp(ratio, exponent);
        let j = Joint::new(x, y, size, mass, speed, angle, elasticity, drag);
        self.joints.push(j);
        j
    }

    /// Appends a static line and returns it.
    pub fn add_line(&mut self, x1: i64, y1: i64, x2: i64, y2: i64, width: i64) -> (l: Line)
        requires
            old(self).wf(),
            fp_in_range(x1 as int),
            fp_in_range(y1 as int),
            fp_in_range(x2 as int),
            fp_in_range(y2 as int),
            fp_in_range(width as int),
        ensures
            l == (Line { start_x: x1, start_y: y1, end_x: x2, end_y: y2, width }),
            final(self).lines@ == old(self).lines@.push(l),
            final(self).joints@ == old(self).joints@,
            final(self).springs@ == old(self).springs@,
            final(self).spec_config() == old(self).spec_config(),
            final(self).wf(),
            old(self).springs_linked() ==> final(self).springs_linked(),
    {
        let l = Line::new(x1, y1, x2, y2, width);
        self.lines.push(l);
        l
    }

    /// Appends a spring between the joints at the two indices. The indices
    /// are raw positional references and are not checked here: `update`
    /// demands that every spring names current joints.
    pub fn add_spring(&mut self, index_a: usize, index_b: usize, rest_length: i64, strength: i64)
        requires
            old(self).wf(),
            fp_in_range(rest_length as int),
            fp_in_range(strength as int),
        ensures
            final(self).springs@ == old(self).springs@.push(
                Spring {
                    position_1: (0i64, 0i64),
                    position_2: (0i64, 0i64),
                    indices: (index_a, index_b),
                    length: rest_length,
                    strength,
                },
            ),
            final(self).joints@ == old(self).joints@,
            final(self).lines@ == old(self).lines@,
            final(self).spec_config() == old(self).spec_config(),
            final(self).wf(),
    {
        let s = Spring::new((index_a, index_b), rest_length, strength);
        self.springs.push(s);
    }

    /// Removes the joint at `index`, shifting the ones after it down.
    /// Spring endpoints are raw indices and are not renumbered: springs
    /// that named the removed joint or any later one now point elsewhere,
    /// and `update` refuses the environment until they are fixed.
    pub fn remove_joint(&mut self, index: usize)
        requires
            old(self).wf(),
            index < old(self).joints@.len(),
        ensures
            final(self).joints@ == old(self).joints@.remove(index as int),
            final(self).springs@ == old(self).springs@,
            final(self).lines@ == old(self).lines@,
            final(self).spec_config() == old(self).spec_config(),
            final(self).wf(),
    {
        self.joints.remove(index);
    }

    /// Runs `sub_steps` full ticks, each with an equal share of `dt`; the
    /// share only reaches the parts of the pipeline that read it.
    pub fn update_substeps(&mut self, dt: i64, sub_steps: u32)
        requires
            old(self).wf(),
            old(self).springs_linked(),
            1 <= sub_steps,
        ensures
            final(self).joints@ == old(self).spec_config().spec_tick_n(
                old(self).joints@,
                old(self).springs@,
                sub_steps as nat,
            ).0,
            final(self).springs@ == old(self).spec_config().spec_tick_n(
                old(self).joints@,
                old(self).springs@,
                sub_steps as nat,
            ).1,
            final(self).lines@ == old(self).lines@,
            final(self).spec_config() == old(self).spec_config(),
            final(self).wf(),
            final(self).springs_linked(),
    {
        let sub_dt = dt / (sub_steps as i64);
        let mut step: u32 = 0;
        while step < sub_steps
            invariant
                step <= sub_steps,
                self.joints@ == old(self).spec_config().spec_tick_n(
                    old(self).joints@,
                    old(self).springs@,
                    step as nat,
                ).0,
                self.springs@ == old(self).spec_config().spec_tick_n(
                    old(self).joints@,
                    old(self).springs@,
                    step as nat,
                ).1,
                self.lines@ == old(self).lines@,
                self.spec_config() == old(self).spec_config(),
                self.wf(),
                self.springs_linked(),
            decreases sub_steps - step,
        {
            self.update(sub_dt);
            step = step + 1;
        }
    }

    /// One full tick: every joint through the per-joint phases and the
    /// pairwise collision sweep, then every spring applied, exactly as the
    /// spec model `Config::spec_tick` lays it out.
    pub fn update(&mut self, dt: i64)
        requires
            old(self).wf(),
            old(self).springs_linked(),
        ensures
            final(self).joints@ == old(self).spec_config().spec_tick(
                old(self).joints@,
                old(self).springs@,
            ).0,
            final(self).springs@ == old(self).spec_config().spec_tick(
                old(self).joints@,
                old(self).springs@,
            ).1,
            final(self).lines@ == old(self).lines@,
            final(self).spec_config() == old(self).spec_config(),
            final(self).joints@.len() == old(self).joints@.len(),
            final(self).wf(),
            final(self).springs_linked(),
    {
        let ghost cfg = old(self).spec_config();
        let ghost js0 = old(self).joints@;
        let n = self.joints.len();
        let mut i: usize = 0;
        while i < n
            invariant
                i <= n,
                n == self.joints@.len(),
                self.joints@ == cfg.spec_update_joints(js0, i as int),
                self.springs@ == old(self).springs@,
                self.lines@ == old(self).lines@,
                self.spec_config() == cfg,
                cfg == old(self).spec_config(),
                js0 == old(self).joints@,
                old(self).wf(),
                self.wf(),
                self.springs_linked(),
            decreases n - i,
        {
            let mut j = self.joints[i];
            if self.allow_acceleration {
                let acc = self.acceleration;
                j.accelerate(acc);
            }
            if self.allow_move {
                j.update(dt);
            }
            if self.allow_drag {
                j.experience_drag();
            }
            if self.allow_bounce {
                let w = (self.width as i64) * SCALE;
                let h = (self.height as i64) * SCALE;
                j.bounce(w, h);
            }
            let sp_abs = if j.speed < 0 {
                -j.speed
            } else {
                j.speed
            };
            if sp_abs < self.stable {
                j.speed = 0;
            }
            proof {
                assert(j == cfg.spec_step_joint(cfg.spec_update_joints(js0, i as int)[i as int]));
            }
            self.joints.set(i, j);
            let ghost stepped = self.joints@;
            let mut jj: usize = 0;
            while jj < n
                invariant
                    i < n,
                    jj <= n,
                    n == self.joints@.len(),
                    n == stepped.len(),
                    self.joints@ == cfg.spec_collide_pass(stepped, i as int, jj as int),
                    stepped == cfg.spec_update_joints(js0, i as int).update(
                        i as int,
                        cfg.spec_step_joint(cfg.spec_update_joints(js0, i as int)[i as int]),
                    ),
                    self.springs@ == old(self).springs@,
                    self.lines@ == old(self).lines@,
                    self.spec_config() == cfg,
                    cfg == old(self).spec_config(),
                    js0 == old(self).joints@,
                    old(self).wf(),
                    self.wf(),
                    self.springs_linked(),
                decreases n - jj,
            {
                if jj != i {
                    if self.allow_collide {
                        let mut v = self.joints[i];
                        let mut nb = self.joints[jj];
                        v.collide(&mut nb, dt);
                        self.joints.set(jj, nb);
                    }
                }
                jj = jj + 1;
            }
            proof {
                assert(self.joints@ == cfg.spec_update_joints(js0, i as int + 1));
            }
            i = i + 1;
        }
        let ghost js_mid = self.joints@;
        let ghost ss0 = old(self).springs@;
        let m = self.springs.len();
        let mut k: usize = 0;
        while k < m
            invariant
                k <= m,
                m == self.springs@.len(),
                n == self.joints@.len(),
                self.joints@ == Config::spec_apply_springs(js_mid, ss0, k as int).0,
                self.springs@ == Config::spec_apply_springs(js_mid, ss0, k as int).1,
                js_mid == cfg.spec_update_joints(js0, js0.len() as int),
                ss0 == old(self).springs@,
                ss0.len() == m,
                js_mid.len() == n,
                self.lines@ == old(self).lines@,
                self.spec_config() == cfg,
                cfg == old(self).spec_config(),
                js0 == old(self).joints@,
                js0.len() == n,
                old(self).wf(),
                old(self).springs_linked(),
                self.wf(),
                self.springs_linked(),
            decreases m - k,
        {
            let s = self.springs[k];
            let ia = s.indices.0;
            let ib = s.indices.1;
            let ja = self.joints[ia];
            let jb = self.joints[ib];
            let mut s2 = s;
            let v = s2.update(&ja, &jb);
            self.springs.set(k, s2);
            let mut j0 = self.joints[ia];
            j0.accelerate(v.0);
            self.joints.set(ia, j0);
            let mut j1 = self.joints[ib];
            j1.accelerate(v.1);
            self.joints.set(ib, j1);
            proof {
                assert(self.joints@ == Config::spec_apply_springs(js_mid, ss0, k as int + 1).0);
                assert(self.springs@ == Config::spec_apply_springs(js_mid, ss0, k as int + 1).1);
            }
            k = k + 1;
        }
    }
}

/// Law: a joint whose speed after the gated phases is smaller in magnitude
/// than the stability threshold leaves the per-joint phase with speed
/// exactly zero.
pub proof fn lemma_stability_clamp(cfg: Config, j: Joint)
    requires
        iabs(cfg.spec_glide(j).speed as int) < cfg.stable as int,
    ensures
        cfg.spec_step_joint(j).speed == 0,
{
}

/// Law: a single resting joint clear of the walls, with no springs and
/// global acceleration off, is left exactly where it is by a tick.
pub proof fn lemma_neutral_tick(cfg: Config, js: Seq<Joint>, ss: Seq<Spring>)
    requires
        js.len() == 1,
        ss.len() == 0,
        js[0].wf(),
        js[0].speed == 0,
        !cfg.allow_acceleration,
        js[0].size <= js[0].x <= spec_sub_fp(cfg.width_fp(), js[0].size as int),
        js[0].size <= js[0].y <= spec_sub_fp(cfg.height_fp(), js[0].size as int),
    ensures
        cfg.spec_tick(js, ss).0 == js,
        cfg.spec_tick(js, ss).1 == ss,
{
    let j = js[0];
    assert(spec_mul_fp(crate::trig::spec_sin(j.angle as int), 0) == 0);
    assert(spec_mul_fp(crate::trig::spec_cos(j.angle as int), 0) == 0);
    crate::fixed::lemma_mul_fp_zero(j.drag as int);
    let moved = if cfg.allow_move {
        spec_move(j)
    } else {
        j
    };
    assert(moved == j);
    let dragged = if cfg.allow_drag {
        spec_drag(moved)
    } else {
        moved
    };
    assert(dragged == j);
    let bounced = if cfg.allow_bounce {
        spec_bounce(moved, cfg.width_fp(), cfg.height_fp())
    } else {
        moved
    };
    assert(bounced == j);
    assert(cfg.spec_glide(j) == j);
    assert(cfg.spec_step_joint(j) == j);
    let stepped = cfg.spec_update_joints(js, 0).update(0, cfg.spec_step_joint(js[0]));
    assert(cfg.spec_update_joints(js, 0) == js);
    assert(stepped =~= js);
    assert(cfg.spec_collide_pass(js, 0, 1) == cfg.spec_collide_pass(js, 0, 0));
    assert(cfg.spec_update_joints(js, 1) == js);
    assert(cfg.spec_tick(js, ss).0 == js);
    assert(cfg.spec_tick(js, ss).1 == ss);
}

} // verus!
