//! Fixed-point vectors, rotations and poses.

use vstd::prelude::*;
use crate::fixed::{ONE, LIMIT, unscale, unscale_wide, lemma_product_bound, lemma_unscale_bound};

verus! {

/// Largest magnitude a coordinate of an eye position may have.
pub const REACH: i64 = 5_000_000_000_000;

/// Largest magnitude a component of a vector between two points may have.
pub const SPAN: i64 = 40_000_000_000_000;

/// Squared length, in millionths of millionths, below which a vector counts as zero.
pub const NEGLIGIBLE_SQUARED: i128 = 10_000_000;

/// Two fixed-point components, as a pointing device reports them.
#[derive(Clone, Copy, Debug, PartialEq, Eq, Structural)]
pub struct Vec2 {
    pub x: i64,
    pub y: i64,
}

/// Three fixed-point components: a point or a direction in space.
#[derive(Clone, Copy, Debug, PartialEq, Eq, Structural)]
pub struct Vec3 {
    pub x: i64,
    pub y: i64,
    pub z: i64,
}

/// An orientation as the four components of a unit quaternion.
#[derive(Clone, Copy, Debug, PartialEq, Eq, Structural)]
pub struct Quat {
    pub x: i64,
    pub y: i64,
    pub z: i64,
    pub w: i64,
}

/// A pose: where the eye is and which way it is turned.
#[derive(Clone, Copy, Debug, PartialEq, Eq, Structural)]
pub struct Transform {
    pub translation: Vec3,
    pub rotation: Quat,
}

impl Vec2 {
    /// Every component has magnitude at most `bound`.
    pub open spec fn within(self, bound: int) -> bool {
        &&& -bound <= self.x <= bound
        &&& -bound <= self.y <= bound
    }

    /// The squared length, in millionths of millionths.
    pub open spec fn norm_squared(self) -> int {
        self.x * self.x + self.y * self.y
    }

    /// Whether the vector is too short to carry a direction.
    pub open spec fn negligible(self) -> bool {
        self.norm_squared() < NEGLIGIBLE_SQUARED
    }

    /// The vector with these components.
    pub fn new(x: i64, y: i64) -> (v: Vec2)
        ensures
            v == (Vec2 { x, y }),
    {
        Vec2 { x, y }
    }

    /// Tells whether every component has magnitude at most `bound`.
    pub fn is_within(self, bound: i64) -> (r: bool)
        requires
            0 <= bound,
        ensures
            r == self.within(bound as int),
    {
        -bound <= self.x && self.x <= bound && -bound <= self.y && self.y <= bound
    }

    /// The squared length.
    pub fn length_squared(self) -> (r: i128)
        requires
            self.within(LIMIT as int),
        ensures
            r == self.norm_squared(),
            0 <= r <= 2 * (LIMIT * LIMIT),
    {
        proof {
            lemma_square_bound(self.x as int, LIMIT as int);
            lemma_square_bound(self.y as int, LIMIT as int);
        }
        let xx: i128 = (self.x as i128) * (self.x as i128);
        let yy: i128 = (self.y as i128) * (self.y as i128);
        xx + yy
    }

    /// Tells whether the vector is too short to carry a direction.
    pub fn is_approx_zero(self) -> (r: bool)
        requires
            self.within(LIMIT as int),
        ensures
            r == self.negligible(),
    {
        self.length_squared() < NEGLIGIBLE_SQUARED
    }
}

/// A square is non-negative and bounded by the square of the bound.
pub proof fn lemma_square_bound(a: int, m: int)
    requires
        -m <= a <= m,
    ensures
        0 <= a * a <= m * m,
{
    assert(0 <= a * a <= m * m) by (nonlinear_arith)
        requires
            -m <= a <= m,
    ;
}

impl Vec3 {
    /// Every component has magnitude at most `bound`.
    pub open spec fn within(self, bound: int) -> bool {
        &&& -bound <= self.x <= bound
        &&& -bound <= self.y <= bound
        &&& -bound <= self.z <= bound
    }

    /// The dot product, in millionths of millionths.
    pub open spec fn dot_product(self, other: Vec3) -> int {
        self.x * other.x + self.y * other.y + self.z * other.z
    }

    /// The squared length, in millionths of millionths.
    pub open spec fn norm_squared(self) -> int {
        self.dot_product(self)
    }

    /// Whether the vector is too short to carry a direction.
    pub open spec fn negligible(self) -> bool {
        self.norm_squared() < NEGLIGIBLE_SQUARED
    }

    /// Whether the vector is an axis to measure against: in range for a unit
    /// vector, and not the zero vector.
    pub open spec fn is_axis(self) -> bool {
        &&& self.within(ONE as int)
        &&& (self.x != 0 || self.y != 0 || self.z != 0)
    }

    /// The vector pointing the opposite way.
    pub open spec fn negated(self) -> Vec3 {
        Vec3 { x: (-self.x) as i64, y: (-self.y) as i64, z: (-self.z) as i64 }
    }

    /// The sum `self + other`.
    pub open spec fn sum(self, other: Vec3) -> Vec3 {
        Vec3 {
            x: (self.x + other.x) as i64,
            y: (self.y + other.y) as i64,
            z: (self.z + other.z) as i64,
        }
    }

    /// The difference `self - other`.
    pub open spec fn difference(self, other: Vec3) -> Vec3 {
        Vec3 {
            x: (self.x - other.x) as i64,
            y: (self.y - other.y) as i64,
            z: (self.z - other.z) as i64,
        }
    }

    /// The vector with every component multiplied by the scalar `s`.
    pub open spec fn scaled_by(self, s: int) -> Vec3 {
        Vec3 {
            x: unscale(self.x * s) as i64,
            y: unscale(self.y * s) as i64,
            z: unscale(self.z * s) as i64,
        }
    }

    /// The point that lies the fraction `factor` of the way from `self` to `target`.
    pub open spec fn blend(self, target: Vec3, factor: int) -> Vec3 {
        Vec3 {
            x: (self.x + unscale((target.x - self.x) * factor)) as i64,
            y: (self.y + unscale((target.y - self.y) * factor)) as i64,
            z: (self.z + unscale((target.z - self.z) * factor)) as i64,
        }
    }

    /// What is left of the vector once its part along the unit vector `up` is taken away.
    pub open spec fn horizontal_part(self, up: Vec3) -> Vec3 {
        self.difference(up.scaled_by(unscale(self.dot_product(up))))
    }

    /// The vector with these components.
    pub fn new(x: i64, y: i64, z: i64) -> (v: Vec3)
        ensures
            v == (Vec3 { x, y, z }),
    {
        Vec3 { x, y, z }
    }

    /// The origin.
    pub fn zero() -> (v: Vec3)
        ensures
            v == (Vec3 { x: 0, y: 0, z: 0 }),
    {
        Vec3 { x: 0, y: 0, z: 0 }
    }

    /// The unit vector along the second axis: the world's up.
    pub fn unit_y() -> (v: Vec3)
        ensures
            v == (Vec3 { x: 0, y: ONE, z: 0 }),
            v.is_axis(),
    {
        Vec3 { x: 0, y: ONE, z: 0 }
    }

    /// Tells whether every component has magnitude at most `bound`.
    pub fn is_within(self, bound: i64) -> (r: bool)
        requires
            0 <= bound,
        ensures
            r == self.within(bound as int),
    {
        -bound <= self.x && self.x <= bound && -bound <= self.y && self.y <= bound && -bound
            <= self.z && self.z <= bound
    }

    /// Tells whether the vector is an axis to measure against.
    pub fn is_valid_axis(self) -> (r: bool)
        ensures
            r == self.is_axis(),
    {
        self.is_within(ONE) && (self.x != 0 || self.y != 0 || self.z != 0)
    }

    /// The vector pointing the opposite way.
    pub fn neg(self) -> (r: Vec3)
        requires
            self.within(i64::MAX as int),
        ensures
            r == self.negated(),
            forall|b: int| self.within(b) ==> r.within(b),
    {
        Vec3 { x: -self.x, y: -self.y, z: -self.z }
    }

    /// The sum `self + other`.
    pub fn plus(self, other: Vec3) -> (r: Vec3)
        requires
            self.within(SPAN as int),
            other.within(SPAN as int),
        ensures
            r == self.sum(other),
            r.x == self.x + other.x,
            r.y == self.y + other.y,
            r.z == self.z + other.z,
    {
        Vec3 { x: self.x + other.x, y: self.y + other.y, z: self.z + other.z }
    }

    /// The difference `self - other`.
    pub fn minus(self, other: Vec3) -> (r: Vec3)
        requires
            self.within(SPAN as int),
            other.within(SPAN as int),
        ensures
            r == self.difference(other),
            r.x == self.x - other.x,
            r.y == self.y - other.y,
            r.z == self.z - other.z,
    {
        Vec3 { x: self.x - other.x, y: self.y - other.y, z: self.z - other.z }
    }

    /// The dot product, in millionths of millionths.
    pub fn dot(self, other: Vec3) -> (r: i128)
        requires
            self.within(SPAN as int),
            other.within(SPAN as int),
        ensures
            r == self.dot_product(other),
    {
        proof {
            lemma_product_bound(self.x as int, other.x as int, SPAN as int, SPAN as int);
            lemma_product_bound(self.y as int, other.y as int, SPAN as int, SPAN as int);
            lemma_product_bound(self.z as int, other.z as int, SPAN as int, SPAN as int);
        }
        let xx: i128 = (self.x as i128) * (other.x as i128);
        let yy: i128 = (self.y as i128) * (other.y as i128);
        let zz: i128 = (self.z as i128) * (other.z as i128);
        xx + yy + zz
    }

    /// The squared length, in millionths of millionths.
    pub fn length_squared(self) -> (r: i128)
        requires
            self.within(SPAN as int),
        ensures
            r == self.norm_squared(),
            0 <= r,
    {
        proof {
            lemma_square_bound(self.x as int, SPAN as int);
            lemma_square_bound(self.y as int, SPAN as int);
            lemma_square_bound(self.z as int, SPAN as int);
        }
        self.dot(self)
    }

    /// Tells whether the vector is too short to carry a direction.
    pub fn is_approx_zero(self) -> (r: bool)
        requires
            self.within(SPAN as int),
        ensures
            r == self.negligible(),
    {
        self.length_squared() < NEGLIGIBLE_SQUARED
    }

    /// Multiplies every component by the scalar `s`, rounding toward zero.
    pub fn scale(self, s: i64) -> (r: Vec3)
        requires
            self.within(4 * ONE),
            -LIMIT <= s <= LIMIT,
        ensures
            r == self.scaled_by(s as int),
            r.within(4 * LIMIT),
    {
        Vec3 {
            x: scale_component(self.x, s),
            y: scale_component(self.y, s),
            z: scale_component(self.z, s),
        }
    }

    /// Moves the fraction `factor` of the way from `self` to `target`.
    pub fn lerp(self, target: Vec3, factor: i64) -> (r: Vec3)
        requires
            self.within(REACH as int),
            target.within(REACH as int),
            0 <= factor <= ONE,
        ensures
            r == self.blend(target, factor as int),
            r.within(REACH as int),
            factor == ONE ==> r == target,
            factor == 0 ==> r == self,
    {
        Vec3 {
            x: lerp_component(self.x, target.x, factor),
            y: lerp_component(self.y, target.y, factor),
            z: lerp_component(self.z, target.z, factor),
        }
    }

    /// Takes away the part of the vector that lies along the unit vector `up`.
    pub fn horizontal(self, up: Vec3) -> (r: Vec3)
        requires
            self.within(2 * REACH),
            up.within(ONE as int),
        ensures
            r == self.horizontal_part(up),
            r.within(SPAN as int),
    {
        proof {
            lemma_product_bound(self.x as int, up.x as int, 2 * REACH, ONE as int);
            lemma_product_bound(self.y as int, up.y as int, 2 * REACH, ONE as int);
            lemma_product_bound(self.z as int, up.z as int, 2 * REACH, ONE as int);
            lemma_unscale_bound(self.dot_product(up), 6 * REACH);
        }
        let along: i128 = unscale_wide(self.dot(up));
        let along: i64 = along as i64;
        proof {
            lemma_product_bound(up.x as int, along as int, ONE as int, 6 * REACH);
            lemma_product_bound(up.y as int, along as int, ONE as int, 6 * REACH);
            lemma_product_bound(up.z as int, along as int, ONE as int, 6 * REACH);
            lemma_unscale_bound(up.x * along, 6 * REACH);
            lemma_unscale_bound(up.y * along, 6 * REACH);
            lemma_unscale_bound(up.z * along, 6 * REACH);
        }
        let vx: i128 = unscale_wide((up.x as i128) * (along as i128));
        let vy: i128 = unscale_wide((up.y as i128) * (along as i128));
        let vz: i128 = unscale_wide((up.z as i128) * (along as i128));
        Vec3 {
            x: (self.x as i128 - vx) as i64,
            y: (self.y as i128 - vy) as i64,
            z: (self.z as i128 - vz) as i64,
        }
    }
}

impl Quat {
    /// Every component has magnitude at most one, as in a unit quaternion.
    pub open spec fn wf(self) -> bool {
        &&& -ONE <= self.x <= ONE
        &&& -ONE <= self.y <= ONE
        &&& -ONE <= self.z <= ONE
        &&& -ONE <= self.w <= ONE
    }

    /// The direction into which this orientation turns the viewing axis, the
    /// negative third axis.
    pub open spec fn forward_axis(self) -> Vec3 {
        Vec3 {
            x: (-unscale(2 * (self.x * self.z + self.w * self.y))) as i64,
            y: unscale(2 * (self.w * self.x - self.y * self.z)) as i64,
            z: (unscale(2 * (self.x * self.x + self.y * self.y)) - ONE) as i64,
        }
    }

    /// The orientation with these components.
    pub fn new(x: i64, y: i64, z: i64, w: i64) -> (q: Quat)
        ensures
            q == (Quat { x, y, z, w }),
    {
        Quat { x, y, z, w }
    }

    /// The orientation that turns nothing.
    pub fn identity() -> (q: Quat)
        ensures
            q == (Quat { x: 0, y: 0, z: 0, w: ONE }),
            q.wf(),
    {
        Quat { x: 0, y: 0, z: 0, w: ONE }
    }

    /// Tells whether every component has magnitude at most one.
    pub fn is_valid(self) -> (r: bool)
        ensures
            r == self.wf(),
    {
        -ONE <= self.x && self.x <= ONE && -ONE <= self.y && self.y <= ONE && -ONE <= self.z
            && self.z <= ONE && -ONE <= self.w && self.w <= ONE
    }

    /// The direction into which this orientation turns the viewing axis.
    pub fn forward(self) -> (r: Vec3)
        requires
            self.wf(),
        ensures
            r == self.forward_axis(),
            r.within(4 * ONE),
    {
        proof {
            lemma_product_bound(self.x as int, self.z as int, ONE as int, ONE as int);
            lemma_product_bound(self.w as int, self.y as int, ONE as int, ONE as int);
            lemma_product_bound(self.w as int, self.x as int, ONE as int, ONE as int);
            lemma_product_bound(self.y as int, self.z as int, ONE as int, ONE as int);
            lemma_square_bound(self.x as int, ONE as int);
            lemma_square_bound(self.y as int, ONE as int);
            lemma_unscale_bound(2 * (self.x * self.z + self.w * self.y), 4 * ONE);
            lemma_unscale_bound(2 * (self.w * self.x - self.y * self.z), 4 * ONE);
            lemma_unscale_bound(2 * (self.x * self.x + self.y * self.y), 4 * ONE);
            lemma_unscale_sign(2 * (self.x * self.x + self.y * self.y));
        }
        let x: i128 = self.x as i128;
        let y: i128 = self.y as i128;
        let z: i128 = self.z as i128;
        let w: i128 = self.w as i128;
        let fx: i128 = unscale_wide(2 * (x * z + w * y));
        let fy: i128 = unscale_wide(2 * (w * x - y * z));
        let fz: i128 = unscale_wide(2 * (x * x + y * y));
        Vec3 { x: (-fx) as i64, y: fy as i64, z: (fz - (ONE as i128)) as i64 }
    }
}

/// The viewing direction of an orientation in range has no component beyond four.
pub proof fn lemma_forward_in_range(q: Quat)
    requires
        q.wf(),
    ensures
        q.forward_axis().within(4 * ONE),
{
    lemma_product_bound(q.x as int, q.z as int, ONE as int, ONE as int);
    lemma_product_bound(q.w as int, q.y as int, ONE as int, ONE as int);
    lemma_product_bound(q.w as int, q.x as int, ONE as int, ONE as int);
    lemma_product_bound(q.y as int, q.z as int, ONE as int, ONE as int);
    lemma_square_bound(q.x as int, ONE as int);
    lemma_square_bound(q.y as int, ONE as int);
    lemma_unscale_bound(2 * (q.x * q.z + q.w * q.y), 4 * ONE);
    lemma_unscale_bound(2 * (q.w * q.x - q.y * q.z), 4 * ONE);
    lemma_unscale_bound(2 * (q.x * q.x + q.y * q.y), 4 * ONE);
    lemma_unscale_sign(2 * (q.x * q.x + q.y * q.y));
}

/// A direction with no component beyond four, scaled by a scalar in range, has
/// no component beyond four times the range.
pub proof fn lemma_scaled_direction_in_range(v: Vec3, s: int)
    requires
        v.within(4 * ONE),
        -LIMIT <= s <= LIMIT,
    ensures
        -4 * LIMIT <= unscale(v.x * s) <= 4 * LIMIT,
        -4 * LIMIT <= unscale(v.y * s) <= 4 * LIMIT,
        -4 * LIMIT <= unscale(v.z * s) <= 4 * LIMIT,
        v.scaled_by(s).within(4 * LIMIT),
{
    lemma_product_bound(v.x as int, s, 4 * ONE, LIMIT as int);
    lemma_product_bound(v.y as int, s, 4 * ONE, LIMIT as int);
    lemma_product_bound(v.z as int, s, 4 * ONE, LIMIT as int);
    assert((4 * ONE) * LIMIT == (4 * LIMIT) * ONE) by (nonlinear_arith);
    lemma_unscale_bound(v.x * s, 4 * LIMIT);
    lemma_unscale_bound(v.y * s, 4 * LIMIT);
    lemma_unscale_bound(v.z * s, 4 * LIMIT);
}

/// Rounding toward zero keeps the sign of what it rounds.
pub proof fn lemma_unscale_sign(p: int)
    ensures
        p >= 0 ==> unscale(p) >= 0,
        p <= 0 ==> unscale(p) <= 0,
{
    if p >= 0 {
        assert(p / (ONE as int) >= 0) by (nonlinear_arith)
            requires
                0 <= p,
        ;
    } else {
        let q = -p;
        assert(q / (ONE as int) >= 0) by (nonlinear_arith)
            requires
                0 <= q,
        ;
    }
}

impl Transform {
    /// The eye lies within reach and the orientation is in range.
    pub open spec fn wf(self) -> bool {
        &&& self.translation.within(REACH as int)
        &&& self.rotation.wf()
    }

    /// The direction in which the pose looks.
    pub open spec fn forward_axis(self) -> Vec3 {
        self.rotation.forward_axis()
    }

    /// The pose of an eye at `translation` turned to `rotation`.
    pub fn new(translation: Vec3, rotation: Quat) -> (t: Transform)
        ensures
            t == (Transform { translation, rotation }),
    {
        Transform { translation, rotation }
    }

    /// The pose at the origin that turns nothing.
    pub fn identity() -> (t: Transform)
        ensures
            t == (Transform {
                translation: Vec3 { x: 0, y: 0, z: 0 },
                rotation: Quat { x: 0, y: 0, z: 0, w: ONE },
            }),
            t.wf(),
    {
        Transform { translation: Vec3::zero(), rotation: Quat::identity() }
    }

    /// Tells whether the eye lies within reach and the orientation is in range.
    pub fn is_valid(self) -> (r: bool)
        ensures
            r == self.wf(),
    {
        self.translation.is_within(REACH) && self.rotation.is_valid()
    }

    /// The same orientation with the eye at `translation`.
    pub fn with_translation(self, translation: Vec3) -> (t: Transform)
        ensures
            t == (Transform { translation, rotation: self.rotation }),
    {
        Transform { translation, rotation: self.rotation }
    }

    /// The direction in which the pose looks.
    pub fn forward(self) -> (r: Vec3)
        requires
            self.rotation.wf(),
        ensures
            r == self.forward_axis(),
            r.within(4 * ONE),
    {
        self.rotation.forward()
    }
}

/// With the second axis up, the horizontal part of a vector is the vector
/// without its second component.
pub proof fn lemma_horizontal_under_second_axis(v: Vec3)
    requires
        v.within(SPAN as int),
    ensures
        v.horizontal_part(Vec3 { x: 0, y: ONE, z: 0 }) == (Vec3 { x: v.x, y: 0, z: v.z }),
{
    let up = Vec3 { x: 0, y: ONE, z: 0 };
    let rise = v.y as int;
    assert(v.dot_product(up) == rise * ONE) by (nonlinear_arith)
        requires
            up.x == 0 && up.y == ONE && up.z == 0,
            v.y == rise,
            v.dot_product(up) == v.x * up.x + v.y * up.y + v.z * up.z,
    ;
    crate::fixed::lemma_scaled_one(rise);
    assert(0 * rise == 0 && ONE * rise == rise * ONE) by (nonlinear_arith);
    assert(up.scaled_by(rise) == Vec3 { x: 0, y: v.y, z: 0 });
}

/// One component of a direction multiplied by a scalar.
fn scale_component(c: i64, s: i64) -> (r: i64)
    requires
        -4 * ONE <= c <= 4 * ONE,
        -LIMIT <= s <= LIMIT,
    ensures
        r == unscale(c * s),
        -4 * LIMIT <= r <= 4 * LIMIT,
{
    proof {
        lemma_product_bound(c as int, s as int, 4 * ONE, LIMIT as int);
        assert((4 * ONE) * LIMIT == (4 * LIMIT) * ONE) by (nonlinear_arith);
        lemma_unscale_bound(c * s, 4 * LIMIT);
    }
    let p: i128 = (c as i128) * (s as i128);
    unscale_wide(p) as i64
}

/// The step from `a` toward `b` is no longer than the whole way, and points the same way.
pub proof fn lemma_blend_between(a: int, b: int, f: int)
    requires
        0 <= f <= ONE,
    ensures
        a <= b ==> a <= a + unscale((b - a) * f) <= b,
        b <= a ==> b <= a + unscale((b - a) * f) <= a,
        f == ONE ==> a + unscale((b - a) * f) == b,
        f == 0 ==> a + unscale((b - a) * f) == a,
{
    let d = b - a;
    if d >= 0 {
        assert(0 <= d * f <= d * ONE) by (nonlinear_arith)
            requires
                0 <= d,
                0 <= f <= ONE,
        ;
        lemma_unscale_bound(d * f, d);
        assert((d * f) / (ONE as int) >= 0) by (nonlinear_arith)
            requires
                0 <= d * f,
        ;
    } else {
        let e = -d;
        assert(0 <= e * f <= e * ONE && d * f == -(e * f)) by (nonlinear_arith)
            requires
                0 <= e,
                e == -d,
                0 <= f <= ONE,
        ;
        lemma_unscale_bound(d * f, e);
        assert((e * f) / (ONE as int) >= 0) by (nonlinear_arith)
            requires
                0 <= e * f,
        ;
    }
    if f == ONE {
        crate::fixed::lemma_scaled_one(d);
    }
    if f == 0 {
        crate::fixed::lemma_scaled_one(d);
    }
}

/// One component moved the fraction `factor` of the way from `a` to `b`.
fn lerp_component(a: i64, b: i64, factor: i64) -> (r: i64)
    requires
        -REACH <= a <= REACH,
        -REACH <= b <= REACH,
        0 <= factor <= ONE,
    ensures
        r == a + unscale((b - a) * factor),
        -REACH <= r <= REACH,
        factor == ONE ==> r == b,
        factor == 0 ==> r == a,
{
    proof {
        lemma_blend_between(a as int, b as int, factor as int);
        lemma_product_bound((b - a) as int, factor as int, 2 * REACH, ONE as int);
    }
    let d: i128 = (b as i128) - (a as i128);
    let step: i128 = unscale_wide(d * (factor as i128));
    ((a as i128) + step) as i64
}

} // verus!
