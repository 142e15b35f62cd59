//! Geometric utilities: the 2D vector [`Point`], the primitive shapes
//! [`Rect`], [`Circle`] and [`Triangle`], and the point-inclusion
//! trait [`Contains`].
//!
//! Point-inclusion tests are carried out in exact (widened) integer
//! arithmetic, so a squared-distance comparison stands in for the
//! floating-point length comparison a backend would make: the two
//! agree wherever the latter is exact.

use vstd::prelude::*;

verus! {

/// A 2D vector, usually positional.
#[derive(Clone, Copy, Debug, PartialEq, Eq, Structural)]
pub struct Point(pub i32, pub i32);

/// Truncating division, as the `/` of the executable signed integer
/// types: rounds toward zero.
pub open spec fn tdiv(a: int, b: int) -> int {
    if (a >= 0) == (b >= 0) {
        abs(a) / abs(b)
    } else {
        -(abs(a) / abs(b))
    }
}

/// The absolute value of an integer.
pub open spec fn abs(a: int) -> int {
    if a >= 0 {
        a
    } else {
        -a
    }
}

/// Truncating halving, as the `/ 2` of the executable integer types:
/// rounds toward zero.
pub open spec fn half(x: int) -> int {
    tdiv(x, 2)
}

/// A truncating quotient of machine-word-ranged values stays in
/// range, except for the one overflowing combination of the most
/// negative dividend and a divisor of minus one.
proof fn lemma_tdiv_i32_range(a: int, b: int)
    requires
        -0x8000_0000 <= a <= 0x7fff_ffff,
        -0x8000_0000 <= b <= 0x7fff_ffff,
        b != 0,
        !(a == -0x8000_0000 && b == -1),
    ensures
        -0x8000_0000 <= tdiv(a, b) <= 0x7fff_ffff,
{
    let qa = abs(a) / abs(b);
    assert(0 <= qa <= abs(a)) by (nonlinear_arith)
        requires
            qa == abs(a) / abs(b),
            abs(a) >= 0,
            abs(b) >= 1,
    ;
    if abs(b) >= 2 {
        assert(2 * qa <= abs(a)) by (nonlinear_arith)
            requires
                qa == abs(a) / abs(b),
                abs(a) >= 0,
                abs(b) >= 2,
        ;
    } else {
        assert(abs(b) == 1);
        assert(qa == abs(a)) by (nonlinear_arith)
            requires
                qa == abs(a) / abs(b),
                abs(b) == 1,
                abs(a) >= 0,
        ;
    }
}

/// Truncating division in executable code, routed through
/// nonnegative operands so that the machine quotient coincides with
/// the mathematical one.
pub(crate) fn tdiv_exec(a: i64, b: i64) -> (r: i64)
    requires
        b != 0,
        a > i64::MIN,
        b > i64::MIN,
    ensures
        r == tdiv(a as int, b as int),
{
    let an: i64 = if a < 0 {
        -a
    } else {
        a
    };
    let bn: i64 = if b < 0 {
        -b
    } else {
        b
    };
    let q = an / bn;
    proof {
        assert(q <= an) by (nonlinear_arith)
            requires
                q == an as int / bn as int,
                an >= 0,
                bn >= 1,
        ;
    }
    if (a < 0) != (b < 0) {
        -q
    } else {
        q
    }
}

/// Truncating halving in executable code.
pub(crate) fn half_of(a: i64) -> (r: i64)
    requires
        a > i64::MIN,
    ensures
        r == half(a as int),
{
    tdiv_exec(a, 2)
}

/// The product of two machine-word-ranged values is within the exact
/// extreme products of the range.
proof fn lemma_i32_prod_tight(a: int, b: int)
    requires
        -0x8000_0000 <= a <= 0x7fff_ffff,
        -0x8000_0000 <= b <= 0x7fff_ffff,
    ensures
        -0x3fff_ffff_8000_0000 <= a * b <= 0x4000_0000_0000_0000,
{
    assert(-0x3fff_ffff_8000_0000 <= a * b <= 0x4000_0000_0000_0000) by (nonlinear_arith)
        requires
            -0x8000_0000 <= a <= 0x7fff_ffff,
            -0x8000_0000 <= b <= 0x7fff_ffff,
    ;
}

/// The product of two values within symmetric magnitude bounds is
/// within the product of the bounds.
pub(crate) proof fn lemma_mul_abs_bound(a: int, b: int, m: int, n: int)
    requires
        -m <= a <= m,
        -n <= b <= n,
        0 <= m,
        0 <= n,
    ensures
        -(m * n) <= a * b <= m * n,
{
    assert(-(m * n) <= a * b <= m * n) by (nonlinear_arith)
        requires
            -m <= a <= m,
            -n <= b <= n,
            0 <= m,
            0 <= n,
    ;
}

impl Point {
    /// Componentwise vector addition.
    pub fn add(self, rhs: Self) -> (r: Self)
        requires
            i32::MIN <= self.0 + rhs.0 <= i32::MAX,
            i32::MIN <= self.1 + rhs.1 <= i32::MAX,
        ensures
            r.0 == self.0 + rhs.0,
            r.1 == self.1 + rhs.1,
    {
        Point(self.0 + rhs.0, self.1 + rhs.1)
    }

    /// Componentwise vector subtraction.
    pub fn sub(self, rhs: Self) -> (r: Self)
        requires
            i32::MIN <= self.0 - rhs.0 <= i32::MAX,
            i32::MIN <= self.1 - rhs.1 <= i32::MAX,
        ensures
            r.0 == self.0 - rhs.0,
            r.1 == self.1 - rhs.1,
    {
        Point(self.0 - rhs.0, self.1 - rhs.1)
    }

    /// Scalar multiplication.
    pub fn mul(self, rhs: i32) -> (r: Self)
        requires
            i32::MIN <= self.0 * rhs <= i32::MAX,
            i32::MIN <= self.1 * rhs <= i32::MAX,
        ensures
            r.0 == self.0 * rhs,
            r.1 == self.1 * rhs,
    {
        Point(self.0 * rhs, self.1 * rhs)
    }

    /// Scalar division, truncating toward zero.
    pub fn div(self, rhs: i32) -> (r: Self)
        requires
            rhs != 0,
            !(self.0 == i32::MIN && rhs == -1),
            !(self.1 == i32::MIN && rhs == -1),
        ensures
            r.0 == tdiv(self.0 as int, rhs as int),
            r.1 == tdiv(self.1 as int, rhs as int),
    {
        let x = tdiv_exec(self.0 as i64, rhs as i64);
        let y = tdiv_exec(self.1 as i64, rhs as i64);
        proof {
            lemma_tdiv_i32_range(self.0 as int, rhs as int);
            lemma_tdiv_i32_range(self.1 as int, rhs as int);
        }
        Point(x as i32, y as i32)
    }

    /// The cross product of two vectors, widened so that it is exact
    /// for every input.
    pub fn cross(self, rhs: Self) -> (r: i64)
        ensures
            r == self.0 as int * rhs.1 as int - self.1 as int * rhs.0 as int,
    {
        proof {
            lemma_i32_prod_tight(self.0 as int, rhs.1 as int);
            lemma_i32_prod_tight(self.1 as int, rhs.0 as int);
        }
        let p1: i128 = self.0 as i128 * rhs.1 as i128;
        let p2: i128 = self.1 as i128 * rhs.0 as i128;
        (p1 - p2) as i64
    }
}

/// The partial order on points used for bounding-box containment:
/// two points are ordered only if both coordinates compare the same
/// way; otherwise they are incomparable.
pub open spec fn point_cmp_spec(a: Point, b: Point) -> Option<core::cmp::Ordering> {
    if b.0 > a.0 && b.1 > a.1 {
        Some(core::cmp::Ordering::Less)
    } else if b.0 < a.0 && b.1 < a.1 {
        Some(core::cmp::Ordering::Greater)
    } else if b.0 == a.0 && b.1 == a.1 {
        Some(core::cmp::Ordering::Equal)
    } else {
        None
    }
}

impl PartialOrd for Point {
    fn partial_cmp(&self, other: &Self) -> (r: Option<core::cmp::Ordering>) {
        if other.0 > self.0 && other.1 > self.1 {
            Some(core::cmp::Ordering::Less)
        } else if other.0 < self.0 && other.1 < self.1 {
            Some(core::cmp::Ordering::Greater)
        } else if other.0 == self.0 && other.1 == self.1 {
            Some(core::cmp::Ordering::Equal)
        } else {
            None
        }
    }
}

impl vstd::std_specs::cmp::PartialOrdSpecImpl for Point {
    open spec fn obeys_partial_cmp_spec() -> bool {
        true
    }

    open spec fn partial_cmp_spec(&self, other: &Self) -> Option<core::cmp::Ordering> {
        point_cmp_spec(*self, *other)
    }
}

/// A rectangle shape, given by its width and height.
#[derive(Debug, Clone, Copy, PartialEq, Eq, Structural)]
pub struct Rect {
    /// The width of the rectangle, in engine units.
    pub w: i32,
    /// The height of the rectangle, in engine units.
    pub h: i32,
}

/// A circle shape, given by its radius.
#[derive(Debug, Clone, Copy, PartialEq, Eq, Structural)]
pub struct Circle {
    /// The radius of the circle, in engine units.
    pub r: i32,
}

/// A triangle shape: an axis-aligned base of width `w`, a tip `h`
/// above the base's midline, offset horizontally by `o`.
#[derive(Debug, Clone, Copy, PartialEq, Eq, Structural)]
pub struct Triangle {
    /// The width of the base, in engine units.
    pub w: i32,
    /// The height from base to tip, in engine units.
    pub h: i32,
    /// The horizontal offset of the tip, in engine units.
    pub o: i32,
}

/// Creates a [`Rect`].
pub fn rect(w: i32, h: i32) -> (r: Rect)
    ensures
        r == (Rect { w, h }),
{
    Rect { w, h }
}

/// Creates a [`Circle`].
pub fn circle(r: i32) -> (c: Circle)
    ensures
        c == (Circle { r }),
{
    Circle { r }
}

/// Creates a [`Triangle`].
pub fn triangle(w: i32, h: i32, o: i32) -> (t: Triangle)
    ensures
        t == (Triangle { w, h, o }),
{
    Triangle { w, h, o }
}

/// Whether the triangle `a b c` makes a strictly positive turn: the
/// cross product of `b - a` and `c - a` is positive.
pub open spec fn orientation_spec(a: Point, b: Point, c: Point) -> bool {
    (b.0 - a.0) * (c.1 - a.1) - (b.1 - a.1) * (c.0 - a.0) > 0
}

/// Positive-turn test for three points, exact for every input.
fn orientation(a: Point, b: Point, c: Point) -> (r: bool)
    ensures
        r == orientation_spec(a, b, c),
{
    let abx = b.0 as i128 - a.0 as i128;
    let aby = b.1 as i128 - a.1 as i128;
    let acx = c.0 as i128 - a.0 as i128;
    let acy = c.1 as i128 - a.1 as i128;
    proof {
        lemma_mul_abs_bound(abx as int, acy as int, 0x1_0000_0000, 0x1_0000_0000);
        lemma_mul_abs_bound(aby as int, acx as int, 0x1_0000_0000, 0x1_0000_0000);
    }
    abx * acy - aby * acx > 0
}

/// The three corner positions of a triangle drawn at `pos`: the base
/// corners sit half the width left and right of `pos` and half the
/// height below it, the tip half the height above it, offset by `o`.
pub open spec fn triangle_corners_spec(pos: Point, w: int, h: int, o: int) -> (
    (int, int),
    (int, int),
    (int, int),
) {
    (
        (pos.0 - half(w), pos.1 - half(h)),
        (pos.0 + half(w), pos.1 - half(h)),
        (pos.0 + o, pos.1 + half(h)),
    )
}

/// Computes a drawn triangle's corners in widened arithmetic.
fn triangle_points(pos: Point, w: i32, h: i32, o: i32) -> (r: ((i64, i64), (i64, i64), (i64, i64)))
    ensures
        ((r.0.0 as int, r.0.1 as int), (r.1.0 as int, r.1.1 as int), (r.2.0 as int, r.2.1 as int))
            == triangle_corners_spec(pos, w as int, h as int, o as int),
{
    let hw = half_of(w as i64);
    let hh = half_of(h as i64);
    (
        (pos.0 as i64 - hw, pos.1 as i64 - hh),
        (pos.0 as i64 + hw, pos.1 as i64 - hh),
        (pos.0 as i64 + o as i64, pos.1 as i64 + hh),
    )
}

/// Point-inclusion for shapes.
///
/// `contains_spec` is each shape's exact mathematical inclusion
/// condition; `contains_corrected` decides it. Rotation correction
/// (pivoting the query point by the sprite's angle) is trigonometric
/// and is applied by the device-facing caller before this test.
pub trait Contains {
    /// The exact inclusion condition decided by `contains_corrected`.
    spec fn contains_spec(&self, pos: Point, point: Point) -> bool;

    /// Whether `point` lies in this shape drawn at `pos`.
    fn contains_corrected(&self, pos: Point, point: Point) -> (r: bool)
        ensures
            r == self.contains_spec(pos, point),
    ;
}

impl Contains for Circle {
    /// Inside the circle: positive radius and the distance from `pos`
    /// to `point` strictly less than the radius (compared squared, so
    /// the test is exact).
    open spec fn contains_spec(&self, pos: Point, point: Point) -> bool {
        let dx = pos.0 - point.0;
        let dy = pos.1 - point.1;
        self.r > 0 && dx * dx + dy * dy < self.r * self.r
    }

    fn contains_corrected(&self, pos: Point, point: Point) -> (r: bool)
        ensures
            r == self.contains_spec(pos, point),
    {
        let dx = pos.0 as i128 - point.0 as i128;
        let dy = pos.1 as i128 - point.1 as i128;
        proof {
            lemma_mul_abs_bound(dx as int, dx as int, 0x1_0000_0000, 0x1_0000_0000);
            lemma_mul_abs_bound(dy as int, dy as int, 0x1_0000_0000, 0x1_0000_0000);
            lemma_mul_abs_bound(self.r as int, self.r as int, 0x8000_0000, 0x8000_0000);
        }
        self.r > 0 && dx * dx + dy * dy < self.r as i128 * self.r as i128
    }
}

impl Contains for Rect {
    /// Inside the rectangle: within the closed box spanning half the
    /// width and half the height around `pos`.
    open spec fn contains_spec(&self, pos: Point, point: Point) -> bool {
        let min_x = pos.0 - half(self.w as int);
        let min_y = pos.1 - half(self.h as int);
        let max_x = pos.0 + half(self.w as int);
        let max_y = pos.1 + half(self.h as int);
        min_x <= point.0 && point.0 <= max_x && min_y <= point.1 && point.1 <= max_y
    }

    fn contains_corrected(&self, pos: Point, point: Point) -> (r: bool)
        ensures
            r == self.contains_spec(pos, point),
    {
        let hw = half_of(self.w as i64);
        let hh = half_of(self.h as i64);
        let min_x = pos.0 as i64 - hw;
        let min_y = pos.1 as i64 - hh;
        let max_x = pos.0 as i64 + hw;
        let max_y = pos.1 as i64 + hh;
        min_x <= point.0 as i64 && point.0 as i64 <= max_x && min_y <= point.1 as i64
            && point.1 as i64 <= max_y
    }
}

impl Contains for Triangle {
    /// Inside the triangle: the point makes a positive turn with each
    /// directed edge of the triangle's three drawn corners.
    open spec fn contains_spec(&self, pos: Point, point: Point) -> bool {
        let c = triangle_corners_spec(pos, self.w as int, self.h as int, self.o as int);
        let a = c.0;
        let b = c.1;
        let t = c.2;
        (b.0 - a.0) * (point.1 - a.1) - (b.1 - a.1) * (point.0 - a.0) > 0
            && (t.0 - b.0) * (point.1 - b.1) - (t.1 - b.1) * (point.0 - b.0) > 0
            && (a.0 - t.0) * (point.1 - t.1) - (a.1 - t.1) * (point.0 - t.0) > 0
    }

    fn contains_corrected(&self, pos: Point, point: Point) -> (r: bool)
        ensures
            r == self.contains_spec(pos, point),
    {
        let me = triangle_points(pos, self.w, self.h, self.o);
        let px = point.0 as i128;
        let py = point.1 as i128;
        let (ax, ay) = (me.0.0 as i128, me.0.1 as i128);
        let (bx, by) = (me.1.0 as i128, me.1.1 as i128);
        let (tx, ty) = (me.2.0 as i128, me.2.1 as i128);
        proof {
            let m = 0x8_0000_0000int;
            lemma_mul_abs_bound(bx - ax, py - ay, m, m);
            lemma_mul_abs_bound(by - ay, px - ax, m, m);
            lemma_mul_abs_bound(tx - bx, py - by, m, m);
            lemma_mul_abs_bound(ty - by, px - bx, m, m);
            lemma_mul_abs_bound(ax - tx, py - ty, m, m);
            lemma_mul_abs_bound(ay - ty, px - tx, m, m);
        }
        ((bx - ax) * (py - ay) - (by - ay) * (px - ax) > 0) && ((tx - bx) * (py - by) - (ty - by)
            * (px - bx) > 0) && ((ax - tx) * (py - ty) - (ay - ty) * (px - tx) > 0)
    }
}

impl Contains for crate::sprite::Texture {
    /// Inside the texture's drawn rectangle: strictly within the box
    /// spanning half the drawn width and half the drawn height
    /// around `pos`, on both coordinates at once. Unlike [`Rect`]'s
    /// inclusive box, the boundary itself is outside.
    open spec fn contains_spec(&self, pos: Point, point: Point) -> bool {
        let min_x = pos.0 - half(self.w as int);
        let min_y = pos.1 - half(self.h as int);
        let max_x = pos.0 + half(self.w as int);
        let max_y = pos.1 + half(self.h as int);
        min_x < point.0 && point.0 < max_x && min_y < point.1 && point.1 < max_y
    }

    fn contains_corrected(&self, pos: Point, point: Point) -> (r: bool)
        ensures
            r == self.contains_spec(pos, point),
    {
        let hw = half_of(self.w as i64);
        let hh = half_of(self.h as i64);
        let min_x = pos.0 as i64 - hw;
        let min_y = pos.1 as i64 - hh;
        let max_x = pos.0 as i64 + hw;
        let max_y = pos.1 as i64 + hh;
        min_x < point.0 as i64 && (point.0 as i64) < max_x && min_y < point.1 as i64 && (point.1
            as i64) < max_y
    }
}

} // verus!
