//! Lattice points with `i32` coordinates.
//!
//! A [`Point`] is modelled by a [`LatticePoint`], a point of the unbounded
//! lattice of pairs of mathematical integers. Translation and squared
//! distance are defined there, where nothing overflows.
//!
//! The executable operations use wrapping arithmetic: a result that does not
//! fit in an `i32` is reduced modulo 2^32 into the range of `i32`, as
//! [`wrap_i32`] says. No operation panics, and whenever the mathematical
//! result fits in an `i32` it is returned exactly.

use vstd::arithmetic::div_mod::{lemma_add_mod_noop, lemma_mul_mod_noop};
use vstd::prelude::*;

verus! {

/// Whether `n` can be held in an `i32`.
pub open spec fn fits_i32(n: int) -> bool {
    i32::MIN <= n <= i32::MAX
}

/// The one `i32` that differs from `n` by a multiple of 2^32.
pub open spec fn wrap_i32(n: int) -> i32 {
    let r: int = n % 0x1_0000_0000;
    if r > i32::MAX {
        (r - 0x1_0000_0000) as i32
    } else {
        r as i32
    }
}

/// A point of the unbounded integer lattice: what a [`Point`] stands for.
pub struct LatticePoint {
    pub x: int,
    pub y: int,
}

impl LatticePoint {
    /// This point moved by `dx` along the first axis and `dy` along the second.
    pub open spec fn translated(self, dx: int, dy: int) -> LatticePoint {
        LatticePoint { x: self.x + dx, y: self.y + dy }
    }

    /// The square of the Euclidean distance between this point and `other`.
    pub open spec fn distance_squared(self, other: LatticePoint) -> int {
        (self.x - other.x) * (self.x - other.x) + (self.y - other.y) * (self.y - other.y)
    }

    /// Whether both coordinates can be held in an `i32`.
    pub open spec fn fits(self) -> bool {
        fits_i32(self.x) && fits_i32(self.y)
    }

    /// The [`Point`] whose coordinates are those of this point, each wrapped
    /// into the range of `i32`.
    pub open spec fn wrapped(self) -> Point {
        Point { x: wrap_i32(self.x), y: wrap_i32(self.y) }
    }
}

/// A point of the plane with integer coordinates. Every pair of
/// coordinates is a valid point.
#[derive(Debug, Clone, Copy, PartialEq, Eq, Structural)]
pub struct Point {
    pub x: i32,
    pub y: i32,
}

impl View for Point {
    type V = LatticePoint;

    open spec fn view(&self) -> LatticePoint {
        LatticePoint { x: self.x as int, y: self.y as int }
    }
}

impl Point {
    /// The point with the given coordinates.
    pub fn new(x: i32, y: i32) -> (p: Point)
        ensures
            p.x == x,
            p.y == y,
    {
        Point { x, y }
    }

    /// The point that [`Point::translate`] leaves in place of `self`.
    pub open spec fn spec_translate(self, dx: i32, dy: i32) -> Point {
        self@.translated(dx as int, dy as int).wrapped()
    }

    /// Moves the point by `dx` along the first axis and `dy` along the
    /// second. A coordinate that leaves the range of `i32` wraps around.
    pub fn translate(&mut self, dx: i32, dy: i32)
        ensures
            *final(self) == old(self).spec_translate(dx, dy),
            old(self)@.translated(dx as int, dy as int).fits()
                ==> final(self)@ == old(self)@.translated(dx as int, dy as int),
    {
        self.x = self.x.wrapping_add(dx);
        self.y = self.y.wrapping_add(dy);
    }
}

/// The value that [`distance_squared`] returns: the squared distance of the
/// two lattice points, wrapped into the range of `i32`.
pub open spec fn spec_distance_squared(a: &Point, b: &Point) -> i32 {
    wrap_i32(a@.distance_squared(b@))
}

/// The square of the Euclidean distance between `a` and `b`. A value that
/// does not fit in an `i32` wraps around.
#[verifier::when_used_as_spec(spec_distance_squared)]
pub fn distance_squared(a: &Point, b: &Point) -> (d: i32)
    ensures
        d == spec_distance_squared(a, b),
        fits_i32(a@.distance_squared(b@)) ==> d == a@.distance_squared(b@),
{
    let dx: i32 = a.x.wrapping_sub(b.x);
    let dy: i32 = a.y.wrapping_sub(b.y);
    let sx: i32 = dx.wrapping_mul(dx);
    let sy: i32 = dy.wrapping_mul(dy);
    let d: i32 = sx.wrapping_add(sy);
    proof {
        assert(dx == wrap_i32(a.x - b.x));
        assert(dy == wrap_i32(a.y - b.y));
        assert(sx == wrap_i32(dx * dx));
        assert(sy == wrap_i32(dy * dy));
        assert(d == wrap_i32(sx + sy));
        lemma_distance_squared_wraps(a@, b@);
    }
    d
}

/// Symmetry: the squared distance from `p` to `q` is the squared distance
/// from `q` to `p`, in the lattice and as [`distance_squared`] returns it.
pub proof fn lemma_distance_squared_symmetric(p: Point, q: Point)
    ensures
        p@.distance_squared(q@) == q@.distance_squared(p@),
        distance_squared(&p, &q) == distance_squared(&q, &p),
{
    assert((p.x - q.x) * (p.x - q.x) == (q.x - p.x) * (q.x - p.x)) by (nonlinear_arith);
    assert((p.y - q.y) * (p.y - q.y) == (q.y - p.y) * (q.y - p.y)) by (nonlinear_arith);
}

/// Identity: the squared distance from a point to itself is zero, in the
/// lattice and as [`distance_squared`] returns it.
pub proof fn lemma_distance_squared_identity(p: Point)
    ensures
        p@.distance_squared(p@) == 0,
        distance_squared(&p, &p) == 0,
{
}

/// Wrapping the differences, their squares and the sum of the squares one
/// after the other gives the squared distance, wrapped once.
proof fn lemma_distance_squared_wraps(a: LatticePoint, b: LatticePoint)
    ensures
        ({
            let dx: int = wrap_i32(a.x - b.x) as int;
            let dy: int = wrap_i32(a.y - b.y) as int;
            wrap_i32(wrap_i32(dx * dx) + wrap_i32(dy * dy)) == wrap_i32(a.distance_squared(b))
        }),
{
    let dx: int = wrap_i32(a.x - b.x) as int;
    let dy: int = wrap_i32(a.y - b.y) as int;
    lemma_wrap_mul(a.x - b.x, a.x - b.x);
    lemma_wrap_mul(a.y - b.y, a.y - b.y);
    lemma_wrap_add(dx * dx, dy * dy);
    lemma_wrap_add((a.x - b.x) * (a.x - b.x), (a.y - b.y) * (a.y - b.y));
}

/// Wrapping after a sum gives what wrapping the terms first gives.
proof fn lemma_wrap_add(x: int, y: int)
    ensures
        wrap_i32(wrap_i32(x) + wrap_i32(y)) == wrap_i32(x + y),
{
    lemma_add_mod_noop(x, y, 0x1_0000_0000);
    lemma_add_mod_noop(wrap_i32(x) as int, wrap_i32(y) as int, 0x1_0000_0000);
}

/// Wrapping after a product gives what wrapping the factors first gives.
proof fn lemma_wrap_mul(x: int, y: int)
    ensures
        wrap_i32(wrap_i32(x) * wrap_i32(y)) == wrap_i32(x * y),
{
    lemma_mul_mod_noop(x, y, 0x1_0000_0000);
    lemma_mul_mod_noop(wrap_i32(x) as int, wrap_i32(y) as int, 0x1_0000_0000);
}

} // verus!
