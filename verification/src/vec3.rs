//! Points and directions in 3-d space, in fixed-point coordinates, with the
//! exact integer model (`V3`) that the contracts speak of.

use crate::math::{
    div_t, div_trunc, isqrt, lemma_div_t_scaled_bound, lemma_mul_bound, lemma_sqrt_floor_props,
    MAX_COORD, SCALE,
};
use vstd::prelude::*;

verus! {

/// Mathematical view of a point or vector: unbounded integer coordinates,
/// in millionths of a scene unit.
pub ghost struct V3 {
    pub x: int,
    pub y: int,
    pub z: int,
}

/// A point or direction, each coordinate an `i64` in millionths of a scene
/// unit.
#[derive(Clone, Copy, Debug, PartialEq, Eq, Structural)]
pub struct Vec3 {
    pub x: i64,
    pub y: i64,
    pub z: i64,
}

pub open spec fn v3_zero() -> V3 {
    V3 { x: 0, y: 0, z: 0 }
}

pub open spec fn v3_add(a: V3, b: V3) -> V3 {
    V3 { x: a.x + b.x, y: a.y + b.y, z: a.z + b.z }
}

pub open spec fn v3_sub(a: V3, b: V3) -> V3 {
    V3 { x: a.x - b.x, y: a.y - b.y, z: a.z - b.z }
}

/// Componentwise halving, rounding toward zero (the shaft midpoint).
pub open spec fn v3_half(a: V3) -> V3 {
    V3 { x: div_t(a.x, 2), y: div_t(a.y, 2), z: div_t(a.z, 2) }
}

/// Squared Euclidean length, in squared millionths.
pub open spec fn v3_len2(a: V3) -> int {
    a.x * a.x + a.y * a.y + a.z * a.z
}

/// Euclidean length rounded down, again in millionths of a scene unit.
pub open spec fn v3_len(a: V3) -> int {
    crate::math::sqrt_floor(v3_len2(a))
}

/// The unit direction of a non-zero vector: each coordinate rescaled so
/// that a coordinate equal to the length becomes one scene unit.
pub open spec fn v3_normalize(a: V3) -> V3 {
    let l = v3_len(a);
    V3 {
        x: div_t(a.x * SCALE as int, l),
        y: div_t(a.y * SCALE as int, l),
        z: div_t(a.z * SCALE as int, l),
    }
}

/// Every coordinate within `m` in magnitude.
pub open spec fn v3_in_range(a: V3, m: int) -> bool {
    &&& -m <= a.x <= m
    &&& -m <= a.y <= m
    &&& -m <= a.z <= m
}

/// The machine value a bounded model vector rounds into.
pub open spec fn v3_to_vec3(a: V3) -> Vec3 {
    Vec3 { x: a.x as i64, y: a.y as i64, z: a.z as i64 }
}

impl View for Vec3 {
    type V = V3;

    open spec fn view(&self) -> V3 {
        V3 { x: self.x as int, y: self.y as int, z: self.z as int }
    }
}

impl Vec3 {
    pub fn new(x: i64, y: i64, z: i64) -> (r: Vec3)
        ensures
            r@ == (V3 { x: x as int, y: y as int, z: z as int }),
    {
        Vec3 { x, y, z }
    }

    pub fn zero() -> (r: Vec3)
        ensures
            r@ == v3_zero(),
    {
        Vec3 { x: 0, y: 0, z: 0 }
    }

    pub fn is_zero(&self) -> (r: bool)
        ensures
            r == (self@ == v3_zero()),
    {
        let r = self.x == 0 && self.y == 0 && self.z == 0;
        if r {
            assert(self@ == v3_zero());
        } else {
            assert(self@ != v3_zero());
        }
        r
    }

    pub fn plus(&self, o: &Vec3) -> (r: Vec3)
        requires
            v3_in_range(self@, 20_000_000_000),
            v3_in_range(o@, 20_000_000_000),
        ensures
            r@ == v3_add(self@, o@),
    {
        Vec3 { x: self.x + o.x, y: self.y + o.y, z: self.z + o.z }
    }

    pub fn minus(&self, o: &Vec3) -> (r: Vec3)
        requires
            v3_in_range(self@, MAX_COORD as int),
            v3_in_range(o@, MAX_COORD as int),
        ensures
            r@ == v3_sub(self@, o@),
            v3_in_range(r@, 2 * MAX_COORD as int),
    {
        Vec3 { x: self.x - o.x, y: self.y - o.y, z: self.z - o.z }
    }

    pub fn half(&self) -> (r: Vec3)
        requires
            v3_in_range(self@, 2 * MAX_COORD as int),
        ensures
            r@ == v3_half(self@),
            v3_in_range(r@, 2 * MAX_COORD as int),
    {
        Vec3 {
            x: div_trunc(self.x, 2),
            y: div_trunc(self.y, 2),
            z: div_trunc(self.z, 2),
        }
    }

    /// Euclidean length, rounded down to a whole number of millionths.
    pub fn length(&self) -> (r: i64)
        requires
            v3_in_range(self@, 2 * MAX_COORD as int),
        ensures
            r == v3_len(self@),
            0 <= r < 2_147_483_648,
            self@ == v3_zero() <==> r == 0,
    {
        proof {
            lemma_mul_bound(self@.x, self@.x, 1_000_000_000, 1_000_000_000);
            lemma_mul_bound(self@.y, self@.y, 1_000_000_000, 1_000_000_000);
            lemma_mul_bound(self@.z, self@.z, 1_000_000_000, 1_000_000_000);
            lemma_square_nonneg(self@.x);
            lemma_square_nonneg(self@.y);
            lemma_square_nonneg(self@.z);
        }
        let s: i64 = self.x * self.x + self.y * self.y + self.z * self.z;
        let r = isqrt(s as u64);
        proof {
            lemma_sqrt_floor_props(s as int);
            lemma_len2_zero_iff(self@.x, self@.y, self@.z);
        }
        r as i64
    }

    /// The unit direction of `self`, or `None` for the zero vector (the
    /// degenerate arrow). Every coordinate of the result stays within one
    /// scene unit.
    pub fn try_normalize(&self) -> (r: Option<Vec3>)
        requires
            v3_in_range(self@, 2 * MAX_COORD as int),
        ensures
            self@ == v3_zero() ==> r is None,
            self@ != v3_zero() ==> (r matches Some(d) && d@ == v3_normalize(self@)
                && v3_in_range(d@, SCALE as int)),
    {
        if self.is_zero() {
            return None;
        }
        let l = self.length();
        assert(l >= 1);
        proof {
            lemma_sqrt_floor_props(v3_len2(self@));
            lemma_square_nonneg(self@.x);
            lemma_square_nonneg(self@.y);
            lemma_square_nonneg(self@.z);
            lemma_coord_le_len(self@.x, l as int, v3_len2(self@));
            lemma_coord_le_len(self@.y, l as int, v3_len2(self@));
            lemma_coord_le_len(self@.z, l as int, v3_len2(self@));
            lemma_mul_bound(self@.x, SCALE as int, l as int, SCALE as int);
            lemma_mul_bound(self@.y, SCALE as int, l as int, SCALE as int);
            lemma_mul_bound(self@.z, SCALE as int, l as int, SCALE as int);
            lemma_mul_bound(self@.x, SCALE as int, 1_000_000_000, SCALE as int);
            lemma_mul_bound(self@.y, SCALE as int, 1_000_000_000, SCALE as int);
            lemma_mul_bound(self@.z, SCALE as int, 1_000_000_000, SCALE as int);
            lemma_div_t_scaled_bound(self@.x * SCALE as int, l as int, SCALE as int);
            lemma_div_t_scaled_bound(self@.y * SCALE as int, l as int, SCALE as int);
            lemma_div_t_scaled_bound(self@.z * SCALE as int, l as int, SCALE as int);
        }
        let d = Vec3 {
            x: div_trunc(self.x * SCALE, l),
            y: div_trunc(self.y * SCALE, l),
            z: div_trunc(self.z * SCALE, l),
        };
        Some(d)
    }
}

/// A square is never negative.
pub proof fn lemma_square_nonneg(a: int)
    by (nonlinear_arith)
    ensures
        a * a >= 0,
{
}

/// The squared length vanishes exactly on the zero vector.
proof fn lemma_len2_zero_iff(x: int, y: int, z: int)
    by (nonlinear_arith)
    ensures
        (x == 0 && y == 0 && z == 0) ==> x * x + y * y + z * z == 0,
        (x != 0 || y != 0 || z != 0) ==> x * x + y * y + z * z >= 1,
{
}

/// No coordinate exceeds the rounded-down length of the whole vector.
pub proof fn lemma_coord_le_len(c: int, l: int, n: int)
    by (nonlinear_arith)
    requires
        l >= 0,
        c * c <= n,
        n < (l + 1) * (l + 1),
    ensures
        -l <= c <= l,
{
}

} // verus!
