//! Rotations as fixed-point quaternions: composition, rotating a vector,
//! and the shortest arc taking the +Y axis to a given direction.

use crate::math::{
    div_t, div_trunc, isqrt, lemma_div_t_scaled_bound, lemma_mul_bound, lemma_sqrt_floor_props,
    sqrt_floor, SCALE,
};
use crate::vec3::{lemma_coord_le_len, lemma_square_nonneg, v3_in_range, Vec3, V3};
use vstd::prelude::*;

verus! {

/// Mathematical view of a rotation: unbounded integer quaternion
/// components, each one the real component times `SCALE`.
pub ghost struct Q4 {
    pub x: int,
    pub y: int,
    pub z: int,
    pub w: int,
}

/// A rotation, stored as a quaternion whose components are `i64` values in
/// millionths (a unit quaternion keeps each component within `SCALE`).
#[derive(Clone, Copy, Debug, PartialEq, Eq, Structural)]
pub struct Quat {
    pub x: i64,
    pub y: i64,
    pub z: i64,
    pub w: i64,
}

pub open spec fn q4_identity() -> Q4 {
    Q4 { x: 0, y: 0, z: 0, w: SCALE as int }
}

/// Every component within `m` in magnitude.
pub open spec fn q4_in_range(q: Q4, m: int) -> bool {
    &&& -m <= q.x <= m
    &&& -m <= q.y <= m
    &&& -m <= q.z <= m
    &&& -m <= q.w <= m
}

/// Hamilton product, rescaled back into millionths: the rotation that
/// performs `q` first and `p` second.
pub open spec fn q4_mul(p: Q4, q: Q4) -> Q4 {
    Q4 {
        x: div_t(p.w * q.x + p.x * q.w + p.y * q.z - p.z * q.y, SCALE as int),
        y: div_t(p.w * q.y - p.x * q.z + p.y * q.w + p.z * q.x, SCALE as int),
        z: div_t(p.w * q.z + p.x * q.y - p.y * q.x + p.z * q.w, SCALE as int),
        w: div_t(p.w * q.w - p.x * q.x - p.y * q.y - p.z * q.z, SCALE as int),
    }
}

/// The image of `v` under the rotation `q`, by the doubled-cross-product
/// form: `v + w*t + q.xyz x t` where `t = 2 * (q.xyz x v)`.
pub open spec fn q4_rotate(q: Q4, v: V3) -> V3 {
    let cx = q.y * v.z - q.z * v.y;
    let cy = q.z * v.x - q.x * v.z;
    let cz = q.x * v.y - q.y * v.x;
    let tx = div_t(2 * cx, SCALE as int);
    let ty = div_t(2 * cy, SCALE as int);
    let tz = div_t(2 * cz, SCALE as int);
    let dx = q.y * tz - q.z * ty;
    let dy = q.z * tx - q.x * tz;
    let dz = q.x * ty - q.y * tx;
    V3 {
        x: v.x + div_t(q.w * tx, SCALE as int) + div_t(dx, SCALE as int),
        y: v.y + div_t(q.w * ty, SCALE as int) + div_t(dy, SCALE as int),
        z: v.z + div_t(q.w * tz, SCALE as int) + div_t(dz, SCALE as int),
    }
}

/// Shortest-arc rotation taking the +Y axis to the unit direction `d`:
/// the unnormalized arc quaternion is `(cross(Y, d), SCALE + d.y)`, which
/// is then rescaled to unit size. For `d` exactly opposite to +Y that
/// quaternion vanishes, and the half-turn about the Z axis is returned.
pub open spec fn q4_arc_from_y(d: V3) -> Q4 {
    let ax = d.z;
    let az = -d.x;
    let w = SCALE + d.y;
    let n2 = ax * ax + az * az + w * w;
    if n2 == 0 {
        Q4 { x: 0, y: 0, z: SCALE as int, w: 0 }
    } else {
        let m = sqrt_floor(n2);
        Q4 {
            x: div_t(ax * SCALE as int, m),
            y: 0,
            z: div_t(az * SCALE as int, m),
            w: div_t(w * SCALE as int, m),
        }
    }
}

/// The machine value a bounded model quaternion rounds into.
pub open spec fn q4_to_quat(q: Q4) -> Quat {
    Quat { x: q.x as i64, y: q.y as i64, z: q.z as i64, w: q.w as i64 }
}

impl View for Quat {
    type V = Q4;

    open spec fn view(&self) -> Q4 {
        Q4 { x: self.x as int, y: self.y as int, z: self.z as int, w: self.w as int }
    }
}

impl Quat {
    /// The rotation that does nothing.
    pub fn identity() -> (r: Quat)
        ensures
            r@ == q4_identity(),
    {
        Quat { x: 0, y: 0, z: 0, w: SCALE }
    }

    /// Composition: `q` first, then `self`.
    pub fn mul_quat(&self, q: &Quat) -> (r: Quat)
        requires
            q4_in_range(self@, SCALE as int),
            q4_in_range(q@, SCALE as int),
        ensures
            r@ == q4_mul(self@, q@),
            q4_in_range(r@, 4_000_000),
    {
        proof {
            lemma_q4_product_bounds(self@, q@);
        }
        let nx = div_trunc(self.w * q.x + self.x * q.w + self.y * q.z - self.z * q.y, SCALE);
        let ny = div_trunc(self.w * q.y - self.x * q.z + self.y * q.w + self.z * q.x, SCALE);
        let nz = div_trunc(self.w * q.z + self.x * q.y - self.y * q.x + self.z * q.w, SCALE);
        let nw = div_trunc(self.w * q.w - self.x * q.x - self.y * q.y - self.z * q.z, SCALE);
        proof {
            lemma_div_t_scaled_bound(
                self@.w * q@.x + self@.x * q@.w + self@.y * q@.z - self@.z * q@.y,
                1_000_000,
                4_000_000,
            );
            lemma_div_t_scaled_bound(
                self@.w * q@.y - self@.x * q@.z + self@.y * q@.w + self@.z * q@.x,
                1_000_000,
                4_000_000,
            );
            lemma_div_t_scaled_bound(
                self@.w * q@.z + self@.x * q@.y - self@.y * q@.x + self@.z * q@.w,
                1_000_000,
                4_000_000,
            );
            lemma_div_t_scaled_bound(
                self@.w * q@.w - self@.x * q@.x - self@.y * q@.y - self@.z * q@.z,
                1_000_000,
                4_000_000,
            );
        }
        Quat { x: nx, y: ny, z: nz, w: nw }
    }

    /// The image of `v` under this rotation.
    pub fn mul_vec3(&self, v: &Vec3) -> (r: Vec3)
        requires
            q4_in_range(self@, SCALE as int),
            v3_in_range(v@, 1_000_000_000),
        ensures
            r@ == q4_rotate(self@, v@),
            v3_in_range(r@, 13_000_000_000),
    {
        proof {
            lemma_cross_bounds(self@, v@.x, v@.y, v@.z, 1_000_000_000);
        }
        let cx = self.y * v.z - self.z * v.y;
        let cy = self.z * v.x - self.x * v.z;
        let cz = self.x * v.y - self.y * v.x;
        proof {
            lemma_div_t_scaled_bound(2 * (self@.y * v@.z - self@.z * v@.y), 1_000_000, 4_000_000_000);
            lemma_div_t_scaled_bound(2 * (self@.z * v@.x - self@.x * v@.z), 1_000_000, 4_000_000_000);
            lemma_div_t_scaled_bound(2 * (self@.x * v@.y - self@.y * v@.x), 1_000_000, 4_000_000_000);
        }
        let tx = div_trunc(2 * cx, SCALE);
        let ty = div_trunc(2 * cy, SCALE);
        let tz = div_trunc(2 * cz, SCALE);
        proof {
            lemma_mul_bound(self@.w, tx as int, 1_000_000, 4_000_000_000);
            lemma_mul_bound(self@.w, ty as int, 1_000_000, 4_000_000_000);
            lemma_mul_bound(self@.w, tz as int, 1_000_000, 4_000_000_000);
            lemma_cross_bounds(self@, tx as int, ty as int, tz as int, 4_000_000_000);
            lemma_div_t_scaled_bound(self@.w * tx, 1_000_000, 4_000_000_000);
            lemma_div_t_scaled_bound(self@.w * ty, 1_000_000, 4_000_000_000);
            lemma_div_t_scaled_bound(self@.w * tz, 1_000_000, 4_000_000_000);
            lemma_div_t_scaled_bound(self@.y * tz - self@.z * ty, 1_000_000, 8_000_000_000);
            lemma_div_t_scaled_bound(self@.z * tx - self@.x * tz, 1_000_000, 8_000_000_000);
            lemma_div_t_scaled_bound(self@.x * ty - self@.y * tx, 1_000_000, 8_000_000_000);
        }
        let dx = self.y * tz - self.z * ty;
        let dy = self.z * tx - self.x * tz;
        let dz = self.x * ty - self.y * tx;
        let rx = v.x + div_trunc(self.w * tx, SCALE) + div_trunc(dx, SCALE);
        let ry = v.y + div_trunc(self.w * ty, SCALE) + div_trunc(dy, SCALE);
        let rz = v.z + div_trunc(self.w * tz, SCALE) + div_trunc(dz, SCALE);
        Vec3 { x: rx, y: ry, z: rz }
    }

    /// Shortest-arc rotation taking the +Y axis to the unit direction `d`.
    pub fn from_rotation_arc_y(d: &Vec3) -> (r: Quat)
        requires
            v3_in_range(d@, SCALE as int),
        ensures
            r@ == q4_arc_from_y(d@),
            q4_in_range(r@, SCALE as int),
    {
        let ax = d.z;
        let az = -d.x;
        let w = SCALE + d.y;
        proof {
            lemma_mul_bound(ax as int, ax as int, SCALE as int, SCALE as int);
            lemma_mul_bound(az as int, az as int, SCALE as int, SCALE as int);
            lemma_mul_bound(w as int, w as int, 2 * SCALE as int, 2 * SCALE as int);
            lemma_square_nonneg(ax as int);
            lemma_square_nonneg(az as int);
            lemma_square_nonneg(w as int);
        }
        let n2: i64 = ax * ax + az * az + w * w;
        if n2 == 0 {
            Quat { x: 0, y: 0, z: SCALE, w: 0 }
        } else {
            let m = isqrt(n2 as u64);
            proof {
                lemma_sqrt_floor_props(n2 as int);
                lemma_coord_le_len(ax as int, m as int, n2 as int);
                lemma_coord_le_len(az as int, m as int, n2 as int);
                lemma_coord_le_len(w as int, m as int, n2 as int);
                lemma_mul_bound(ax as int, SCALE as int, m as int, SCALE as int);
                lemma_mul_bound(az as int, SCALE as int, m as int, SCALE as int);
                lemma_mul_bound(w as int, SCALE as int, m as int, SCALE as int);
                lemma_mul_bound(ax as int, SCALE as int, 2 * SCALE as int, SCALE as int);
                lemma_mul_bound(az as int, SCALE as int, 2 * SCALE as int, SCALE as int);
                lemma_mul_bound(w as int, SCALE as int, 2 * SCALE as int, SCALE as int);
                lemma_div_t_scaled_bound(ax * SCALE as int, m as int, SCALE as int);
                lemma_div_t_scaled_bound(az * SCALE as int, m as int, SCALE as int);
                lemma_div_t_scaled_bound(w * SCALE as int, m as int, SCALE as int);
            }
            let m64 = m as i64;
            Quat {
                x: div_trunc(ax * SCALE, m64),
                y: 0,
                z: div_trunc(az * SCALE, m64),
                w: div_trunc(w * SCALE, m64),
            }
        }
    }
}

/// Composing with the identity on the left changes nothing.
pub proof fn lemma_q4_mul_identity_left(q: Q4)
    ensures
        q4_mul(q4_identity(), q) == q,
{
    assert(0 * q.x == 0 && 0 * q.y == 0 && 0 * q.z == 0 && 0 * q.w == 0) by (nonlinear_arith);
    crate::math::lemma_div_t_exact(q.x, SCALE as int);
    crate::math::lemma_div_t_exact(q.y, SCALE as int);
    crate::math::lemma_div_t_exact(q.z, SCALE as int);
    crate::math::lemma_div_t_exact(q.w, SCALE as int);
}

/// Rotating by the identity changes nothing.
pub proof fn lemma_q4_rotate_identity(v: V3)
    ensures
        q4_rotate(q4_identity(), v) == v,
{
    assert(0 * v.x == 0 && 0 * v.y == 0 && 0 * v.z == 0) by (nonlinear_arith);
    crate::math::lemma_div_t_exact(0, SCALE as int);
    assert(SCALE as int * 0 == 0) by (nonlinear_arith);
    let tx = div_t(0, SCALE as int);
    assert(tx == 0);
    assert(0 * tx == 0) by (nonlinear_arith);
}

/// All sixteen pairwise products of two unit-bounded quaternions stay
/// within the square of the scale.
proof fn lemma_q4_product_bounds(p: Q4, q: Q4)
    by (nonlinear_arith)
    requires
        q4_in_range(p, 1_000_000),
        q4_in_range(q, 1_000_000),
    ensures
        -1_000_000_000_000 <= p.w * q.x <= 1_000_000_000_000,
        -1_000_000_000_000 <= p.x * q.w <= 1_000_000_000_000,
        -1_000_000_000_000 <= p.y * q.z <= 1_000_000_000_000,
        -1_000_000_000_000 <= p.z * q.y <= 1_000_000_000_000,
        -1_000_000_000_000 <= p.w * q.y <= 1_000_000_000_000,
        -1_000_000_000_000 <= p.x * q.z <= 1_000_000_000_000,
        -1_000_000_000_000 <= p.y * q.w <= 1_000_000_000_000,
        -1_000_000_000_000 <= p.z * q.x <= 1_000_000_000_000,
        -1_000_000_000_000 <= p.w * q.z <= 1_000_000_000_000,
        -1_000_000_000_000 <= p.x * q.y <= 1_000_000_000_000,
        -1_000_000_000_000 <= p.y * q.x <= 1_000_000_000_000,
        -1_000_000_000_000 <= p.z * q.w <= 1_000_000_000_000,
        -1_000_000_000_000 <= p.w * q.w <= 1_000_000_000_000,
        -1_000_000_000_000 <= p.x * q.x <= 1_000_000_000_000,
        -1_000_000_000_000 <= p.y * q.y <= 1_000_000_000_000,
        -1_000_000_000_000 <= p.z * q.z <= 1_000_000_000_000,
{
}

/// The cross product of a unit-bounded quaternion's axis with a bounded
/// vector is bounded by twice the scaled coordinate bound.
proof fn lemma_cross_bounds(q: Q4, vx: int, vy: int, vz: int, m: int)
    requires
        q4_in_range(q, 1_000_000),
        m >= 0,
        -m <= vx <= m,
        -m <= vy <= m,
        -m <= vz <= m,
    ensures
        -(1_000_000 * m) <= q.x * vx <= 1_000_000 * m,
        -(1_000_000 * m) <= q.x * vy <= 1_000_000 * m,
        -(1_000_000 * m) <= q.x * vz <= 1_000_000 * m,
        -(1_000_000 * m) <= q.y * vx <= 1_000_000 * m,
        -(1_000_000 * m) <= q.y * vy <= 1_000_000 * m,
        -(1_000_000 * m) <= q.y * vz <= 1_000_000 * m,
        -(1_000_000 * m) <= q.z * vx <= 1_000_000 * m,
        -(1_000_000 * m) <= q.z * vy <= 1_000_000 * m,
        -(1_000_000 * m) <= q.z * vz <= 1_000_000 * m,
        -(2_000_000 * m) <= q.y * vz - q.z * vy <= 2_000_000 * m,
        -(2_000_000 * m) <= q.z * vx - q.x * vz <= 2_000_000 * m,
        -(2_000_000 * m) <= q.x * vy - q.y * vx <= 2_000_000 * m,
{
    lemma_mul_bound(q.x, vx, 1_000_000, m);
    lemma_mul_bound(q.x, vy, 1_000_000, m);
    lemma_mul_bound(q.x, vz, 1_000_000, m);
    lemma_mul_bound(q.y, vx, 1_000_000, m);
    lemma_mul_bound(q.y, vy, 1_000_000, m);
    lemma_mul_bound(q.y, vz, 1_000_000, m);
    lemma_mul_bound(q.z, vx, 1_000_000, m);
    lemma_mul_bound(q.z, vy, 1_000_000, m);
    lemma_mul_bound(q.z, vz, 1_000_000, m);
}

} // verus!
