//! Fixed-point 2- and 3-component vectors.
use vstd::prelude::*;

use crate::fx::{
    fx_div, fx_mul, fxm, isqrt, lemma_sat64_id, lemma_sqrt_floor, lemma_tdiv_range, sat64,
    sat_add, sat_sub, sqrt_floor, tdiv, FX_ONE,
};

verus! {

/// Bound on each component under which squared norms stay exact.
pub const VEC_LIMIT: i64 = 0x2000_0000;

/// A 2D fixed-point vector (texture coordinates).
#[derive(Clone, Copy, PartialEq, Eq, Structural, Debug)]
pub struct Vec2 {
    pub x: i64,
    pub y: i64,
}

impl Vec2 {
    pub fn new(x: i64, y: i64) -> (r: Vec2)
        ensures
            r.x == x,
            r.y == y,
    {
        Vec2 { x, y }
    }
}

/// A 3D fixed-point vector.
#[derive(Clone, Copy, PartialEq, Eq, Structural, Debug)]
pub struct Vec3 {
    pub x: i64,
    pub y: i64,
    pub z: i64,
}

/// Meaning of each component of a cross product.
pub open spec fn cross_x(a: Vec3, b: Vec3) -> int {
    sat64(fxm(a.y as int, b.z as int) - fxm(a.z as int, b.y as int))
}

pub open spec fn cross_y(a: Vec3, b: Vec3) -> int {
    sat64(fxm(a.z as int, b.x as int) - fxm(a.x as int, b.z as int))
}

pub open spec fn cross_z(a: Vec3, b: Vec3) -> int {
    sat64(fxm(a.x as int, b.y as int) - fxm(a.y as int, b.x as int))
}

/// Meaning of a dot product (left-to-right saturating sums).
pub open spec fn dot_spec(a: Vec3, b: Vec3) -> int {
    sat64(
        sat64(fxm(a.x as int, b.x as int) + fxm(a.y as int, b.y as int)) + fxm(
            a.z as int,
            b.z as int,
        ),
    )
}

/// Squared Euclidean norm, in raw (doubly scaled) units.
pub open spec fn norm2_spec(v: Vec3) -> int {
    v.x * v.x + v.y * v.y + v.z * v.z
}

/// Raw norm: the floor square root of the squared norm.
pub open spec fn norm_spec(v: Vec3) -> int {
    sqrt_floor(norm2_spec(v) as nat) as int
}

/// Meaning of one component of `normalize`: the component divided by
/// the raw norm, rescaled to fixed point; the zero vector stays zero.
pub open spec fn normalize_c(c: int, v: Vec3) -> int {
    if norm2_spec(v) == 0 {
        0
    } else {
        tdiv(c * FX_ONE, norm_spec(v))
    }
}

/// Meaning of `Vec3::sub`, as a vector.
pub open spec fn vsub(a: Vec3, b: Vec3) -> Vec3 {
    Vec3 { x: sat64(a.x - b.x) as i64, y: sat64(a.y - b.y) as i64, z: sat64(a.z - b.z) as i64 }
}

/// Meaning of `Vec3::add`, as a vector.
pub open spec fn vadd(a: Vec3, b: Vec3) -> Vec3 {
    Vec3 { x: sat64(a.x + b.x) as i64, y: sat64(a.y + b.y) as i64, z: sat64(a.z + b.z) as i64 }
}

/// Meaning of `Vec3::cross`, as a vector.
pub open spec fn vcross(a: Vec3, b: Vec3) -> Vec3 {
    Vec3 { x: cross_x(a, b) as i64, y: cross_y(a, b) as i64, z: cross_z(a, b) as i64 }
}

/// Meaning of `Vec3::scale`, as a vector.
pub open spec fn vscale(a: Vec3, k: int) -> Vec3 {
    Vec3 {
        x: fxm(a.x as int, k) as i64,
        y: fxm(a.y as int, k) as i64,
        z: fxm(a.z as int, k) as i64,
    }
}

/// Meaning of `Vec3::normalize`, as a vector.
pub open spec fn vnormalize(v: Vec3) -> Vec3 {
    Vec3 {
        x: normalize_c(v.x as int, v) as i64,
        y: normalize_c(v.y as int, v) as i64,
        z: normalize_c(v.z as int, v) as i64,
    }
}

/// Meaning of one clamped component.
pub open spec fn clampv_c(c: int) -> int {
    if c < -VEC_LIMIT {
        -VEC_LIMIT as int
    } else if c > VEC_LIMIT {
        VEC_LIMIT as int
    } else {
        c
    }
}

/// Componentwise clamp into the range `normalize` accepts.
pub open spec fn vclamp(v: Vec3) -> Vec3 {
    Vec3 { x: clampv_c(v.x as int) as i64, y: clampv_c(v.y as int) as i64, z: clampv_c(
        v.z as int,
    ) as i64 }
}

/// A unit direction: the vector clamped into range, then normalized.
pub open spec fn vdir(v: Vec3) -> Vec3 {
    vnormalize(vclamp(v))
}

/// Whether every component is within `VEC_LIMIT`.
pub open spec fn vec_in_range(v: Vec3) -> bool {
    -VEC_LIMIT <= v.x <= VEC_LIMIT && -VEC_LIMIT <= v.y <= VEC_LIMIT && -VEC_LIMIT <= v.z
        <= VEC_LIMIT
}

impl Vec3 {
    pub fn new(x: i64, y: i64, z: i64) -> (r: Vec3)
        ensures
            r.x == x,
            r.y == y,
            r.z == z,
    {
        Vec3 { x, y, z }
    }

    /// Componentwise sum, saturating.
    pub fn add(self, other: Vec3) -> (r: Vec3)
        ensures
            r == vadd(self, other),
            r.x == sat64(self.x + other.x),
            r.y == sat64(self.y + other.y),
            r.z == sat64(self.z + other.z),
    {
        Vec3 { x: sat_add(self.x, other.x), y: sat_add(self.y, other.y), z: sat_add(self.z, other.z) }
    }

    /// Componentwise difference, saturating.
    pub fn sub(self, other: Vec3) -> (r: Vec3)
        ensures
            r == vsub(self, other),
            r.x == sat64(self.x - other.x),
            r.y == sat64(self.y - other.y),
            r.z == sat64(self.z - other.z),
    {
        Vec3 { x: sat_sub(self.x, other.x), y: sat_sub(self.y, other.y), z: sat_sub(self.z, other.z) }
    }

    /// Componentwise scaling by a fixed-point factor.
    pub fn scale(self, k: i64) -> (r: Vec3)
        ensures
            r == vscale(self, k as int),
            r.x == fxm(self.x as int, k as int),
            r.y == fxm(self.y as int, k as int),
            r.z == fxm(self.z as int, k as int),
    {
        Vec3 { x: fx_mul(self.x, k), y: fx_mul(self.y, k), z: fx_mul(self.z, k) }
    }

    /// Fixed-point cross product.
    pub fn cross(self, other: Vec3) -> (r: Vec3)
        ensures
            r == vcross(self, other),
            r.x == cross_x(self, other),
            r.y == cross_y(self, other),
            r.z == cross_z(self, other),
    {
        Vec3 {
            x: sat_sub(fx_mul(self.y, other.z), fx_mul(self.z, other.y)),
            y: sat_sub(fx_mul(self.z, other.x), fx_mul(self.x, other.z)),
            z: sat_sub(fx_mul(self.x, other.y), fx_mul(self.y, other.x)),
        }
    }

    /// Fixed-point dot product.
    pub fn dot(self, other: Vec3) -> (r: i64)
        ensures
            r == dot_spec(self, other),
    {
        sat_add(sat_add(fx_mul(self.x, other.x), fx_mul(self.y, other.y)), fx_mul(self.z, other.z))
    }

    /// Clamp each component into the range `normalize` accepts.
    pub fn clamp_vec(self) -> (r: Vec3)
        ensures
            r == vclamp(self),
            vec_in_range(r),
    {
        let cx: i64 = if self.x < -VEC_LIMIT {
            -VEC_LIMIT
        } else if self.x > VEC_LIMIT {
            VEC_LIMIT
        } else {
            self.x
        };
        let cy: i64 = if self.y < -VEC_LIMIT {
            -VEC_LIMIT
        } else if self.y > VEC_LIMIT {
            VEC_LIMIT
        } else {
            self.y
        };
        let cz: i64 = if self.z < -VEC_LIMIT {
            -VEC_LIMIT
        } else if self.z > VEC_LIMIT {
            VEC_LIMIT
        } else {
            self.z
        };
        Vec3 { x: cx, y: cy, z: cz }
    }

    /// The unit direction of a vector of any magnitude: clamp into
    /// range, then normalize.
    pub fn dir(self) -> (r: Vec3)
        ensures
            r == vdir(self),
            -FX_ONE <= r.x <= FX_ONE,
            -FX_ONE <= r.y <= FX_ONE,
            -FX_ONE <= r.z <= FX_ONE,
    {
        self.clamp_vec().normalize()
    }

    /// Scale the vector to unit length (by the floor-square-root norm);
    /// the zero vector is returned unchanged.
    pub fn normalize(self) -> (r: Vec3)
        requires
            vec_in_range(self),
        ensures
            r == vnormalize(self),
            r.x == normalize_c(self.x as int, self),
            r.y == normalize_c(self.y as int, self),
            r.z == normalize_c(self.z as int, self),
            -FX_ONE <= r.x <= FX_ONE,
            -FX_ONE <= r.y <= FX_ONE,
            -FX_ONE <= r.z <= FX_ONE,
    {
        proof {
            assert(0 <= self.x * self.x <= 0x1000_0000_0000_0000) by (nonlinear_arith)
                requires
                    -0x2000_0000 <= self.x <= 0x2000_0000,
            ;
            assert(0 <= self.y * self.y <= 0x1000_0000_0000_0000) by (nonlinear_arith)
                requires
                    -0x2000_0000 <= self.y <= 0x2000_0000,
            ;
            assert(0 <= self.z * self.z <= 0x1000_0000_0000_0000) by (nonlinear_arith)
                requires
                    -0x2000_0000 <= self.z <= 0x2000_0000,
            ;
        }
        let xx: i64 = self.x * self.x;
        let yy: i64 = self.y * self.y;
        let zz: i64 = self.z * self.z;
        let m2: i64 = xx + yy + zz;
        if m2 == 0 {
            Vec3 { x: 0, y: 0, z: 0 }
        } else {
            let n64: u64 = isqrt(m2 as u64);
            let n: i64 = n64 as i64;
            proof {
                if n64 == 0 {
                    assert((n64 + 1) * (n64 + 1) == 1) by (nonlinear_arith)
                        requires
                            n64 == 0nat,
                    ;
                    assert(false);
                }
                lemma_component_le_norm(self.x as int, m2 as int, n as int);
                lemma_component_le_norm(self.y as int, m2 as int, n as int);
                lemma_component_le_norm(self.z as int, m2 as int, n as int);
                lemma_norm_div_unit(self.x as int, n as int);
                lemma_norm_div_unit(self.y as int, n as int);
                lemma_norm_div_unit(self.z as int, n as int);
            }
            Vec3 { x: fx_div(self.x, n), y: fx_div(self.y, n), z: fx_div(self.z, n) }
        }
    }
}

/// A normalized in-range vector has unit-interval components.
pub proof fn lemma_vnormalize_unit(v: Vec3)
    requires
        vec_in_range(v),
    ensures
        -FX_ONE <= vnormalize(v).x <= FX_ONE,
        -FX_ONE <= vnormalize(v).y <= FX_ONE,
        -FX_ONE <= vnormalize(v).z <= FX_ONE,
{
    if norm2_spec(v) != 0 {
        assert(0 <= v.x * v.x && 0 <= v.y * v.y && 0 <= v.z * v.z) by (nonlinear_arith);
        let m2 = norm2_spec(v);
        let n = sqrt_floor(m2 as nat);
        lemma_sqrt_floor(m2 as nat);
        if n == 0 {
            assert((n + 1) * (n + 1) == 1) by (nonlinear_arith)
                requires
                    n == 0nat,
            ;
            assert(false);
        }
        lemma_component_le_norm(v.x as int, m2, n as int);
        lemma_component_le_norm(v.y as int, m2, n as int);
        lemma_component_le_norm(v.z as int, m2, n as int);
        lemma_norm_div_unit(v.x as int, n as int);
        lemma_norm_div_unit(v.y as int, n as int);
        lemma_norm_div_unit(v.z as int, n as int);
    }
}

/// If `c * c` is at most `m2` and `n` is the floor square root of `m2`,
/// then `|c| <= n`.
proof fn lemma_component_le_norm(c: int, m2: int, n: int)
    requires
        n >= 0,
        c * c <= m2,
        m2 < (n + 1) * (n + 1),
    ensures
        -n <= c <= n,
{
    assert(-n <= c <= n) by (nonlinear_arith)
        requires
            n >= 0,
            c * c <= m2,
            m2 < (n + 1) * (n + 1),
    ;
}

/// Dividing a component bounded by the norm yields a unit-range value.
proof fn lemma_norm_div_unit(c: int, n: int)
    requires
        n >= 1,
        -n <= c <= n,
    ensures
        -FX_ONE <= tdiv(c * FX_ONE, n) <= FX_ONE,
        sat64(tdiv(c * FX_ONE, n)) == tdiv(c * FX_ONE, n),
{
    assert(-(FX_ONE * n) <= c * FX_ONE <= FX_ONE * n) by (nonlinear_arith)
        requires
            n >= 1,
            -n <= c <= n,
    ;
    lemma_tdiv_range(c * FX_ONE, n, FX_ONE as int);
    lemma_sat64_id(tdiv(c * FX_ONE, n));
}

} // verus!
