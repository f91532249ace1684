//! 4x4 fixed-point matrices and the transform builders: model,
//! look-at, orthographic and perspective projection, and the rigid
//! inverse that turns a camera-to-world basis into a view matrix.
use vstd::prelude::*;

use crate::fx::{
    fx_div, fx_mul, fxd, fxm, lemma_fxm_bound, lemma_fxm_one, lemma_fxm_zero, mag, mul_div_sat,
    sat64, sat_add, sat_sub, tdiv, FX_ONE,
};
use crate::vec::{vcross, vnormalize, vsub, Vec3};

verus! {

/// A 4x4 fixed-point matrix, row major: `mIJ` is row `I`, column `J`.
#[derive(Clone, Copy, PartialEq, Eq, Structural, Debug)]
pub struct Mat4 {
    pub m00: i64,
    pub m01: i64,
    pub m02: i64,
    pub m03: i64,
    pub m10: i64,
    pub m11: i64,
    pub m12: i64,
    pub m13: i64,
    pub m20: i64,
    pub m21: i64,
    pub m22: i64,
    pub m23: i64,
    pub m30: i64,
    pub m31: i64,
    pub m32: i64,
    pub m33: i64,
}

/// A homogeneous coordinate before the perspective divide.
#[derive(Clone, Copy, PartialEq, Eq, Structural, Debug)]
pub struct Hom {
    pub x: i64,
    pub y: i64,
    pub z: i64,
    pub w: i64,
}

/// Meaning of a four-term fixed-point dot product, summed left to
/// right with saturation.
pub open spec fn dot4_spec(
    a0: int,
    a1: int,
    a2: int,
    a3: int,
    b0: int,
    b1: int,
    b2: int,
    b3: int,
) -> int {
    sat64(sat64(sat64(fxm(a0, b0) + fxm(a1, b1)) + fxm(a2, b2)) + fxm(a3, b3))
}

/// Four-term fixed-point dot product.
pub fn dot4(a0: i64, a1: i64, a2: i64, a3: i64, b0: i64, b1: i64, b2: i64, b3: i64) -> (r: i64)
    ensures
        r == dot4_spec(
            a0 as int,
            a1 as int,
            a2 as int,
            a3 as int,
            b0 as int,
            b1 as int,
            b2 as int,
            b3 as int,
        ),
{
    sat_add(sat_add(sat_add(fx_mul(a0, b0), fx_mul(a1, b1)), fx_mul(a2, b2)), fx_mul(a3, b3))
}

/// Meaning of applying a matrix to the point `(p, 1)`.
pub open spec fn transform_point_spec(m: Mat4, p: Vec3) -> Hom {
    Hom {
        x: dot4_spec(
            m.m00 as int,
            m.m01 as int,
            m.m02 as int,
            m.m03 as int,
            p.x as int,
            p.y as int,
            p.z as int,
            FX_ONE as int,
        ) as i64,
        y: dot4_spec(
            m.m10 as int,
            m.m11 as int,
            m.m12 as int,
            m.m13 as int,
            p.x as int,
            p.y as int,
            p.z as int,
            FX_ONE as int,
        ) as i64,
        z: dot4_spec(
            m.m20 as int,
            m.m21 as int,
            m.m22 as int,
            m.m23 as int,
            p.x as int,
            p.y as int,
            p.z as int,
            FX_ONE as int,
        ) as i64,
        w: dot4_spec(
            m.m30 as int,
            m.m31 as int,
            m.m32 as int,
            m.m33 as int,
            p.x as int,
            p.y as int,
            p.z as int,
            FX_ONE as int,
        ) as i64,
    }
}

/// Meaning of the homogeneous divide: each component divided by `w`;
/// defined only for `w != 0` (callers branch on that first).
pub open spec fn from_homogeneous_spec(hc: Hom) -> Vec3 {
    Vec3 {
        x: fxd(hc.x as int, hc.w as int) as i64,
        y: fxd(hc.y as int, hc.w as int) as i64,
        z: fxd(hc.z as int, hc.w as int) as i64,
    }
}

impl Mat4 {
    /// The identity transform.
    pub fn identity() -> (r: Mat4)
        ensures
            r == identity_spec(),
    {
        Mat4 {
            m00: FX_ONE,
            m01: 0,
            m02: 0,
            m03: 0,
            m10: 0,
            m11: FX_ONE,
            m12: 0,
            m13: 0,
            m20: 0,
            m21: 0,
            m22: FX_ONE,
            m23: 0,
            m30: 0,
            m31: 0,
            m32: 0,
            m33: FX_ONE,
        }
    }

    /// Apply the matrix to the point `(p, 1)`.
    pub fn transform_point(&self, p: Vec3) -> (r: Hom)
        ensures
            r == transform_point_spec(*self, p),
    {
        Hom {
            x: dot4(self.m00, self.m01, self.m02, self.m03, p.x, p.y, p.z, FX_ONE),
            y: dot4(self.m10, self.m11, self.m12, self.m13, p.x, p.y, p.z, FX_ONE),
            z: dot4(self.m20, self.m21, self.m22, self.m23, p.x, p.y, p.z, FX_ONE),
            w: dot4(self.m30, self.m31, self.m32, self.m33, p.x, p.y, p.z, FX_ONE),
        }
    }

    /// Matrix product `self * other`, entrywise exact.
    pub fn mat_mul(&self, other: &Mat4) -> (r: Mat4)
        ensures
            r == mat_mul_spec(*self, *other),
    {
        Mat4 {
            m00: dot4(self.m00, self.m01, self.m02, self.m03, other.m00, other.m10, other.m20, other.m30),
            m01: dot4(self.m00, self.m01, self.m02, self.m03, other.m01, other.m11, other.m21, other.m31),
            m02: dot4(self.m00, self.m01, self.m02, self.m03, other.m02, other.m12, other.m22, other.m32),
            m03: dot4(self.m00, self.m01, self.m02, self.m03, other.m03, other.m13, other.m23, other.m33),
            m10: dot4(self.m10, self.m11, self.m12, self.m13, other.m00, other.m10, other.m20, other.m30),
            m11: dot4(self.m10, self.m11, self.m12, self.m13, other.m01, other.m11, other.m21, other.m31),
            m12: dot4(self.m10, self.m11, self.m12, self.m13, other.m02, other.m12, other.m22, other.m32),
            m13: dot4(self.m10, self.m11, self.m12, self.m13, other.m03, other.m13, other.m23, other.m33),
            m20: dot4(self.m20, self.m21, self.m22, self.m23, other.m00, other.m10, other.m20, other.m30),
            m21: dot4(self.m20, self.m21, self.m22, self.m23, other.m01, other.m11, other.m21, other.m31),
            m22: dot4(self.m20, self.m21, self.m22, self.m23, other.m02, other.m12, other.m22, other.m32),
            m23: dot4(self.m20, self.m21, self.m22, self.m23, other.m03, other.m13, other.m23, other.m33),
            m30: dot4(self.m30, self.m31, self.m32, self.m33, other.m00, other.m10, other.m20, other.m30),
            m31: dot4(self.m30, self.m31, self.m32, self.m33, other.m01, other.m11, other.m21, other.m31),
            m32: dot4(self.m30, self.m31, self.m32, self.m33, other.m02, other.m12, other.m22, other.m32),
            m33: dot4(self.m30, self.m31, self.m32, self.m33, other.m03, other.m13, other.m23, other.m33),
        }
    }
}

pub open spec fn identity_spec() -> Mat4 {
    Mat4 {
        m00: FX_ONE,
        m01: 0,
        m02: 0,
        m03: 0,
        m10: 0,
        m11: FX_ONE,
        m12: 0,
        m13: 0,
        m20: 0,
        m21: 0,
        m22: FX_ONE,
        m23: 0,
        m30: 0,
        m31: 0,
        m32: 0,
        m33: FX_ONE,
    }
}

/// One entry of the matrix product: row `i` of `a` against column `j`
/// of `b`.
pub open spec fn mm_entry(
    a0: int,
    a1: int,
    a2: int,
    a3: int,
    b0: int,
    b1: int,
    b2: int,
    b3: int,
) -> i64 {
    dot4_spec(a0, a1, a2, a3, b0, b1, b2, b3) as i64
}

/// Meaning of the matrix product.
pub open spec fn mat_mul_spec(a: Mat4, b: Mat4) -> Mat4 {
    Mat4 {
        m00: mm_entry(a.m00 as int, a.m01 as int, a.m02 as int, a.m03 as int, b.m00 as int, b.m10 as int, b.m20 as int, b.m30 as int),
        m01: mm_entry(a.m00 as int, a.m01 as int, a.m02 as int, a.m03 as int, b.m01 as int, b.m11 as int, b.m21 as int, b.m31 as int),
        m02: mm_entry(a.m00 as int, a.m01 as int, a.m02 as int, a.m03 as int, b.m02 as int, b.m12 as int, b.m22 as int, b.m32 as int),
        m03: mm_entry(a.m00 as int, a.m01 as int, a.m02 as int, a.m03 as int, b.m03 as int, b.m13 as int, b.m23 as int, b.m33 as int),
        m10: mm_entry(a.m10 as int, a.m11 as int, a.m12 as int, a.m13 as int, b.m00 as int, b.m10 as int, b.m20 as int, b.m30 as int),
        m11: mm_entry(a.m10 as int, a.m11 as int, a.m12 as int, a.m13 as int, b.m01 as int, b.m11 as int, b.m21 as int, b.m31 as int),
        m12: mm_entry(a.m10 as int, a.m11 as int, a.m12 as int, a.m13 as int, b.m02 as int, b.m12 as int, b.m22 as int, b.m32 as int),
        m13: mm_entry(a.m10 as int, a.m11 as int, a.m12 as int, a.m13 as int, b.m03 as int, b.m13 as int, b.m23 as int, b.m33 as int),
        m20: mm_entry(a.m20 as int, a.m21 as int, a.m22 as int, a.m23 as int, b.m00 as int, b.m10 as int, b.m20 as int, b.m30 as int),
        m21: mm_entry(a.m20 as int, a.m21 as int, a.m22 as int, a.m23 as int, b.m01 as int, b.m11 as int, b.m21 as int, b.m31 as int),
        m22: mm_entry(a.m20 as int, a.m21 as int, a.m22 as int, a.m23 as int, b.m02 as int, b.m12 as int, b.m22 as int, b.m32 as int),
        m23: mm_entry(a.m20 as int, a.m21 as int, a.m22 as int, a.m23 as int, b.m03 as int, b.m13 as int, b.m23 as int, b.m33 as int),
        m30: mm_entry(a.m30 as int, a.m31 as int, a.m32 as int, a.m33 as int, b.m00 as int, b.m10 as int, b.m20 as int, b.m30 as int),
        m31: mm_entry(a.m30 as int, a.m31 as int, a.m32 as int, a.m33 as int, b.m01 as int, b.m11 as int, b.m21 as int, b.m31 as int),
        m32: mm_entry(a.m30 as int, a.m31 as int, a.m32 as int, a.m33 as int, b.m02 as int, b.m12 as int, b.m22 as int, b.m32 as int),
        m33: mm_entry(a.m30 as int, a.m31 as int, a.m32 as int, a.m33 as int, b.m03 as int, b.m13 as int, b.m23 as int, b.m33 as int),
    }
}

/// Convert a homogeneous coordinate to a 3D point by dividing by `w`;
/// a coordinate on the `w = 0` plane has no finite image.
pub fn from_homogeneous(hc: Hom) -> (r: Option<Vec3>)
    ensures
        r is Some <==> hc.w != 0,
        hc.w != 0 ==> r == Some(from_homogeneous_spec(hc)),
{
    if hc.w == 0 {
        None
    } else {
        Some(Vec3 { x: fx_div(hc.x, hc.w), y: fx_div(hc.y, hc.w), z: fx_div(hc.z, hc.w) })
    }
}

/// Meaning of `model_mat`: scale then translate, no rotation.
pub open spec fn model_mat_spec(translate: Vec3, scale: Vec3) -> Mat4 {
    Mat4 {
        m00: scale.x,
        m01: 0,
        m02: 0,
        m03: translate.x,
        m10: 0,
        m11: scale.y,
        m12: 0,
        m13: translate.y,
        m20: 0,
        m21: 0,
        m22: scale.z,
        m23: translate.z,
        m30: 0,
        m31: 0,
        m32: 0,
        m33: FX_ONE,
    }
}

/// The model matrix: pure scale-then-translate.
pub fn model_mat(translate: Vec3, scale: Vec3) -> (r: Mat4)
    ensures
        r == model_mat_spec(translate, scale),
{
    Mat4 {
        m00: scale.x,
        m01: 0,
        m02: 0,
        m03: translate.x,
        m10: 0,
        m11: scale.y,
        m12: 0,
        m13: translate.y,
        m20: 0,
        m21: 0,
        m22: scale.z,
        m23: translate.z,
        m30: 0,
        m31: 0,
        m32: 0,
        m33: FX_ONE,
    }
}

/// Meaning of `look_at`: the camera basis `w = normalize(eye - target)`,
/// `u = normalize(up x w)`, `v = w x u` as columns, with the camera
/// position as the translation column.  This is camera-to-world; the
/// caller inverts it (see `rigid_inverse`) to obtain the view matrix.
pub open spec fn look_at_spec(camera_pos: Vec3, focal_pos: Vec3, up: Vec3) -> Mat4 {
    let wv = vnormalize(vsub(camera_pos, focal_pos));
    let uv = vnormalize(vcross(up, wv));
    let vv = vcross(wv, uv);
    Mat4 {
        m00: uv.x,
        m01: vv.x,
        m02: wv.x,
        m03: camera_pos.x,
        m10: uv.y,
        m11: vv.y,
        m12: wv.y,
        m13: camera_pos.y,
        m20: uv.z,
        m21: vv.z,
        m22: wv.z,
        m23: camera_pos.z,
        m30: 0,
        m31: 0,
        m32: 0,
        m33: FX_ONE,
    }
}

/// Build the camera-to-world basis matrix for a camera at
/// `camera_pos` looking at `focal_pos`.  Callers guarantee the view
/// direction and `up` are nonzero and not parallel; a degenerate
/// input yields zero basis columns rather than a crash.
pub fn look_at(camera_pos: Vec3, focal_pos: Vec3, up: Vec3) -> (r: Mat4)
    requires
        look_at_in_range(camera_pos, focal_pos, up),
    ensures
        r == look_at_spec(camera_pos, focal_pos, up),
        mat_bounded(r),
{
    let wv = camera_pos.sub(focal_pos).normalize();
    let cu = up.cross(wv);
    proof {
        crate::fx::lemma_fxm_unit_bound(up.x as int, wv.y as int, 0x1000_0000);
        crate::fx::lemma_fxm_unit_bound(up.x as int, wv.z as int, 0x1000_0000);
        crate::fx::lemma_fxm_unit_bound(up.y as int, wv.x as int, 0x1000_0000);
        crate::fx::lemma_fxm_unit_bound(up.y as int, wv.z as int, 0x1000_0000);
        crate::fx::lemma_fxm_unit_bound(up.z as int, wv.x as int, 0x1000_0000);
        crate::fx::lemma_fxm_unit_bound(up.z as int, wv.y as int, 0x1000_0000);
    }
    let uv = cu.normalize();
    proof {
        crate::fx::lemma_fxm_unit_bound(wv.x as int, uv.y as int, FX_ONE as int);
        crate::fx::lemma_fxm_unit_bound(wv.x as int, uv.z as int, FX_ONE as int);
        crate::fx::lemma_fxm_unit_bound(wv.y as int, uv.x as int, FX_ONE as int);
        crate::fx::lemma_fxm_unit_bound(wv.y as int, uv.z as int, FX_ONE as int);
        crate::fx::lemma_fxm_unit_bound(wv.z as int, uv.x as int, FX_ONE as int);
        crate::fx::lemma_fxm_unit_bound(wv.z as int, uv.y as int, FX_ONE as int);
    }
    let vv = wv.cross(uv);
    Mat4 {
        m00: uv.x,
        m01: vv.x,
        m02: wv.x,
        m03: camera_pos.x,
        m10: uv.y,
        m11: vv.y,
        m12: wv.y,
        m13: camera_pos.y,
        m20: uv.z,
        m21: vv.z,
        m22: wv.z,
        m23: camera_pos.z,
        m30: 0,
        m31: 0,
        m32: 0,
        m33: FX_ONE,
    }
}

/// Every entry is within `2^30`, far from saturation.
pub open spec fn mat_bounded(m: Mat4) -> bool {
    &&& -0x4000_0000 <= m.m00 <= 0x4000_0000
    &&& -0x4000_0000 <= m.m01 <= 0x4000_0000
    &&& -0x4000_0000 <= m.m02 <= 0x4000_0000
    &&& -0x4000_0000 <= m.m03 <= 0x4000_0000
    &&& -0x4000_0000 <= m.m10 <= 0x4000_0000
    &&& -0x4000_0000 <= m.m11 <= 0x4000_0000
    &&& -0x4000_0000 <= m.m12 <= 0x4000_0000
    &&& -0x4000_0000 <= m.m13 <= 0x4000_0000
    &&& -0x4000_0000 <= m.m20 <= 0x4000_0000
    &&& -0x4000_0000 <= m.m21 <= 0x4000_0000
    &&& -0x4000_0000 <= m.m22 <= 0x4000_0000
    &&& -0x4000_0000 <= m.m23 <= 0x4000_0000
    &&& -0x4000_0000 <= m.m30 <= 0x4000_0000
    &&& -0x4000_0000 <= m.m31 <= 0x4000_0000
    &&& -0x4000_0000 <= m.m32 <= 0x4000_0000
    &&& -0x4000_0000 <= m.m33 <= 0x4000_0000
}

/// The negated three-term dot product used for the inverse's
/// translation column.
pub open spec fn neg_dot3_spec(a0: int, a1: int, a2: int, b0: int, b1: int, b2: int) -> int {
    sat64(0 - sat64(sat64(fxm(a0, b0) + fxm(a1, b1)) + fxm(a2, b2)))
}

/// Meaning of `rigid_inverse`: the transpose of the linear part,
/// with translation `-R^T t` computed by the same operation order the
/// forward transform uses (so the camera position cancels exactly).
pub open spec fn rigid_inverse_spec(m: Mat4) -> Mat4 {
    Mat4 {
        m00: m.m00,
        m01: m.m10,
        m02: m.m20,
        m03: neg_dot3_spec(
            m.m00 as int,
            m.m10 as int,
            m.m20 as int,
            m.m03 as int,
            m.m13 as int,
            m.m23 as int,
        ) as i64,
        m10: m.m01,
        m11: m.m11,
        m12: m.m21,
        m13: neg_dot3_spec(
            m.m01 as int,
            m.m11 as int,
            m.m21 as int,
            m.m03 as int,
            m.m13 as int,
            m.m23 as int,
        ) as i64,
        m20: m.m02,
        m21: m.m12,
        m22: m.m22,
        m23: neg_dot3_spec(
            m.m02 as int,
            m.m12 as int,
            m.m22 as int,
            m.m03 as int,
            m.m13 as int,
            m.m23 as int,
        ) as i64,
        m30: 0,
        m31: 0,
        m32: 0,
        m33: FX_ONE,
    }
}

fn neg_dot3(a0: i64, a1: i64, a2: i64, b0: i64, b1: i64, b2: i64) -> (r: i64)
    ensures
        r == neg_dot3_spec(a0 as int, a1 as int, a2 as int, b0 as int, b1 as int, b2 as int),
{
    sat_sub(0, sat_add(sat_add(fx_mul(a0, b0), fx_mul(a1, b1)), fx_mul(a2, b2)))
}

/// Invert a rigid camera-to-world matrix (orthonormal basis columns
/// plus a translation): the conventional view matrix `[R^T | -R^T t]`.
pub fn rigid_inverse(m: &Mat4) -> (r: Mat4)
    requires
        mat_bounded(*m),
    ensures
        r == rigid_inverse_spec(*m),
{
    Mat4 {
        m00: m.m00,
        m01: m.m10,
        m02: m.m20,
        m03: neg_dot3(m.m00, m.m10, m.m20, m.m03, m.m13, m.m23),
        m10: m.m01,
        m11: m.m11,
        m12: m.m21,
        m13: neg_dot3(m.m01, m.m11, m.m21, m.m03, m.m13, m.m23),
        m20: m.m02,
        m21: m.m12,
        m22: m.m22,
        m23: neg_dot3(m.m02, m.m12, m.m22, m.m03, m.m13, m.m23),
        m30: 0,
        m31: 0,
        m32: 0,
        m33: FX_ONE,
    }
}

/// Inverting a bounded camera matrix and applying the result to the
/// camera position lands exactly on the origin of camera space: the
/// translation column is built from the very dot products the
/// forward application recomputes, so they cancel term by term.
pub proof fn lemma_rigid_inverse_maps_eye_to_origin(m: Mat4)
    requires
        mat_bounded(m),
    ensures
        ({
            let hc = transform_point_spec(
                rigid_inverse_spec(m),
                Vec3 { x: m.m03, y: m.m13, z: m.m23 },
            );
            hc.x == 0 && hc.y == 0 && hc.z == 0 && hc.w == FX_ONE
        }),
{
    let l: int = 0x4000_0000;
    lemma_fxm_bound(m.m00 as int, m.m03 as int, l, l);
    lemma_fxm_bound(m.m10 as int, m.m13 as int, l, l);
    lemma_fxm_bound(m.m20 as int, m.m23 as int, l, l);
    lemma_fxm_bound(m.m01 as int, m.m03 as int, l, l);
    lemma_fxm_bound(m.m11 as int, m.m13 as int, l, l);
    lemma_fxm_bound(m.m21 as int, m.m23 as int, l, l);
    lemma_fxm_bound(m.m02 as int, m.m03 as int, l, l);
    lemma_fxm_bound(m.m12 as int, m.m13 as int, l, l);
    lemma_fxm_bound(m.m22 as int, m.m23 as int, l, l);
    let d0 = sat64(
        sat64(fxm(m.m00 as int, m.m03 as int) + fxm(m.m10 as int, m.m13 as int)) + fxm(
            m.m20 as int,
            m.m23 as int,
        ),
    );
    let d1 = sat64(
        sat64(fxm(m.m01 as int, m.m03 as int) + fxm(m.m11 as int, m.m13 as int)) + fxm(
            m.m21 as int,
            m.m23 as int,
        ),
    );
    let d2 = sat64(
        sat64(fxm(m.m02 as int, m.m03 as int) + fxm(m.m12 as int, m.m13 as int)) + fxm(
            m.m22 as int,
            m.m23 as int,
        ),
    );
    lemma_fxm_one(sat64(0 - d0));
    lemma_fxm_one(sat64(0 - d1));
    lemma_fxm_one(sat64(0 - d2));
    lemma_fxm_one(FX_ONE as int);
    lemma_fxm_zero(0, m.m03 as int);
    lemma_fxm_zero(0, m.m13 as int);
    lemma_fxm_zero(0, m.m23 as int);
}

/// The camera basis stays within bounds: unit basis columns and a
/// raster-bounded translation.
pub proof fn lemma_look_at_bounded(camera_pos: Vec3, focal_pos: Vec3, up: Vec3)
    requires
        look_at_in_range(camera_pos, focal_pos, up),
    ensures
        mat_bounded(look_at_spec(camera_pos, focal_pos, up)),
{
    let d = vsub(camera_pos, focal_pos);
    let wv = vnormalize(d);
    crate::vec::lemma_vnormalize_unit(d);
    let cu = vcross(up, wv);
    crate::fx::lemma_fxm_unit_bound(up.x as int, wv.y as int, 0x1000_0000);
    crate::fx::lemma_fxm_unit_bound(up.x as int, wv.z as int, 0x1000_0000);
    crate::fx::lemma_fxm_unit_bound(up.y as int, wv.x as int, 0x1000_0000);
    crate::fx::lemma_fxm_unit_bound(up.y as int, wv.z as int, 0x1000_0000);
    crate::fx::lemma_fxm_unit_bound(up.z as int, wv.x as int, 0x1000_0000);
    crate::fx::lemma_fxm_unit_bound(up.z as int, wv.y as int, 0x1000_0000);
    let uv = vnormalize(cu);
    crate::vec::lemma_vnormalize_unit(cu);
    crate::fx::lemma_fxm_unit_bound(wv.x as int, uv.y as int, FX_ONE as int);
    crate::fx::lemma_fxm_unit_bound(wv.x as int, uv.z as int, FX_ONE as int);
    crate::fx::lemma_fxm_unit_bound(wv.y as int, uv.x as int, FX_ONE as int);
    crate::fx::lemma_fxm_unit_bound(wv.y as int, uv.z as int, FX_ONE as int);
    crate::fx::lemma_fxm_unit_bound(wv.z as int, uv.x as int, FX_ONE as int);
    crate::fx::lemma_fxm_unit_bound(wv.z as int, uv.y as int, FX_ONE as int);
}

/// Inverting `look_at` yields a view matrix that maps the camera
/// position to the origin of camera space, exactly.
pub proof fn lemma_look_at_view_maps_eye_to_origin(camera_pos: Vec3, focal_pos: Vec3, up: Vec3)
    requires
        look_at_in_range(camera_pos, focal_pos, up),
    ensures
        ({
            let view = rigid_inverse_spec(look_at_spec(camera_pos, focal_pos, up));
            let hc = transform_point_spec(view, camera_pos);
            hc.x == 0 && hc.y == 0 && hc.z == 0 && hc.w == FX_ONE
        }),
{
    lemma_look_at_bounded(camera_pos, focal_pos, up);
    lemma_rigid_inverse_maps_eye_to_origin(look_at_spec(camera_pos, focal_pos, up));
}

/// The viewport half-scale matrix mapping the normalized box onto a
/// `w x h` raster target, with depth halved and biased as the
/// orthographic pass expects.
pub open spec fn viewport_spec(w: int, h: int) -> Mat4 {
    Mat4 {
        m00: tdiv(w * FX_ONE, 2) as i64,
        m01: 0,
        m02: 0,
        m03: tdiv(w * FX_ONE, 2) as i64,
        m10: 0,
        m11: tdiv(h * FX_ONE, 2) as i64,
        m12: 0,
        m13: tdiv(h * FX_ONE, 2) as i64,
        m20: 0,
        m21: 0,
        m22: tdiv(FX_ONE as int, 2) as i64,
        m23: FX_ONE,
        m30: 0,
        m31: 0,
        m32: 0,
        m33: FX_ONE,
    }
}

/// The box-to-box orthographic core: scale `2/(r-l), 2/(t-b),
/// -2/(f-n)` with the matching translation, no perspective divide.
pub open spec fn ortho_core_spec(l: int, r: int, b: int, t: int, n: int, f: int) -> Mat4 {
    Mat4 {
        m00: fxd(2 * FX_ONE, sat64(r - l)) as i64,
        m01: 0,
        m02: 0,
        m03: sat64(0 - fxd(sat64(r + l), sat64(r - l))) as i64,
        m10: 0,
        m11: fxd(2 * FX_ONE, sat64(t - b)) as i64,
        m12: 0,
        m13: sat64(0 - fxd(sat64(t + b), sat64(t - b))) as i64,
        m20: 0,
        m21: 0,
        m22: sat64(0 - fxd(2 * FX_ONE, sat64(f - n))) as i64,
        m23: sat64(0 - fxd(sat64(f + n), sat64(f - n))) as i64,
        m30: 0,
        m31: 0,
        m32: 0,
        m33: FX_ONE,
    }
}

/// Meaning of `ortho_mat`: the viewport scale applied to the
/// orthographic core.
pub open spec fn ortho_mat_spec(
    l: int,
    r: int,
    b: int,
    t: int,
    n: int,
    f: int,
    w: int,
    h: int,
) -> Mat4 {
    mat_mul_spec(viewport_spec(w, h), ortho_core_spec(l, r, b, t, n, f))
}

/// Parameters an orthographic box may take: bounded, with no
/// degenerate axis.
pub open spec fn ortho_in_range(l: int, r: int, b: int, t: int, n: int, f: int) -> bool {
    &&& -0x4000_0000 <= l <= 0x4000_0000
    &&& -0x4000_0000 <= r <= 0x4000_0000
    &&& -0x4000_0000 <= b <= 0x4000_0000
    &&& -0x4000_0000 <= t <= 0x4000_0000
    &&& -0x4000_0000 <= n <= 0x4000_0000
    &&& -0x4000_0000 <= f <= 0x4000_0000
    &&& l != r
    &&& b != t
    &&& n != f
}

/// The orthographic projection into raster coordinates: an affine
/// box-to-box mapping composed with the viewport scale and bias,
/// depth scaled with no divide.
pub fn ortho_mat(
    left: i64,
    right: i64,
    bottom: i64,
    top: i64,
    near: i64,
    far: i64,
    image_width: u32,
    image_height: u32,
) -> (r: Mat4)
    requires
        ortho_in_range(left as int, right as int, bottom as int, top as int, near as int, far as int),
        1 <= image_width <= 4096,
        1 <= image_height <= 4096,
    ensures
        r == ortho_mat_spec(
            left as int,
            right as int,
            bottom as int,
            top as int,
            near as int,
            far as int,
            image_width as int,
            image_height as int,
        ),
{
    let vp = viewport_exec(image_width, image_height);
    let rl = sat_sub(right, left);
    let tb = sat_sub(top, bottom);
    let fxn = sat_sub(far, near);
    let core = Mat4 {
        m00: fx_div(2 * FX_ONE, rl),
        m01: 0,
        m02: 0,
        m03: sat_sub(0, fx_div(sat_add(right, left), rl)),
        m10: 0,
        m11: fx_div(2 * FX_ONE, tb),
        m12: 0,
        m13: sat_sub(0, fx_div(sat_add(top, bottom), tb)),
        m20: 0,
        m21: 0,
        m22: sat_sub(0, fx_div(2 * FX_ONE, fxn)),
        m23: sat_sub(0, fx_div(sat_add(far, near), fxn)),
        m30: 0,
        m31: 0,
        m32: 0,
        m33: FX_ONE,
    };
    vp.mat_mul(&core)
}

fn viewport_exec(w: u32, h: u32) -> (r: Mat4)
    requires
        1 <= w <= 4096,
        1 <= h <= 4096,
    ensures
        r == viewport_spec(w as int, h as int),
{
    let wh: i64 = mul_div_sat(w as i64, FX_ONE, 2);
    let hh: i64 = mul_div_sat(h as i64, FX_ONE, 2);
    let zh: i64 = mul_div_sat(1, FX_ONE, 2);
    proof {
        assert(1 as int * FX_ONE == FX_ONE as int) by (nonlinear_arith);
    }
    Mat4 {
        m00: wh,
        m01: 0,
        m02: 0,
        m03: wh,
        m10: 0,
        m11: hh,
        m12: 0,
        m13: hh,
        m20: 0,
        m21: 0,
        m22: zh,
        m23: FX_ONE,
        m30: 0,
        m31: 0,
        m32: 0,
        m33: FX_ONE,
    }
}

/// The doubled tangent-scaled view height at the near plane.
pub open spec fn persp_hv(tan_half_fov: int, near: int) -> int {
    sat64(fxm(tan_half_fov, mag(near)) + fxm(tan_half_fov, mag(near)))
}

/// The view width: the height times the target's aspect ratio.
pub open spec fn persp_wv(tan_half_fov: int, near: int, w: int, h: int) -> int {
    fxm(persp_hv(tan_half_fov, near), fxd(w * FX_ONE, h * FX_ONE))
}

/// The foreshortening core: `near` on the x/y diagonal, `near + far`
/// and `-near * far` in the depth row, and `w' = z` so the caller's
/// homogeneous divide performs the perspective shrink.
pub open spec fn persp_core_spec(near: int, far: int) -> Mat4 {
    Mat4 {
        m00: near as i64,
        m01: 0,
        m02: 0,
        m03: 0,
        m10: 0,
        m11: near as i64,
        m12: 0,
        m13: 0,
        m20: 0,
        m21: 0,
        m22: sat64(near + far) as i64,
        m23: sat64(0 - fxm(near, far)) as i64,
        m30: 0,
        m31: 0,
        m32: FX_ONE,
        m33: 0,
    }
}

/// The perspective viewport: view box scaled to raster extent,
/// centered, depth passed through.
pub open spec fn persp_viewport_spec(tan_half_fov: int, near: int, w: int, h: int) -> Mat4 {
    Mat4 {
        m00: fxd(w * FX_ONE, persp_wv(tan_half_fov, near, w, h)) as i64,
        m01: 0,
        m02: 0,
        m03: tdiv(w * FX_ONE, 2) as i64,
        m10: 0,
        m11: fxd(h * FX_ONE, persp_hv(tan_half_fov, near)) as i64,
        m12: 0,
        m13: tdiv(h * FX_ONE, 2) as i64,
        m20: 0,
        m21: 0,
        m22: FX_ONE,
        m23: 0,
        m30: 0,
        m31: 0,
        m32: 0,
        m33: FX_ONE,
    }
}

/// Meaning of `perspective_mat` when the view box is not degenerate.
pub open spec fn perspective_mat_spec(tan_half_fov: int, near: int, far: int, w: int, h: int) -> Mat4 {
    mat_mul_spec(persp_viewport_spec(tan_half_fov, near, w, h), persp_core_spec(near, far))
}

/// The perspective projection into raster coordinates, from the
/// tangent of half the field of view and the near/far planes.  The
/// result still needs a homogeneous divide per point.  `None` when
/// the view box collapses (a tangent or near plane so small the
/// fixed-point view height or width vanishes).
pub fn perspective_mat(tan_half_fov: i64, near: i64, far: i64, image_width: u32, image_height: u32) -> (r: Option<Mat4>)
    requires
        -0x4000_0000 <= tan_half_fov <= 0x4000_0000,
        -0x4000_0000 <= near <= 0x4000_0000,
        -0x4000_0000 <= far <= 0x4000_0000,
        1 <= image_width <= 4096,
        1 <= image_height <= 4096,
    ensures
        r is Some <==> (persp_hv(tan_half_fov as int, near as int) != 0 && persp_wv(
            tan_half_fov as int,
            near as int,
            image_width as int,
            image_height as int,
        ) != 0),
        r is Some ==> r == Some(
            perspective_mat_spec(
                tan_half_fov as int,
                near as int,
                far as int,
                image_width as int,
                image_height as int,
            ),
        ),
{
    let na: i64 = if near >= 0 {
        near
    } else {
        -near
    };
    let p: i64 = fx_mul(tan_half_fov, na);
    let hv: i64 = sat_add(p, p);
    let wfx: i64 = (image_width as i64) * FX_ONE;
    let hfx: i64 = (image_height as i64) * FX_ONE;
    let aspect: i64 = fx_div(wfx, hfx);
    let wv: i64 = fx_mul(hv, aspect);
    if hv == 0 || wv == 0 {
        None
    } else {
        let vp = Mat4 {
            m00: fx_div(wfx, wv),
            m01: 0,
            m02: 0,
            m03: mul_div_sat(image_width as i64, FX_ONE, 2),
            m10: 0,
            m11: fx_div(hfx, hv),
            m12: 0,
            m13: mul_div_sat(image_height as i64, FX_ONE, 2),
            m20: 0,
            m21: 0,
            m22: FX_ONE,
            m23: 0,
            m30: 0,
            m31: 0,
            m32: 0,
            m33: FX_ONE,
        };
        let core = Mat4 {
            m00: near,
            m01: 0,
            m02: 0,
            m03: 0,
            m10: 0,
            m11: near,
            m12: 0,
            m13: 0,
            m20: 0,
            m21: 0,
            m22: sat_add(near, far),
            m23: sat_sub(0, fx_mul(near, far)),
            m30: 0,
            m31: 0,
            m32: FX_ONE,
            m33: 0,
        };
        Some(vp.mat_mul(&core))
    }
}

/// The inputs `look_at` can take without overflow: positions within
/// the raster bound and a unit-scale `up` vector.
pub open spec fn look_at_in_range(camera_pos: Vec3, focal_pos: Vec3, up: Vec3) -> bool {
    &&& -0x1000_0000 <= camera_pos.x <= 0x1000_0000
    &&& -0x1000_0000 <= camera_pos.y <= 0x1000_0000
    &&& -0x1000_0000 <= camera_pos.z <= 0x1000_0000
    &&& -0x1000_0000 <= focal_pos.x <= 0x1000_0000
    &&& -0x1000_0000 <= focal_pos.y <= 0x1000_0000
    &&& -0x1000_0000 <= focal_pos.z <= 0x1000_0000
    &&& -0x1000_0000 <= up.x <= 0x1000_0000
    &&& -0x1000_0000 <= up.y <= 0x1000_0000
    &&& -0x1000_0000 <= up.z <= 0x1000_0000
}

} // verus!
