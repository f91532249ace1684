use cgmath::SquareMatrix;
use softrender::fx::FX_ONE;
use softrender::mat::{
    from_homogeneous, look_at, model_mat, ortho_mat, perspective_mat, rigid_inverse, Mat4,
};
use softrender::model::Model;
use softrender::vec::Vec3;

fn fxv(x: f64, y: f64, z: f64) -> Vec3 {
    Vec3::new(
        (x * FX_ONE as f64).round() as i64,
        (y * FX_ONE as f64).round() as i64,
        (z * FX_ONE as f64).round() as i64,
    )
}

/// The matrix as cgmath `f64` columns, for reference computations.
fn to_cgmath(m: &Mat4) -> cgmath::Matrix4<f64> {
    let s = FX_ONE as f64;
    cgmath::Matrix4::new(
        m.m00 as f64 / s,
        m.m10 as f64 / s,
        m.m20 as f64 / s,
        m.m30 as f64 / s,
        m.m01 as f64 / s,
        m.m11 as f64 / s,
        m.m21 as f64 / s,
        m.m31 as f64 / s,
        m.m02 as f64 / s,
        m.m12 as f64 / s,
        m.m22 as f64 / s,
        m.m32 as f64 / s,
        m.m03 as f64 / s,
        m.m13 as f64 / s,
        m.m23 as f64 / s,
        m.m33 as f64 / s,
    )
}

#[test]
fn model_mat_scales_then_translates() {
    let m = model_mat(fxv(1.0, 2.0, 3.0), fxv(10.0, 10.0, 10.0));
    assert_eq!(m.m00, 10 * FX_ONE);
    assert_eq!(m.m11, 10 * FX_ONE);
    assert_eq!(m.m22, 10 * FX_ONE);
    assert_eq!(m.m03, FX_ONE);
    assert_eq!(m.m13, 2 * FX_ONE);
    assert_eq!(m.m23, 3 * FX_ONE);
    assert_eq!(m.m33, FX_ONE);
    assert_eq!(m.m01, 0);
    let h = m.transform_point(fxv(1.0, 1.0, 1.0));
    assert_eq!((h.x, h.y, h.z, h.w), (11 * FX_ONE, 12 * FX_ONE, 13 * FX_ONE, FX_ONE));
}

#[test]
fn identity_preserves_points() {
    let m = Mat4::identity();
    let h = m.transform_point(fxv(1.0, -2.0, 3.0));
    assert_eq!((h.x, h.y, h.z, h.w), (FX_ONE, -2 * FX_ONE, 3 * FX_ONE, FX_ONE));
    let p = from_homogeneous(h).unwrap();
    assert_eq!((p.x, p.y, p.z), (FX_ONE, -2 * FX_ONE, 3 * FX_ONE));
}

#[test]
fn from_homogeneous_rejects_zero_w() {
    let h = softrender::mat::Hom { x: FX_ONE, y: 0, z: 0, w: 0 };
    assert!(from_homogeneous(h).is_none());
}

#[test]
fn look_at_axis_aligned_basis() {
    // camera at the origin looking down -z: the basis is the identity
    let m = look_at(fxv(0.0, 0.0, 0.0), fxv(0.0, 0.0, -30.0), fxv(0.0, 1.0, 0.0));
    assert_eq!((m.m00, m.m10, m.m20), (FX_ONE, 0, 0));
    assert_eq!((m.m01, m.m11, m.m21), (0, FX_ONE, 0));
    assert_eq!((m.m02, m.m12, m.m22), (0, 0, FX_ONE));
    assert_eq!((m.m03, m.m13, m.m23), (0, 0, 0));
}

#[test]
fn inverted_look_at_maps_eye_to_origin() {
    let eye = fxv(10.0, 5.0, 7.0);
    let target = fxv(0.0, 0.0, 0.0);
    let up = fxv(0.0, 1.0, 0.0);
    let cam = look_at(eye, target, up);
    let view = rigid_inverse(&cam);
    let h = view.transform_point(eye);
    assert_eq!((h.x, h.y, h.z, h.w), (0, 0, 0, FX_ONE));
}

#[test]
fn inverted_look_at_puts_target_on_forward_axis() {
    let eye = fxv(10.0, 5.0, 7.0);
    let target = fxv(0.0, 0.0, 0.0);
    let up = fxv(0.0, 1.0, 0.0);
    let cam = look_at(eye, target, up);
    let view = rigid_inverse(&cam);
    let h = view.transform_point(target);
    // on the forward axis: x and y vanish up to fixed-point error
    assert!(h.x.abs() <= 100, "x = {}", h.x);
    assert!(h.y.abs() <= 100, "y = {}", h.y);
    assert_eq!(h.w, FX_ONE);
    // at the camera-to-target distance, behind the camera (-z)
    let dist = (174.0f64).sqrt() * FX_ONE as f64;
    assert!((h.z as f64 + dist).abs() < 200.0, "z = {}", h.z);
}

#[test]
fn ortho_round_trip_recovers_point() {
    let s = FX_ONE;
    let m = ortho_mat(-50 * s, 50 * s, -50 * s, 50 * s, -s, -60 * s, 200, 200);
    let p = fxv(10.0, -20.0, -30.0);
    let h = m.transform_point(p);
    // orthographic: affine, no divide
    assert_eq!(h.w, FX_ONE);
    let mf = to_cgmath(&m);
    let inv = mf.invert().expect("orthographic matrix invertible");
    let q = inv
        * cgmath::Vector4::new(
            h.x as f64 / FX_ONE as f64,
            h.y as f64 / FX_ONE as f64,
            h.z as f64 / FX_ONE as f64,
            1.0,
        );
    assert!((q.x - 10.0).abs() < 0.05);
    assert!((q.y + 20.0).abs() < 0.05);
    assert!((q.z + 30.0).abs() < 0.05);
}

#[test]
fn perspective_round_trip_recovers_point() {
    let s = FX_ONE;
    let tan_half = (std::f64::consts::PI / 8.0).tan();
    let t = (tan_half * s as f64).round() as i64;
    let m = perspective_mat(t, -s, -60 * s, 200, 200).expect("view box not degenerate");
    let p = fxv(2.0, 3.0, -20.0);
    let h = m.transform_point(p);
    assert!(h.w != 0);
    let mf = to_cgmath(&m);
    let inv = mf.invert().expect("perspective matrix invertible");
    let q = inv
        * cgmath::Vector4::new(
            h.x as f64 / FX_ONE as f64,
            h.y as f64 / FX_ONE as f64,
            h.z as f64 / FX_ONE as f64,
            h.w as f64 / FX_ONE as f64,
        );
    assert!((q.x - 2.0).abs() < 0.1, "x = {}", q.x);
    assert!((q.y - 3.0).abs() < 0.1, "y = {}", q.y);
    assert!((q.z + 20.0).abs() < 0.1, "z = {}", q.z);
    assert!((q.w - 1.0).abs() < 0.01, "w = {}", q.w);
    // the homogeneous divide shrinks with distance
    let d = from_homogeneous(h).unwrap();
    assert!(d.x != h.x);
}

#[test]
fn perspective_rejects_collapsed_view_box() {
    let s = FX_ONE;
    assert!(perspective_mat(0, -s, -60 * s, 200, 200).is_none());
    assert!(perspective_mat(27146, 0, -60 * s, 200, 200).is_none());
}

#[test]
fn model_validates_indices() {
    let verts = vec![fxv(0.0, 0.0, 0.0), fxv(1.0, 0.0, 0.0), fxv(0.0, 1.0, 0.0)];
    let normals = vec![fxv(0.0, 0.0, 1.0)];
    let texcoords: Vec<i64> = vec![0, 0];
    let good = Model::new(
        verts.clone(),
        vec![[0, 1, 2]],
        texcoords.clone(),
        vec![[0, 0, 0]],
        normals.clone(),
        vec![[0, 0, 0]],
    );
    assert!(good.is_some());
    let bad_vert = Model::new(
        verts.clone(),
        vec![[0, 1, 3]],
        texcoords.clone(),
        vec![[0, 0, 0]],
        normals.clone(),
        vec![[0, 0, 0]],
    );
    assert!(bad_vert.is_none());
    let bad_tex = Model::new(
        verts.clone(),
        vec![[0, 1, 2]],
        texcoords.clone(),
        vec![[0, 0, 1]],
        normals.clone(),
        vec![[0, 0, 0]],
    );
    assert!(bad_tex.is_none());
    let bad_range = Model::new(
        verts,
        vec![[0, 1, 2]],
        vec![0, 2 * FX_ONE],
        vec![[0, 0, 0]],
        normals,
        vec![[0, 0, 0]],
    );
    assert!(bad_range.is_none());
}
