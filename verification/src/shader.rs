//! The programmable shading abstraction: a vertex stage and a
//! fragment stage, each pinned to a spec-level function so that the
//! rasterizer's contract can name exactly what a shader computes.
//!
//! Three strategies implement it: a flat constant-color shader, the
//! lit shader with texture, optional normal map, Blinn specular and
//! shadow-map test, and the depth-only shader that fills the shadow
//! map in the first pass.
use vstd::prelude::*;

use crate::framebuffer::{DepthMap, Rgb8, DEPTH_FLOOR};
use crate::fx::{
    clamp01, clamp01_spec, fx_div, fx_mul, fx_pow, fx_pow_spec, fxd, fxm, lemma_fxm_unit_bound,
    lemma_sat64_id, lemma_tdiv_range, mag, mul_div_sat, sat64, sat_add, sat_sub, tdiv, FX_ONE,
};
use crate::mat::{
    from_homogeneous, from_homogeneous_spec, model_mat, model_mat_spec, transform_point_spec, Mat4,
};
use crate::mygl::{
    clamp_to, floor_px, interp3, interp3_spec, texel_spec, texture_2d, BaryWeights, Texture,
};
use crate::vec::{dot_spec, vadd, vdir, vsub, Vec2, Vec3};
use crate::vertex::{attrs_in_range, in_raster, vertex_in_range, Vertex, RASTER_LIMIT};

verus! {

/// The fixed ambient term (0.05).
pub const AMBIENT_FX: i64 = 3277;

/// The specular coefficient (0.1).
pub const SPECULAR_COEF_FX: i64 = 6554;

/// The Blinn specular exponent.
pub const SPECULAR_EXP: u32 = 100;

/// Intensity factor for a fragment in shadow (0.3).
pub const SHADOW_FACTOR_FX: i64 = 19661;

/// Depth bias against self-shadow acne (0.01).
pub const SHADOW_BIAS_FX: i64 = 655;

/// A shading strategy.  `vertex` maps model attributes to a
/// raster-space vertex (or rejects a point it cannot transform);
/// `fragment` computes the color of one covered pixel, or discards it.
pub trait Shader: Sized {
    /// The shader's own internal invariant.
    spec fn wf(&self) -> bool;

    /// What `vertex` returns.
    spec fn vertex_spec(&self, local_coord: Vec3, tex_coord: Vec2, normal: Vec3) -> Option<Vertex>;

    /// What `fragment` returns, given the triangle and the (sign
    /// normalized) barycentric weights `n0/den, n1/den, n2/den`.
    spec fn fragment_spec(&self, v: [Vertex; 3], n0: int, n1: int, n2: int, den: int) -> Option<
        Rgb8,
    >;

    fn vertex(&self, local_coord: Vec3, tex_coord: Vec2, normal: Vec3) -> (r: Option<Vertex>)
        requires
            self.wf(),
            attrs_in_range(local_coord, tex_coord, normal),
        ensures
            r == self.vertex_spec(local_coord, tex_coord, normal),
            r is Some ==> vertex_in_range(r.unwrap()),
    ;

    fn fragment(&self, v: &[Vertex; 3], w: &BaryWeights) -> (r: Option<Rgb8>)
        requires
            self.wf(),
            w.den > 0,
            w.n0 >= 0,
            w.n1 >= 0,
            w.n2 >= 0,
            w.n0 + w.n1 + w.n2 == w.den,
            vertex_in_range(v[0]),
            vertex_in_range(v[1]),
            vertex_in_range(v[2]),
        ensures
            r == self.fragment_spec(*v, w.n0 as int, w.n1 as int, w.n2 as int, w.den as int),
    ;
}

/// Meaning of the shared vertex stage: apply model, view and
/// projection in turn, then the homogeneous divide.  A point on the
/// camera plane (`w = 0`) or one thrown beyond the raster bound has
/// no vertex.
pub open spec fn pipeline_vertex_spec(
    model_translate: Vec3,
    model_scale: Vec3,
    view: Mat4,
    proj: Mat4,
    local_coord: Vec3,
    tex_coord: Vec2,
    normal: Vec3,
) -> Option<Vertex> {
    let hm = transform_point_spec(model_mat_spec(model_translate, model_scale), local_coord);
    let hv = transform_point_spec(view, Vec3 { x: hm.x, y: hm.y, z: hm.z });
    let hp = transform_point_spec(proj, Vec3 { x: hv.x, y: hv.y, z: hv.z });
    if hp.w == 0 {
        None
    } else {
        let gp = from_homogeneous_spec(hp);
        if in_raster(gp.x) && in_raster(gp.y) && in_raster(gp.z) {
            Some(Vertex { gl_position: gp, tex_coord: tex_coord, normal: normal, a_pos: local_coord })
        } else {
            None
        }
    }
}

/// The shared vertex stage.
pub fn pipeline_vertex(
    model_translate: Vec3,
    model_scale: Vec3,
    view: &Mat4,
    proj: &Mat4,
    local_coord: Vec3,
    tex_coord: Vec2,
    normal: Vec3,
) -> (r: Option<Vertex>)
    requires
        attrs_in_range(local_coord, tex_coord, normal),
    ensures
        r == pipeline_vertex_spec(
            model_translate,
            model_scale,
            *view,
            *proj,
            local_coord,
            tex_coord,
            normal,
        ),
        r is Some ==> vertex_in_range(r.unwrap()),
{
    let m = model_mat(model_translate, model_scale);
    let hm = m.transform_point(local_coord);
    let hv = view.transform_point(Vec3 { x: hm.x, y: hm.y, z: hm.z });
    let hp = proj.transform_point(Vec3 { x: hv.x, y: hv.y, z: hv.z });
    match from_homogeneous(hp) {
        None => None,
        Some(gp) => {
            if -RASTER_LIMIT <= gp.x && gp.x <= RASTER_LIMIT && -RASTER_LIMIT <= gp.y && gp.y
                <= RASTER_LIMIT && -RASTER_LIMIT <= gp.z && gp.z <= RASTER_LIMIT {
                Some(Vertex { gl_position: gp, tex_coord: tex_coord, normal: normal, a_pos: local_coord })
            } else {
                None
            }
        },
    }
}

/// A texture channel byte as a fixed-point intensity in `[0, 1]`.
pub open spec fn u8fx(c: int) -> int {
    tdiv(c * FX_ONE, 255)
}

fn u8_to_fx(c: u8) -> (r: i64)
    ensures
        r == u8fx(c as int),
        0 <= r <= FX_ONE,
{
    let r = mul_div_sat(c as i64, FX_ONE, 255);
    proof {
        assert(0 <= (c as int) * FX_ONE <= FX_ONE * 255) by (nonlinear_arith)
            requires
                0 <= c <= 255,
        ;
        assert(-FX_ONE * 255 <= (c as int) * FX_ONE) by (nonlinear_arith)
            requires
                0 <= (c as int) * FX_ONE,
        ;
        lemma_tdiv_range((c as int) * FX_ONE, 255, FX_ONE as int);
        lemma_sat64_id(tdiv((c as int) * FX_ONE, 255));
        assert(mag((c as int) * FX_ONE) / mag(255) >= 0) by (nonlinear_arith)
            requires
                mag((c as int) * FX_ONE) >= 0,
                mag(255) > 0,
        ;
    }
    r
}

/// One output channel: the shadow factor times the clamped intensity,
/// scaled to a byte.
pub open spec fn shade_byte_spec(k: int, w: int) -> u8 {
    tdiv(fxm(k, clamp01_spec(w)) * 255, FX_ONE as int) as u8
}

fn shade_byte(k: i64, w: i64) -> (r: u8)
    requires
        0 <= k <= FX_ONE,
    ensures
        r == shade_byte_spec(k as int, w as int),
{
    let c = clamp01(w);
    let ch = fx_mul(k, c);
    proof {
        lemma_fxm_unit_bound(k as int, c as int, FX_ONE as int);
        assert(k * c >= 0) by (nonlinear_arith)
            requires
                k >= 0,
                c >= 0,
        ;
        assert(mag(k * c) / mag(FX_ONE as int) >= 0) by (nonlinear_arith)
            requires
                mag(k * c) >= 0,
                mag(FX_ONE as int) > 0,
        ;
        lemma_sat64_id(tdiv(k * c, FX_ONE as int));
        assert(0 <= ch * 255 <= 255 * FX_ONE) by (nonlinear_arith)
            requires
                0 <= ch <= FX_ONE,
        ;
        assert(-255 * FX_ONE <= ch * 255) by (nonlinear_arith)
            requires
                0 <= ch * 255,
        ;
        lemma_tdiv_range(ch * 255, FX_ONE as int, 255);
        lemma_sat64_id(tdiv(ch * 255, FX_ONE as int));
        assert(mag(ch * 255) / mag(FX_ONE as int) >= 0) by (nonlinear_arith)
            requires
                mag(ch * 255) >= 0,
                mag(FX_ONE as int) > 0,
        ;
    }
    let b = mul_div_sat(ch, 255, FX_ONE);
    b as u8
}

/// The lit shading strategy: diffuse texture, optional normal map,
/// Lambert term toward the light, fixed ambient, Blinn specular
/// toward the camera, and a shadow-map visibility test.
pub struct MyShader {
    pub model_translate: Vec3,
    pub model_scale: Vec3,
    pub view_matrix: Mat4,
    pub projection_matrix: Mat4,
    pub texture: Texture,
    pub normal_map: Option<Texture>,
    pub camera_pos: Vec3,
    pub light_pos: Vec3,
    pub light_color: Vec3,
    pub shadowbuffer: DepthMap,
    pub world_to_sm: Mat4,
}

/// The interpolated value of one scalar attribute over the triangle.
pub open spec fn interp_at(n0: int, n1: int, n2: int, den: int, a0: i64, a1: i64, a2: i64) -> i64 {
    interp3_spec(n0, n1, n2, den, a0 as int, a1 as int, a2 as int) as i64
}

/// The normal the lit shader shades with: interpolated from the
/// vertices, or read from the normal map and remapped from `[0, 1]`
/// to `[-1, 1]` per channel.
pub open spec fn my_normal_spec(
    s: MyShader,
    v: [Vertex; 3],
    n0: int,
    n1: int,
    n2: int,
    den: int,
    tu: int,
    tv: int,
) -> Vec3 {
    match s.normal_map {
        None => Vec3 {
            x: interp_at(n0, n1, n2, den, v[0].normal.x, v[1].normal.x, v[2].normal.x),
            y: interp_at(n0, n1, n2, den, v[0].normal.y, v[1].normal.y, v[2].normal.y),
            z: interp_at(n0, n1, n2, den, v[0].normal.z, v[1].normal.z, v[2].normal.z),
        },
        Some(nm) => {
            let tc = texel_spec(nm, tu, tv);
            Vec3 {
                x: sat64(sat64(u8fx(tc.0 as int) + u8fx(tc.0 as int)) - FX_ONE) as i64,
                y: sat64(sat64(u8fx(tc.1 as int) + u8fx(tc.1 as int)) - FX_ONE) as i64,
                z: sat64(sat64(u8fx(tc.2 as int) + u8fx(tc.2 as int)) - FX_ONE) as i64,
            }
        },
    }
}

/// Whether the shadow map leaves the fragment lit: the cell it
/// projects to holds no occluder, or its stored depth is at least as
/// deep as the fragment's own light-space depth (within the bias).
/// Larger depth means nearer to the light, so a strictly greater
/// stored magnitude is an occluder in front of the fragment.
pub open spec fn shadow_unblocked_spec(s: MyShader, wp: Vec3) -> bool {
    let smh = transform_point_spec(s.world_to_sm, wp);
    let sx = clamp_to(floor_px(smh.x as int), s.shadowbuffer.width - 1);
    let sy = clamp_to(floor_px(smh.y as int), s.shadowbuffer.height - 1);
    let stored = s.shadowbuffer.depth_at(sx, sy);
    stored == DEPTH_FLOOR || mag(stored as int) < mag(smh.z as int) + SHADOW_BIAS_FX
}

/// One channel of the lit intensity: ambient plus Lambert diffuse
/// plus Blinn specular.
pub open spec fn my_intensity_spec(lam: int, colc: int, lightc: int, spow: int) -> int {
    sat64(
        sat64(AMBIENT_FX + fxm(lam, colc)) + fxm(fxm(SPECULAR_COEF_FX as int, lightc), spow),
    )
}

/// Everything the lit fragment stage computes, in the order the code
/// computes it.
pub open spec fn my_fragment_spec(
    s: MyShader,
    v: [Vertex; 3],
    n0: int,
    n1: int,
    n2: int,
    den: int,
) -> Option<Rgb8> {
    let tu = clamp01_spec(
        interp3_spec(
            n0,
            n1,
            n2,
            den,
            v[0].tex_coord.x as int,
            v[1].tex_coord.x as int,
            v[2].tex_coord.x as int,
        ),
    );
    let tv = clamp01_spec(
        interp3_spec(
            n0,
            n1,
            n2,
            den,
            v[0].tex_coord.y as int,
            v[1].tex_coord.y as int,
            v[2].tex_coord.y as int,
        ),
    );
    let col = texel_spec(s.texture, tu, tv);
    let ap = Vec3 {
        x: interp_at(n0, n1, n2, den, v[0].a_pos.x, v[1].a_pos.x, v[2].a_pos.x),
        y: interp_at(n0, n1, n2, den, v[0].a_pos.y, v[1].a_pos.y, v[2].a_pos.y),
        z: interp_at(n0, n1, n2, den, v[0].a_pos.z, v[1].a_pos.z, v[2].a_pos.z),
    };
    let nrm = my_normal_spec(s, v, n0, n1, n2, den, tu, tv);
    let wn = vdir(
        Vec3 {
            x: fxd(nrm.x as int, s.model_scale.x as int) as i64,
            y: fxd(nrm.y as int, s.model_scale.y as int) as i64,
            z: fxd(nrm.z as int, s.model_scale.z as int) as i64,
        },
    );
    let wp = Vec3 {
        x: sat64(fxm(s.model_scale.x as int, ap.x as int) + s.model_translate.x) as i64,
        y: sat64(fxm(s.model_scale.y as int, ap.y as int) + s.model_translate.y) as i64,
        z: sat64(fxm(s.model_scale.z as int, ap.z as int) + s.model_translate.z) as i64,
    };
    let ftl = vdir(vsub(s.light_pos, wp));
    let lam0 = dot_spec(wn, ftl);
    let lam: int = if lam0 < 0 {
        0
    } else {
        lam0
    };
    let ftc = vdir(vsub(s.camera_pos, wp));
    let half = vdir(vadd(ftl, ftc));
    let sb = clamp01_spec(dot_spec(half, wn));
    let spow = fx_pow_spec(sb, SPECULAR_EXP as nat);
    let k: int = if shadow_unblocked_spec(s, wp) {
        FX_ONE as int
    } else {
        SHADOW_FACTOR_FX as int
    };
    Some(
        Rgb8 {
            r: shade_byte_spec(k, my_intensity_spec(lam, u8fx(col.0 as int), s.light_color.x as int, spow)),
            g: shade_byte_spec(k, my_intensity_spec(lam, u8fx(col.1 as int), s.light_color.y as int, spow)),
            b: shade_byte_spec(k, my_intensity_spec(lam, u8fx(col.2 as int), s.light_color.z as int, spow)),
        },
    )
}

impl Shader for MyShader {
    open spec fn wf(&self) -> bool {
        &&& self.texture.wf()
        &&& match self.normal_map {
            Some(nm) => nm.wf(),
            None => true,
        }
        &&& self.shadowbuffer.wf()
        &&& self.model_scale.x != 0
        &&& self.model_scale.y != 0
        &&& self.model_scale.z != 0
    }

    open spec fn vertex_spec(&self, local_coord: Vec3, tex_coord: Vec2, normal: Vec3) -> Option<
        Vertex,
    > {
        pipeline_vertex_spec(
            self.model_translate,
            self.model_scale,
            self.view_matrix,
            self.projection_matrix,
            local_coord,
            tex_coord,
            normal,
        )
    }

    open spec fn fragment_spec(&self, v: [Vertex; 3], n0: int, n1: int, n2: int, den: int) -> Option<
        Rgb8,
    > {
        my_fragment_spec(*self, v, n0, n1, n2, den)
    }

    fn vertex(&self, local_coord: Vec3, tex_coord: Vec2, normal: Vec3) -> (r: Option<Vertex>) {
        pipeline_vertex(
            self.model_translate,
            self.model_scale,
            &self.view_matrix,
            &self.projection_matrix,
            local_coord,
            tex_coord,
            normal,
        )
    }

    fn fragment(&self, v: &[Vertex; 3], w: &BaryWeights) -> (r: Option<Rgb8>) {
        let tu = clamp01(
            interp3(w, v[0].tex_coord.x, v[1].tex_coord.x, v[2].tex_coord.x),
        );
        let tv = clamp01(
            interp3(w, v[0].tex_coord.y, v[1].tex_coord.y, v[2].tex_coord.y),
        );
        let col = texture_2d(&self.texture, tu, tv);
        let ap = Vec3 {
            x: interp3(w, v[0].a_pos.x, v[1].a_pos.x, v[2].a_pos.x),
            y: interp3(w, v[0].a_pos.y, v[1].a_pos.y, v[2].a_pos.y),
            z: interp3(w, v[0].a_pos.z, v[1].a_pos.z, v[2].a_pos.z),
        };
        let nrm: Vec3 = match &self.normal_map {
            None => Vec3 {
                x: interp3(w, v[0].normal.x, v[1].normal.x, v[2].normal.x),
                y: interp3(w, v[0].normal.y, v[1].normal.y, v[2].normal.y),
                z: interp3(w, v[0].normal.z, v[1].normal.z, v[2].normal.z),
            },
            Some(nm) => {
                let tc = texture_2d(nm, tu, tv);
                let cx = u8_to_fx(tc.r);
                let cy = u8_to_fx(tc.g);
                let cz = u8_to_fx(tc.b);
                Vec3 {
                    x: sat_sub(sat_add(cx, cx), FX_ONE),
                    y: sat_sub(sat_add(cy, cy), FX_ONE),
                    z: sat_sub(sat_add(cz, cz), FX_ONE),
                }
            },
        };
        let wn = Vec3 {
            x: fx_div(nrm.x, self.model_scale.x),
            y: fx_div(nrm.y, self.model_scale.y),
            z: fx_div(nrm.z, self.model_scale.z),
        }.dir();
        let wp = Vec3 {
            x: sat_add(fx_mul(self.model_scale.x, ap.x), self.model_translate.x),
            y: sat_add(fx_mul(self.model_scale.y, ap.y), self.model_translate.y),
            z: sat_add(fx_mul(self.model_scale.z, ap.z), self.model_translate.z),
        };
        let ftl = self.light_pos.sub(wp).dir();
        let lam0 = wn.dot(ftl);
        let lam: i64 = if lam0 < 0 {
            0
        } else {
            lam0
        };
        let ftc = self.camera_pos.sub(wp).dir();
        let half = ftl.add(ftc).dir();
        let sb = clamp01(half.dot(wn));
        let spow = fx_pow(sb, SPECULAR_EXP);
        let smh = self.world_to_sm.transform_point(wp);
        let sx = clamp_coord(smh.x, self.shadowbuffer.width - 1);
        let sy = clamp_coord(smh.y, self.shadowbuffer.height - 1);
        let stored = self.shadowbuffer.get(sx, sy);
        let za: i128 = if smh.z >= 0 {
            smh.z as i128
        } else {
            -(smh.z as i128)
        };
        let unblocked: bool = if stored == DEPTH_FLOOR {
            true
        } else {
            let sa: i128 = if stored >= 0 {
                stored as i128
            } else {
                -(stored as i128)
            };
            sa < za + (SHADOW_BIAS_FX as i128)
        };
        let k: i64 = if unblocked {
            FX_ONE
        } else {
            SHADOW_FACTOR_FX
        };
        let ir = intensity_channel(lam, u8_to_fx(col.r), self.light_color.x, spow);
        let ig = intensity_channel(lam, u8_to_fx(col.g), self.light_color.y, spow);
        let ib = intensity_channel(lam, u8_to_fx(col.b), self.light_color.z, spow);
        Some(Rgb8 { r: shade_byte(k, ir), g: shade_byte(k, ig), b: shade_byte(k, ib) })
    }
}

fn intensity_channel(lam: i64, colc: i64, lightc: i64, spow: i64) -> (r: i64)
    ensures
        r == my_intensity_spec(lam as int, colc as int, lightc as int, spow as int),
{
    sat_add(
        sat_add(AMBIENT_FX, fx_mul(lam, colc)),
        fx_mul(fx_mul(SPECULAR_COEF_FX, lightc), spow),
    )
}

/// The pixel a raster-space coordinate lands on, clamped into
/// `[0, hi]`; total, for shadow-map lookups of any projected point.
fn clamp_coord(c: i64, hi: u32) -> (r: u32)
    requires
        hi <= 0xFFFF_FFFE,
    ensures
        r == clamp_to(floor_px(c as int), hi as int),
{
    let q: i64 = mul_div_sat(c, 1, FX_ONE);
    proof {
        assert(c as int * 1 == c as int) by (nonlinear_arith);
        assert(-mag(c as int) * FX_ONE <= c as int <= mag(c as int) * FX_ONE) by (nonlinear_arith);
        lemma_tdiv_range(c as int, FX_ONE as int, mag(c as int));
        lemma_sat64_id(tdiv(c as int, FX_ONE as int));
    }
    if q < 0 {
        0
    } else if q > hi as i64 {
        hi
    } else {
        q as u32
    }
}

/// The depth-only strategy for the shadow pass: the fragment's
/// grayscale value is the magnitude of its interpolated depth.
pub struct ShadowShader {
    pub model_translate: Vec3,
    pub model_scale: Vec3,
    pub view_matrix: Mat4,
    pub projection_matrix: Mat4,
}

/// The occluder-depth gray value: `|z|` scaled to a byte, capped.
pub open spec fn shadow_gray_spec(z: int) -> u8 {
    let q = tdiv(mag(z) * 255, FX_ONE as int);
    if q > 255 {
        255 as u8
    } else {
        q as u8
    }
}

/// What the depth-only fragment stage returns.
pub open spec fn shadow_fragment_spec(v: [Vertex; 3], n0: int, n1: int, n2: int, den: int) -> Option<
    Rgb8,
> {
    let z = interp_at(
        n0,
        n1,
        n2,
        den,
        v[0].gl_position.z,
        v[1].gl_position.z,
        v[2].gl_position.z,
    );
    let g = shadow_gray_spec(z as int);
    Some(Rgb8 { r: g, g: g, b: g })
}

impl Shader for ShadowShader {
    open spec fn wf(&self) -> bool {
        true
    }

    open spec fn vertex_spec(&self, local_coord: Vec3, tex_coord: Vec2, normal: Vec3) -> Option<
        Vertex,
    > {
        pipeline_vertex_spec(
            self.model_translate,
            self.model_scale,
            self.view_matrix,
            self.projection_matrix,
            local_coord,
            tex_coord,
            normal,
        )
    }

    open spec fn fragment_spec(&self, v: [Vertex; 3], n0: int, n1: int, n2: int, den: int) -> Option<
        Rgb8,
    > {
        shadow_fragment_spec(v, n0, n1, n2, den)
    }

    fn vertex(&self, local_coord: Vec3, tex_coord: Vec2, normal: Vec3) -> (r: Option<Vertex>) {
        pipeline_vertex(
            self.model_translate,
            self.model_scale,
            &self.view_matrix,
            &self.projection_matrix,
            local_coord,
            tex_coord,
            normal,
        )
    }

    fn fragment(&self, v: &[Vertex; 3], w: &BaryWeights) -> (r: Option<Rgb8>) {
        let z = interp3(w, v[0].gl_position.z, v[1].gl_position.z, v[2].gl_position.z);
        let za: i64 = if z >= 0 {
            z
        } else {
            -z
        };
        proof {
            assert(0 <= za * 255 <= RASTER_LIMIT * 255) by (nonlinear_arith)
                requires
                    0 <= za <= RASTER_LIMIT,
            ;
            assert(-RASTER_LIMIT * 255 * FX_ONE <= za * 255 <= RASTER_LIMIT * 255 * FX_ONE)
                by (nonlinear_arith)
                requires
                    0 <= za * 255 <= RASTER_LIMIT * 255,
            ;
            lemma_tdiv_range(za * 255, FX_ONE as int, RASTER_LIMIT as int * 255);
            lemma_sat64_id(tdiv(za * 255, FX_ONE as int));
            assert(mag(za * 255) / mag(FX_ONE as int) >= 0) by (nonlinear_arith)
                requires
                    mag(za * 255) >= 0,
                    mag(FX_ONE as int) > 0,
            ;
        }
        let q = mul_div_sat(za, 255, FX_ONE);
        let g: u8 = if q > 255 {
            255
        } else {
            q as u8
        };
        Some(Rgb8 { r: g, g: g, b: g })
    }
}

/// The simplest strategy: positions are already raster coordinates,
/// every covered pixel gets one constant color.
pub struct FlatShader {
    pub color: Rgb8,
}

impl Shader for FlatShader {
    open spec fn wf(&self) -> bool {
        true
    }

    open spec fn vertex_spec(&self, local_coord: Vec3, tex_coord: Vec2, normal: Vec3) -> Option<
        Vertex,
    > {
        Some(
            Vertex {
                gl_position: local_coord,
                tex_coord: tex_coord,
                normal: normal,
                a_pos: local_coord,
            },
        )
    }

    open spec fn fragment_spec(&self, v: [Vertex; 3], n0: int, n1: int, n2: int, den: int) -> Option<
        Rgb8,
    > {
        Some(self.color)
    }

    fn vertex(&self, local_coord: Vec3, tex_coord: Vec2, normal: Vec3) -> (r: Option<Vertex>) {
        Some(
            Vertex {
                gl_position: local_coord,
                tex_coord: tex_coord,
                normal: normal,
                a_pos: local_coord,
            },
        )
    }

    fn fragment(&self, v: &[Vertex; 3], w: &BaryWeights) -> (r: Option<Rgb8>) {
        Some(self.color)
    }
}

} // verus!
