//! The render orchestrator: drive a full draw over a mesh's faces,
//! and compose the two-pass shadow-mapped render: a depth-only pass
//! from the light, then the lit pass that samples its depth buffer.
use vstd::prelude::*;

use crate::framebuffer::{new_depth_buffer, DepthMap, FrameBuffer, Rgb8, DEPTH_FLOOR};
use crate::mat::{
    look_at, look_at_in_range, look_at_spec, mat_mul_spec, ortho_in_range, ortho_mat,
    ortho_mat_spec, perspective_mat, perspective_mat_spec, persp_hv, persp_wv, rigid_inverse,
    rigid_inverse_spec, Mat4,
};
use crate::model::Model;
use crate::mygl::{shade_cell, triangle, Texture};
use crate::shader::{MyShader, Shader, ShadowShader};
use crate::vec::{Vec2, Vec3};
use crate::vertex::Vertex;

verus! {

/// The texture coordinate pair of corner `j` of face `i`.
pub open spec fn face_tex(m: Model, i: int, j: int) -> Vec2 {
    let ti = m.texcoords_indices@[i][j];
    Vec2 { x: m.texcoords@[2 * ti], y: m.texcoords@[2 * ti + 1] }
}

/// What the vertex stage produces for corner `j` of face `i`.
pub open spec fn face_vertex_spec<S: Shader>(s: S, m: Model, i: int, j: int) -> Option<Vertex> {
    s.vertex_spec(
        m.verts@[m.faces@[i][j] as int],
        face_tex(m, i, j),
        m.normals@[m.normal_indices@[i][j] as int],
    )
}

/// The three shaded corners of face `i`, if the vertex stage accepts
/// all of them.
pub open spec fn face_vertices_spec<S: Shader>(s: S, m: Model, i: int) -> Option<[Vertex; 3]> {
    let r0 = face_vertex_spec(s, m, i, 0);
    let r1 = face_vertex_spec(s, m, i, 1);
    let r2 = face_vertex_spec(s, m, i, 2);
    if r0 is Some && r1 is Some && r2 is Some {
        Some([r0.unwrap(), r1.unwrap(), r2.unwrap()])
    } else {
        None
    }
}

/// One rasterized triangle over row-major color and depth sequences:
/// every cell as `shade_cell` leaves it.
pub open spec fn raster_tri_seq<S: Shader>(
    s: S,
    v: [Vertex; 3],
    w: int,
    h: int,
    imgv: Seq<Rgb8>,
    zbv: Seq<i64>,
) -> (Seq<Rgb8>, Seq<i64>) {
    (
        Seq::new(
            (w * h) as nat,
            |k: int| shade_cell(s, v, w, h, k % w, k / w, imgv[k], zbv[k]).0,
        ),
        Seq::new(
            (w * h) as nat,
            |k: int| shade_cell(s, v, w, h, k % w, k / w, imgv[k], zbv[k]).1,
        ),
    )
}

/// What one face leaves in the buffers: its triangle, or nothing if
/// the vertex stage rejects a corner (a point on the camera plane or
/// beyond the raster bound); such a face is skipped.
pub open spec fn render_step<S: Shader>(
    s: S,
    m: Model,
    w: int,
    h: int,
    imgv: Seq<Rgb8>,
    zbv: Seq<i64>,
    i: int,
) -> (Seq<Rgb8>, Seq<i64>) {
    match face_vertices_spec(s, m, i) {
        Some(vv) => raster_tri_seq(s, vv, w, h, imgv, zbv),
        None => (imgv, zbv),
    }
}

/// The buffers after the first `n` faces have been drawn in order.
pub open spec fn render_upto<S: Shader>(
    s: S,
    m: Model,
    w: int,
    h: int,
    imgv: Seq<Rgb8>,
    zbv: Seq<i64>,
    n: nat,
) -> (Seq<Rgb8>, Seq<i64>)
    decreases n,
{
    if n == 0 {
        (imgv, zbv)
    } else {
        let prev = render_upto(s, m, w, h, imgv, zbv, (n - 1) as nat);
        render_step(s, m, w, h, prev.0, prev.1, n - 1)
    }
}

/// Draw every face of the mesh: vertex-shade its corners, then
/// rasterize, in face order, into the target and its depth buffer.
pub fn render_mesh<S: Shader>(
    image: &mut FrameBuffer,
    zbuffer: &mut Vec<i64>,
    shader: &S,
    model: &Model,
)
    requires
        old(image).wf(),
        old(zbuffer)@.len() == old(image).width * old(image).height,
        shader.wf(),
        model.wf(),
    ensures
        final(image).wf(),
        final(image).width == old(image).width,
        final(image).height == old(image).height,
        final(zbuffer)@.len() == old(zbuffer)@.len(),
        (final(image).buf@, final(zbuffer)@) == render_upto(
            *shader,
            *model,
            old(image).width as int,
            old(image).height as int,
            old(image).buf@,
            old(zbuffer)@,
            model.faces@.len(),
        ),
{
    let ghost img0v = image.buf@;
    let ghost zb0v = zbuffer@;
    let w: u32 = image.width;
    let h: u32 = image.height;
    let n: usize = model.faces.len();
    let mut i: usize = 0;
    while i < n
        invariant
            i <= n,
            n == model.faces@.len(),
            image.wf(),
            image.width == w,
            image.height == h,
            zbuffer@.len() == w * h,
            img0v.len() == w * h,
            zb0v.len() == w * h,
            shader.wf(),
            model.wf(),
            (image.buf@, zbuffer@) == render_upto(
                *shader,
                *model,
                w as int,
                h as int,
                img0v,
                zb0v,
                i as nat,
            ),
        decreases n - i,
    {
        let ghost img_pre = image.buf@;
        let ghost zb_pre = zbuffer@;
        let f: [usize; 3] = model.faces[i];
        let ti: [usize; 3] = model.texcoords_indices[i];
        let ni: [usize; 3] = model.normal_indices[i];
        proof {
            assert(f[0] == model.faces@[i as int][0]);
            assert(f[1] == model.faces@[i as int][1]);
            assert(f[2] == model.faces@[i as int][2]);
            assert(ti[0] == model.texcoords_indices@[i as int][0]);
            assert(ti[1] == model.texcoords_indices@[i as int][1]);
            assert(ti[2] == model.texcoords_indices@[i as int][2]);
            assert(ni[0] == model.normal_indices@[i as int][0]);
            assert(ni[1] == model.normal_indices@[i as int][1]);
            assert(ni[2] == model.normal_indices@[i as int][2]);
            assert(model.faces@[i as int][0] < model.verts@.len());
            assert(model.faces@[i as int][1] < model.verts@.len());
            assert(model.faces@[i as int][2] < model.verts@.len());
            assert(2 * model.texcoords_indices@[i as int][0] + 1 < model.texcoords@.len());
            assert(2 * model.texcoords_indices@[i as int][1] + 1 < model.texcoords@.len());
            assert(2 * model.texcoords_indices@[i as int][2] + 1 < model.texcoords@.len());
            assert(model.normal_indices@[i as int][0] < model.normals@.len());
            assert(model.normal_indices@[i as int][1] < model.normals@.len());
            assert(model.normal_indices@[i as int][2] < model.normals@.len());
        }
        let tlen: usize = model.texcoords.len();
        proof {
            assert(tlen == model.texcoords@.len());
        }
        let t0 = Vec2 { x: model.texcoords[2 * ti[0]], y: model.texcoords[2 * ti[0] + 1] };
        let t1 = Vec2 { x: model.texcoords[2 * ti[1]], y: model.texcoords[2 * ti[1] + 1] };
        let t2 = Vec2 { x: model.texcoords[2 * ti[2]], y: model.texcoords[2 * ti[2] + 1] };
        let r0 = shader.vertex(model.verts[f[0]], t0, model.normals[ni[0]]);
        let r1 = shader.vertex(model.verts[f[1]], t1, model.normals[ni[1]]);
        let r2 = shader.vertex(model.verts[f[2]], t2, model.normals[ni[2]]);
        proof {
            assert(r0 == face_vertex_spec(*shader, *model, i as int, 0));
            assert(r1 == face_vertex_spec(*shader, *model, i as int, 1));
            assert(r2 == face_vertex_spec(*shader, *model, i as int, 2));
        }
        match (r0, r1, r2) {
            (Some(va), Some(vb), Some(vc)) => {
                let vv: [Vertex; 3] = [va, vb, vc];
                proof {
                    assert(face_vertices_spec(*shader, *model, i as int) == Some(vv));
                }
                triangle(image, zbuffer, shader, &vv);
                proof {
                    lemma_tri_matches_seq(
                        *shader,
                        vv,
                        w as int,
                        h as int,
                        img_pre,
                        zb_pre,
                        *image,
                        zbuffer@,
                    );
                    assert((image.buf@, zbuffer@) == render_upto(
                        *shader,
                        *model,
                        w as int,
                        h as int,
                        img0v,
                        zb0v,
                        (i + 1) as nat,
                    ));
                }
            },
            _ => {
                proof {
                    assert(face_vertices_spec(*shader, *model, i as int) is None);
                    assert((image.buf@, zbuffer@) == render_upto(
                        *shader,
                        *model,
                        w as int,
                        h as int,
                        img0v,
                        zb0v,
                        (i + 1) as nat,
                    ));
                }
            },
        }
        i += 1;
    }
}

/// The full configuration of a shadow-mapped render: target and
/// shadow-map resolutions, the view frustum, the camera, light and
/// focus placement, and the model transform.
pub struct RenderConfig {
    pub width: u32,
    pub height: u32,
    pub sm_width: u32,
    pub sm_height: u32,
    pub near: i64,
    pub far: i64,
    pub tan_half_fov: i64,
    pub ortho_left: i64,
    pub ortho_right: i64,
    pub ortho_bottom: i64,
    pub ortho_top: i64,
    pub camera_pos: Vec3,
    pub focal_pos: Vec3,
    pub camera_up: Vec3,
    pub light_pos: Vec3,
    pub light_color: Vec3,
    pub model_translate: Vec3,
    pub model_scale: Vec3,
}

impl RenderConfig {
    /// Bounded resolutions, transform parameters in range, and a
    /// model scale the normal transform can invert.
    pub open spec fn wf(self) -> bool {
        &&& 1 <= self.width <= 4096
        &&& 1 <= self.height <= 4096
        &&& 1 <= self.sm_width <= 4096
        &&& 1 <= self.sm_height <= 4096
        &&& look_at_in_range(self.light_pos, self.focal_pos, self.camera_up)
        &&& look_at_in_range(self.camera_pos, self.focal_pos, self.camera_up)
        &&& ortho_in_range(
            self.ortho_left as int,
            self.ortho_right as int,
            self.ortho_bottom as int,
            self.ortho_top as int,
            self.near as int,
            self.far as int,
        )
        &&& -0x4000_0000 <= self.tan_half_fov <= 0x4000_0000
        &&& -0x4000_0000 <= self.near <= 0x4000_0000
        &&& -0x4000_0000 <= self.far <= 0x4000_0000
        &&& self.model_scale.x != 0
        &&& self.model_scale.y != 0
        &&& self.model_scale.z != 0
    }
}

/// A row-major color buffer with every cell black.
pub open spec fn black_seq(n: nat) -> Seq<Rgb8> {
    Seq::new(n, |k: int| Rgb8 { r: 0, g: 0, b: 0 })
}

/// A row-major depth buffer with every cell at the sentinel floor.
pub open spec fn floor_seq(n: nat) -> Seq<i64> {
    Seq::new(n, |k: int| DEPTH_FLOOR)
}

/// The light's view matrix: the inverse of its camera basis.
pub open spec fn light_view_spec(cfg: RenderConfig) -> Mat4 {
    rigid_inverse_spec(look_at_spec(cfg.light_pos, cfg.focal_pos, cfg.camera_up))
}

/// The light's orthographic projection.
pub open spec fn light_proj_spec(cfg: RenderConfig) -> Mat4 {
    ortho_mat_spec(
        cfg.ortho_left as int,
        cfg.ortho_right as int,
        cfg.ortho_bottom as int,
        cfg.ortho_top as int,
        cfg.near as int,
        cfg.far as int,
        cfg.sm_width as int,
        cfg.sm_height as int,
    )
}

/// The depth-only shader of the first pass.
pub open spec fn shadow_shader_spec(cfg: RenderConfig) -> ShadowShader {
    ShadowShader {
        model_translate: cfg.model_translate,
        model_scale: cfg.model_scale,
        view_matrix: light_view_spec(cfg),
        projection_matrix: light_proj_spec(cfg),
    }
}

/// The lit shader of the second pass, sampling the given shadow map.
pub open spec fn final_shader_spec(
    cfg: RenderConfig,
    texture: Texture,
    normal_map: Option<Texture>,
    shadowmap: DepthMap,
) -> MyShader {
    MyShader {
        model_translate: cfg.model_translate,
        model_scale: cfg.model_scale,
        view_matrix: rigid_inverse_spec(
            look_at_spec(cfg.camera_pos, cfg.focal_pos, cfg.camera_up),
        ),
        projection_matrix: perspective_mat_spec(
            cfg.tan_half_fov as int,
            cfg.near as int,
            cfg.far as int,
            cfg.width as int,
            cfg.height as int,
        ),
        texture: texture,
        normal_map: normal_map,
        camera_pos: cfg.camera_pos,
        light_pos: cfg.light_pos,
        light_color: cfg.light_color,
        shadowbuffer: shadowmap,
        world_to_sm: mat_mul_spec(light_proj_spec(cfg), light_view_spec(cfg)),
    }
}

/// Whether the perspective view box of the configuration collapses
/// in fixed point.
pub open spec fn persp_degenerate(cfg: RenderConfig) -> bool {
    persp_hv(cfg.tan_half_fov as int, cfg.near as int) == 0 || persp_wv(
        cfg.tan_half_fov as int,
        cfg.near as int,
        cfg.width as int,
        cfg.height as int,
    ) == 0
}

/// Pass 1: render every face with the depth-only shader from the
/// light's point of view into a fresh shadow target.
pub fn render_shadow_pass(model: &Model, cfg: &RenderConfig) -> (r: (FrameBuffer, Vec<i64>))
    requires
        model.wf(),
        cfg.wf(),
    ensures
        r.0.wf(),
        r.0.width == cfg.sm_width,
        r.0.height == cfg.sm_height,
        r.1@.len() == cfg.sm_width * cfg.sm_height,
        (r.0.buf@, r.1@) == render_upto(
            shadow_shader_spec(*cfg),
            *model,
            cfg.sm_width as int,
            cfg.sm_height as int,
            black_seq((cfg.sm_width * cfg.sm_height) as nat),
            floor_seq((cfg.sm_width * cfg.sm_height) as nat),
            model.faces@.len(),
        ),
{
    let mut fb = FrameBuffer::new(cfg.sm_width, cfg.sm_height);
    let mut zb = new_depth_buffer(cfg.sm_width, cfg.sm_height);
    proof {
        assert(fb.buf@ =~= black_seq((cfg.sm_width * cfg.sm_height) as nat));
        assert(zb@ =~= floor_seq((cfg.sm_width * cfg.sm_height) as nat));
    }
    let la = look_at(cfg.light_pos, cfg.focal_pos, cfg.camera_up);
    let view = rigid_inverse(&la);
    let proj = ortho_mat(
        cfg.ortho_left,
        cfg.ortho_right,
        cfg.ortho_bottom,
        cfg.ortho_top,
        cfg.near,
        cfg.far,
        cfg.sm_width,
        cfg.sm_height,
    );
    let ss = ShadowShader {
        model_translate: cfg.model_translate,
        model_scale: cfg.model_scale,
        view_matrix: view,
        projection_matrix: proj,
    };
    proof {
        assert(ss == shadow_shader_spec(*cfg));
    }
    render_mesh(&mut fb, &mut zb, &ss, model);
    (fb, zb)
}

/// Pass 2: render every face with the lit shader, sampling the
/// shadow map through `world_to_sm`.  `None` when the perspective
/// view box collapses.
pub fn render_final_pass(
    model: &Model,
    texture: Texture,
    normal_map: Option<Texture>,
    shadowmap: DepthMap,
    world_to_sm: Mat4,
    cfg: &RenderConfig,
) -> (r: Option<FrameBuffer>)
    requires
        model.wf(),
        cfg.wf(),
        texture.wf(),
        match normal_map {
            Some(nm) => nm.wf(),
            None => true,
        },
        shadowmap.wf(),
    ensures
        r is Some <==> !persp_degenerate(*cfg),
        r is Some ==> ({
            let fb = r.unwrap();
            let s = MyShader {
                model_translate: cfg.model_translate,
                model_scale: cfg.model_scale,
                view_matrix: rigid_inverse_spec(
                    look_at_spec(cfg.camera_pos, cfg.focal_pos, cfg.camera_up),
                ),
                projection_matrix: perspective_mat_spec(
                    cfg.tan_half_fov as int,
                    cfg.near as int,
                    cfg.far as int,
                    cfg.width as int,
                    cfg.height as int,
                ),
                texture: texture,
                normal_map: normal_map,
                camera_pos: cfg.camera_pos,
                light_pos: cfg.light_pos,
                light_color: cfg.light_color,
                shadowbuffer: shadowmap,
                world_to_sm: world_to_sm,
            };
            &&& fb.wf()
            &&& fb.width == cfg.width
            &&& fb.height == cfg.height
            &&& fb.buf@ == render_upto(
                s,
                *model,
                cfg.width as int,
                cfg.height as int,
                black_seq((cfg.width * cfg.height) as nat),
                floor_seq((cfg.width * cfg.height) as nat),
                model.faces@.len(),
            ).0
        }),
{
    let persp = perspective_mat(cfg.tan_half_fov, cfg.near, cfg.far, cfg.width, cfg.height);
    match persp {
        None => None,
        Some(proj) => {
            let la = look_at(cfg.camera_pos, cfg.focal_pos, cfg.camera_up);
            let view = rigid_inverse(&la);
            let ms = MyShader {
                model_translate: cfg.model_translate,
                model_scale: cfg.model_scale,
                view_matrix: view,
                projection_matrix: proj,
                texture,
                normal_map,
                camera_pos: cfg.camera_pos,
                light_pos: cfg.light_pos,
                light_color: cfg.light_color,
                shadowbuffer: shadowmap,
                world_to_sm: world_to_sm,
            };
            let mut fb = FrameBuffer::new(cfg.width, cfg.height);
            let mut zb = new_depth_buffer(cfg.width, cfg.height);
            proof {
                assert(fb.buf@ =~= black_seq((cfg.width * cfg.height) as nat));
                assert(zb@ =~= floor_seq((cfg.width * cfg.height) as nat));
            }
            render_mesh(&mut fb, &mut zb, &ms, model);
            Some(fb)
        },
    }
}

/// The two-pass composition: a depth-only render from the light into
/// a dedicated shadow target, then the lit render that samples it
/// via `world_to_shadowmap = projection * view` of the light.
pub fn render_shadowed(
    model: &Model,
    texture: Texture,
    normal_map: Option<Texture>,
    cfg: &RenderConfig,
) -> (r: Option<FrameBuffer>)
    requires
        model.wf(),
        cfg.wf(),
        texture.wf(),
        match normal_map {
            Some(nm) => nm.wf(),
            None => true,
        },
    ensures
        r is Some <==> !persp_degenerate(*cfg),
        r is Some ==> (exists|dm: DepthMap|
            {
                &&& dm.width == cfg.sm_width
                &&& dm.height == cfg.sm_height
                &&& dm.data@ == render_upto(
                    shadow_shader_spec(*cfg),
                    *model,
                    cfg.sm_width as int,
                    cfg.sm_height as int,
                    black_seq((cfg.sm_width * cfg.sm_height) as nat),
                    floor_seq((cfg.sm_width * cfg.sm_height) as nat),
                    model.faces@.len(),
                ).1
                &&& r.unwrap().buf@ == render_upto(
                    final_shader_spec(*cfg, texture, normal_map, dm),
                    *model,
                    cfg.width as int,
                    cfg.height as int,
                    black_seq((cfg.width * cfg.height) as nat),
                    floor_seq((cfg.width * cfg.height) as nat),
                    model.faces@.len(),
                ).0
            }),
        r is Some ==> r.unwrap().wf() && r.unwrap().width == cfg.width && r.unwrap().height
            == cfg.height,
{
    let pass1 = render_shadow_pass(model, cfg);
    let la = look_at(cfg.light_pos, cfg.focal_pos, cfg.camera_up);
    let view = rigid_inverse(&la);
    let proj = ortho_mat(
        cfg.ortho_left,
        cfg.ortho_right,
        cfg.ortho_bottom,
        cfg.ortho_top,
        cfg.near,
        cfg.far,
        cfg.sm_width,
        cfg.sm_height,
    );
    let world_to_sm = proj.mat_mul(&view);
    let ghost pass1_zb = pass1.1@;
    match DepthMap::new(cfg.sm_width, cfg.sm_height, pass1.1) {
        None => {
            proof {
                assert(false);
            }
            None
        },
        Some(dm) => {
            let ghost dmg = dm;
            let r = render_final_pass(model, texture, normal_map, dm, world_to_sm, cfg);
            proof {
                if r is Some {
                    assert(final_shader_spec(*cfg, texture, normal_map, dmg).world_to_sm
                        == world_to_sm);
                }
            }
            r
        },
    }
}

/// After `triangle`, the buffers match the sequence-level raster of
/// the same triangle over the buffers it started from.
proof fn lemma_tri_matches_seq<S: Shader>(
    s: S,
    v: [Vertex; 3],
    w: int,
    h: int,
    img_pre: Seq<Rgb8>,
    zb_pre: Seq<i64>,
    image: FrameBuffer,
    zb: Seq<i64>,
)
    requires
        image.wf(),
        image.width == w,
        image.height == h,
        img_pre.len() == w * h,
        zb_pre.len() == w * h,
        zb.len() == w * h,
        image.buf@.len() == w * h,
        forall|x: int, y: int|
            0 <= x < w && 0 <= y < h ==> ((#[trigger] image.pix(x, y)) == shade_cell(
                s,
                v,
                w,
                h,
                x,
                y,
                img_pre[x + y * w],
                zb_pre[x + y * w],
            ).0 && zb[x + y * w] == shade_cell(s, v, w, h, x, y, img_pre[x + y * w], zb_pre[x + y
                * w]).1),
    ensures
        (image.buf@, zb) == raster_tri_seq(s, v, w, h, img_pre, zb_pre),
{
    let target = raster_tri_seq(s, v, w, h, img_pre, zb_pre);
    assert forall|k: int| 0 <= k < w * h implies (#[trigger] image.buf@[k]) == target.0[k] && zb[k]
        == target.1[k] by {
        let x = k % w;
        let y = k / w;
        assert(0 <= x < w) by (nonlinear_arith)
            requires
                0 <= k,
                0 < w,
                x == k % w,
        ;
        vstd::arithmetic::div_mod::lemma_multiply_divide_lt(k, w, h);
        assert(y >= 0) by (nonlinear_arith)
            requires
                0 <= k,
                0 < w,
                y == k / w,
        ;
        vstd::arithmetic::div_mod::lemma_fundamental_div_mod(k, w);
        assert(x + y * w == k) by (nonlinear_arith)
            requires
                k == w * (k / w) + k % w,
                x == k % w,
                y == k / w,
        ;
        assert(image.pix(x, y) == image.buf@[k]);
        assert(target.0[k] == shade_cell(s, v, w, h, x, y, img_pre[k], zb_pre[k]).0);
        assert(target.1[k] == shade_cell(s, v, w, h, x, y, img_pre[k], zb_pre[k]).1);
    }
    assert(w * h >= 0);
    assert(target.0.len() == w * h);
    assert(target.1.len() == w * h);
    assert forall|k: int| 0 <= k < image.buf@.len() implies image.buf@[k] == target.0[k] by {
        assert(0 <= k < w * h);
    }
    assert forall|k: int| 0 <= k < zb.len() implies zb[k] == target.1[k] by {
        assert(0 <= k < w * h);
        assert(image.buf@[k] == target.0[k]);
    }
    assert(image.buf@ =~= target.0);
    assert(zb =~= target.1);
}

} // verus!
