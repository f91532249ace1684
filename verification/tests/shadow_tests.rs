use softrender::framebuffer::{new_depth_buffer, FrameBuffer, Rgb8};
use softrender::fx::FX_ONE;
use softrender::model::Model;
use softrender::mygl::Texture;
use softrender::render::{render_mesh, render_shadowed, RenderConfig};
use softrender::shader::FlatShader;
use softrender::vec::Vec3;

fn fxv(x: f64, y: f64, z: f64) -> Vec3 {
    Vec3::new(
        (x * FX_ONE as f64).round() as i64,
        (y * FX_ONE as f64).round() as i64,
        (z * FX_ONE as f64).round() as i64,
    )
}

fn white_texture() -> Texture {
    Texture::new(1, 1, 3, vec![255, 255, 255]).unwrap()
}

/// A mesh whose triangles are listed as `[x, y, z]` corner triples,
/// all normals facing +z, all texture coordinates at the origin.
fn flat_mesh(tris: &[[f64; 9]]) -> Model {
    let mut verts = Vec::new();
    let mut faces = Vec::new();
    for (i, t) in tris.iter().enumerate() {
        verts.push(fxv(t[0], t[1], t[2]));
        verts.push(fxv(t[3], t[4], t[5]));
        verts.push(fxv(t[6], t[7], t[8]));
        faces.push([3 * i, 3 * i + 1, 3 * i + 2]);
    }
    let n = faces.len();
    Model::new(
        verts,
        faces,
        vec![0, 0],
        vec![[0, 0, 0]; n],
        vec![fxv(0.0, 0.0, 1.0)],
        vec![[0, 0, 0]; n],
    )
    .unwrap()
}

fn scene_config() -> RenderConfig {
    let s = FX_ONE;
    RenderConfig {
        width: 120,
        height: 120,
        sm_width: 200,
        sm_height: 200,
        near: -s,
        far: -60 * s,
        tan_half_fov: 27146,  // tan(22.5 degrees)
        ortho_left: -30 * s,
        ortho_right: 30 * s,
        ortho_bottom: -30 * s,
        ortho_top: 30 * s,
        camera_pos: fxv(0.0, 0.0, 24.0),
        focal_pos: fxv(0.0, 0.0, 0.0),
        camera_up: fxv(0.0, 1.0, 0.0),
        light_pos: fxv(8.0, 0.0, 10.0),
        light_color: fxv(1.0, 1.0, 1.0),
        model_translate: fxv(0.0, 0.0, 0.0),
        model_scale: fxv(1.0, 1.0, 1.0),
    }
}

fn snapshot(fb: &FrameBuffer) -> Vec<(u8, u8, u8)> {
    let mut out = Vec::new();
    for y in 0..fb.height {
        for x in 0..fb.width {
            let c = fb.get(x, y);
            out.push((c.r, c.g, c.b));
        }
    }
    out
}

#[test]
fn render_mesh_draws_flat_triangle() {
    let mut fb = FrameBuffer::new(64, 64);
    let mut zb = new_depth_buffer(64, 64);
    // flat shader: positions pass through as raster coordinates
    let model = flat_mesh(&[[5.0, 5.0, 0.0, 50.0, 8.0, 0.0, 20.0, 55.0, 0.0]]);
    let shader = FlatShader { color: Rgb8 { r: 0, g: 0, b: 250 } };
    render_mesh(&mut fb, &mut zb, &shader, &model);
    let inside = fb.get(20, 20);
    assert_eq!((inside.r, inside.g, inside.b), (0, 0, 250));
    let outside = fb.get(63, 63);
    assert_eq!((outside.r, outside.g, outside.b), (0, 0, 0));
}

#[test]
fn occluder_casts_attenuated_shadow() {
    let receiver = [-20.0, -20.0, 0.0, 20.0, -20.0, 0.0, 0.0, 20.0, 0.0];
    let occluder = [-2.0, -2.0, 5.0, 2.0, -2.0, 5.0, 0.0, 2.0, 5.0];
    let cfg = scene_config();
    let both = render_shadowed(&flat_mesh(&[receiver, occluder]), white_texture(), None, &cfg)
        .expect("view box not degenerate");
    let receiver_only = render_shadowed(&flat_mesh(&[receiver]), white_texture(), None, &cfg)
        .expect("view box not degenerate");
    let occluder_only = render_shadowed(&flat_mesh(&[occluder]), white_texture(), None, &cfg)
        .expect("view box not degenerate");
    let a = snapshot(&both);
    let b = snapshot(&receiver_only);
    let mask = snapshot(&occluder_only);
    let mut shadowed = 0u32;
    let mut lit_receiver = 0u32;
    for k in 0..a.len() {
        if mask[k] != (0, 0, 0) {
            // the occluder's own silhouette: not a receiver fragment
            continue;
        }
        if a[k] == b[k] {
            if a[k] != (0, 0, 0) {
                lit_receiver += 1;
            }
            continue;
        }
        // a receiver fragment behind the occluder from the light's
        // view: attenuated by the fixed shadow factor (0.3)
        shadowed += 1;
        let (ar, ag, ab_) = (a[k].0 as i32, a[k].1 as i32, a[k].2 as i32);
        let (br, bg, bb) = (b[k].0 as i32, b[k].1 as i32, b[k].2 as i32);
        assert!((ar - (br * 3) / 10).abs() <= 3, "r: {} vs {}", ar, br);
        assert!((ag - (bg * 3) / 10).abs() <= 3, "g: {} vs {}", ag, bg);
        assert!((ab_ - (bb * 3) / 10).abs() <= 3, "b: {} vs {}", ab_, bb);
        assert!(ar < br && ag < bg && ab_ < bb);
    }
    assert!(shadowed > 50, "only {} shadowed pixels", shadowed);
    assert!(lit_receiver > 500, "only {} lit receiver pixels", lit_receiver);
}

#[test]
fn unoccluded_scene_has_no_shadow() {
    let receiver = [-20.0, -20.0, 0.0, 20.0, -20.0, 0.0, 0.0, 20.0, 0.0];
    // the occluder sits off to the side, outside the light-to-receiver cone
    let bystander = [26.0, 26.0, 5.0, 28.0, 26.0, 5.0, 27.0, 28.0, 5.0];
    let cfg = scene_config();
    let with_bystander =
        render_shadowed(&flat_mesh(&[receiver, bystander]), white_texture(), None, &cfg).unwrap();
    let alone = render_shadowed(&flat_mesh(&[receiver]), white_texture(), None, &cfg).unwrap();
    let bystander_only =
        render_shadowed(&flat_mesh(&[bystander]), white_texture(), None, &cfg).unwrap();
    let a = snapshot(&with_bystander);
    let b = snapshot(&alone);
    let mask = snapshot(&bystander_only);
    for k in 0..a.len() {
        if mask[k] == (0, 0, 0) {
            assert_eq!(a[k], b[k]);
        }
    }
}

#[test]
fn degenerate_view_box_is_rejected() {
    let cfg = RenderConfig { tan_half_fov: 0, ..scene_config() };
    let receiver = [-20.0, -20.0, 0.0, 20.0, -20.0, 0.0, 0.0, 20.0, 0.0];
    assert!(render_shadowed(&flat_mesh(&[receiver]), white_texture(), None, &cfg).is_none());
}

#[test]
fn normal_map_path_renders() {
    let receiver = [-20.0, -20.0, 0.0, 20.0, -20.0, 0.0, 0.0, 20.0, 0.0];
    let cfg = scene_config();
    // a flat normal map: (128, 128, 255) decodes to roughly (0, 0, 1)
    let nm = Texture::new(1, 1, 3, vec![128, 128, 255]).unwrap();
    let with_map =
        render_shadowed(&flat_mesh(&[receiver]), white_texture(), Some(nm), &cfg).unwrap();
    let without = render_shadowed(&flat_mesh(&[receiver]), white_texture(), None, &cfg).unwrap();
    let a = snapshot(&with_map);
    let b = snapshot(&without);
    let mut lit = 0u32;
    for k in 0..a.len() {
        if a[k] != (0, 0, 0) {
            lit += 1;
            // the mapped normal is within a hair of the mesh normal,
            // so the shading must stay close
            let d = (a[k].0 as i32 - b[k].0 as i32).abs();
            assert!(d <= 8, "channel drift {}", d);
        }
    }
    assert!(lit > 500, "only {} lit pixels", lit);
}
