use softrender::framebuffer::{new_depth_buffer, DepthMap, FrameBuffer, Rgb8};
use softrender::fx::FX_ONE;
use softrender::mygl::{barycentric, texture_2d, triangle, Texture};
use softrender::myimage::MyImage;
use softrender::shader::FlatShader;
use softrender::vec::Vec2;
use softrender::vec::Vec3;
use softrender::vertex::Vertex;

fn raster_vertex(x: i64, y: i64, z: i64) -> Vertex {
    let p = Vec3::new(x * FX_ONE, y * FX_ONE, z * FX_ONE);
    Vertex { gl_position: p, tex_coord: Vec2::new(0, 0), normal: Vec3::new(0, 0, 0), a_pos: p }
}

/// The inside test of the reference triangle of the end-to-end
/// scenario, recomputed independently at pixel scale.
fn reference_inside(x: i64, y: i64) -> bool {
    let (ax, ay) = (10i64, 10i64);
    let (bx, by) = (100i64, 30i64);
    let (cx, cy) = (280i64, 160i64);
    let den = (bx - ax) * (cy - ay) - (cx - ax) * (by - ay);
    assert!(den > 0);
    let u = (cx - ax) * (ay - y) - (ax - x) * (cy - ay);
    let v = (ax - x) * (by - ay) - (bx - ax) * (ay - y);
    let n0 = den - u - v;
    n0 >= 0 && u >= 0 && v >= 0
}

#[test]
fn framebuffer_starts_black_and_sets() {
    let mut fb = FrameBuffer::new(4, 3);
    assert_eq!(fb.width, 4);
    assert_eq!(fb.height, 3);
    for x in 0..4 {
        for y in 0..3 {
            let c = fb.get(x, y);
            assert_eq!((c.r, c.g, c.b), (0, 0, 0));
        }
    }
    fb.set(1, 2, Rgb8 { r: 9, g: 8, b: 7 });
    let c = fb.get(1, 2);
    assert_eq!((c.r, c.g, c.b), (9, 8, 7));
    let d = fb.get(0, 0);
    assert_eq!((d.r, d.g, d.b), (0, 0, 0));
}

#[test]
fn depth_buffer_starts_at_floor() {
    let zb = new_depth_buffer(5, 4);
    assert_eq!(zb.len(), 20);
    for v in &zb {
        assert_eq!(*v, i64::MIN);
    }
}

#[test]
fn barycentric_interior_point() {
    let a = Vec3::new(0, 0, 0);
    let b = Vec3::new(10 * FX_ONE, 0, 0);
    let c = Vec3::new(0, 10 * FX_ONE, 0);
    let w = barycentric(2 * FX_ONE, 2 * FX_ONE, a, b, c);
    assert!(w.den > 0);
    assert!(w.n0 >= 0 && w.n1 >= 0 && w.n2 >= 0);
    assert_eq!(w.n0 + w.n1 + w.n2, w.den);
    let outside = barycentric(20 * FX_ONE, 20 * FX_ONE, a, b, c);
    assert!(outside.n0 < 0);
}

#[test]
fn barycentric_degenerate_sentinel() {
    let a = Vec3::new(0, 0, 0);
    let b = Vec3::new(FX_ONE, FX_ONE, 0);
    let c = Vec3::new(2 * FX_ONE, 2 * FX_ONE, 0);
    let w = barycentric(FX_ONE, 0, a, b, c);
    assert_eq!((w.n0, w.n1, w.n2, w.den), (-1, 1, 1, 0));
}

#[test]
fn triangle_fills_reference_scenario() {
    let mut fb = FrameBuffer::new(300, 200);
    let mut zb = new_depth_buffer(300, 200);
    let shader = FlatShader { color: Rgb8 { r: 255, g: 0, b: 0 } };
    let v = [raster_vertex(10, 10, 0), raster_vertex(100, 30, 0), raster_vertex(280, 160, 0)];
    triangle(&mut fb, &mut zb, &shader, &v);
    let mut shaded: u64 = 0;
    let mut expected: u64 = 0;
    for x in 0..300u32 {
        for y in 0..200u32 {
            let inside = reference_inside(x as i64, y as i64);
            let in_bbox = (10..=280).contains(&x) && (10..=160).contains(&y);
            if inside {
                expected += 1;
            }
            let c = fb.get(x, y);
            let red = (c.r, c.g, c.b) == (255, 0, 0);
            if red {
                shaded += 1;
            }
            assert_eq!(red, inside && in_bbox, "pixel ({}, {})", x, y);
            if !in_bbox {
                assert!(!red);
                assert_eq!(zb[(x as usize) + (y as usize) * 300], i64::MIN);
            }
            if red {
                assert_eq!(zb[(x as usize) + (y as usize) * 300], 0);
            }
        }
    }
    assert!(shaded > 0);
    assert_eq!(shaded, expected);
}

#[test]
fn triangle_depth_test_is_idempotent() {
    let mut fb = FrameBuffer::new(64, 64);
    let mut zb = new_depth_buffer(64, 64);
    let shader = FlatShader { color: Rgb8 { r: 1, g: 2, b: 3 } };
    let v = [raster_vertex(5, 5, 7), raster_vertex(40, 10, 7), raster_vertex(20, 50, 7)];
    triangle(&mut fb, &mut zb, &shader, &v);
    let mut snapshot = Vec::new();
    for y in 0..64u32 {
        for x in 0..64u32 {
            let c = fb.get(x, y);
            snapshot.push((c.r, c.g, c.b));
        }
    }
    let zb_snapshot = zb.clone();
    triangle(&mut fb, &mut zb, &shader, &v);
    let mut k = 0;
    for y in 0..64u32 {
        for x in 0..64u32 {
            let c = fb.get(x, y);
            assert_eq!((c.r, c.g, c.b), snapshot[k]);
            k += 1;
        }
    }
    assert_eq!(zb, zb_snapshot);
}

#[test]
fn degenerate_triangle_shades_nothing() {
    let mut fb = FrameBuffer::new(32, 32);
    let mut zb = new_depth_buffer(32, 32);
    let shader = FlatShader { color: Rgb8 { r: 255, g: 255, b: 255 } };
    let v = [raster_vertex(0, 0, 0), raster_vertex(10, 10, 0), raster_vertex(20, 20, 0)];
    triangle(&mut fb, &mut zb, &shader, &v);
    for x in 0..32u32 {
        for y in 0..32u32 {
            let c = fb.get(x, y);
            assert_eq!((c.r, c.g, c.b), (0, 0, 0));
            assert_eq!(zb[(x as usize) + (y as usize) * 32], i64::MIN);
        }
    }
}

#[test]
fn nearer_fragment_wins_depth_test() {
    let mut fb = FrameBuffer::new(32, 32);
    let mut zb = new_depth_buffer(32, 32);
    let far_shader = FlatShader { color: Rgb8 { r: 10, g: 0, b: 0 } };
    let near_shader = FlatShader { color: Rgb8 { r: 0, g: 20, b: 0 } };
    let far = [raster_vertex(0, 0, -5), raster_vertex(30, 0, -5), raster_vertex(0, 30, -5)];
    let near = [raster_vertex(0, 0, -1), raster_vertex(30, 0, -1), raster_vertex(0, 30, -1)];
    triangle(&mut fb, &mut zb, &far_shader, &far);
    triangle(&mut fb, &mut zb, &near_shader, &near);
    let c = fb.get(5, 5);
    assert_eq!((c.r, c.g, c.b), (0, 20, 0));
    // and the far one cannot overwrite the near one
    triangle(&mut fb, &mut zb, &far_shader, &far);
    let c2 = fb.get(5, 5);
    assert_eq!((c2.r, c2.g, c2.b), (0, 20, 0));
}

#[test]
fn texture_sampling_corners() {
    let data: Vec<u8> = vec![1, 2, 3, 4, 5, 6, 7, 8, 9, 10, 11, 12];
    let t = Texture::new(2, 2, 3, data).unwrap();
    // (0, 0) addresses the bottom-left texel, which is the buffer's
    // second row because the decoded image keeps its top row first.
    let c00 = texture_2d(&t, 0, 0);
    assert_eq!((c00.r, c00.g, c00.b), (7, 8, 9));
    let c11 = texture_2d(&t, FX_ONE, FX_ONE);
    assert_eq!((c11.r, c11.g, c11.b), (4, 5, 6));
    let c10 = texture_2d(&t, FX_ONE, 0);
    assert_eq!((c10.r, c10.g, c10.b), (10, 11, 12));
}

#[test]
fn texture_rejects_bad_buffers() {
    assert!(Texture::new(2, 2, 3, vec![0; 11]).is_none());
    assert!(Texture::new(0, 2, 3, vec![]).is_none());
    assert!(Texture::new(2, 2, 5, vec![0; 20]).is_none());
    assert!(Texture::new(1, 1, 4, vec![9; 4]).is_some());
}

#[test]
fn myimage_set_get_roundtrip() {
    let mut img = MyImage::new(8, 6);
    let (w, h) = img.dimensions();
    assert_eq!((w, h), (8, 6));
    let c0 = img.get(3, 4);
    assert_eq!((c0.r, c0.g, c0.b), (0, 0, 0));
    img.set(3, 4, Rgb8 { r: 11, g: 22, b: 33 });
    let c = img.get(3, 4);
    assert_eq!((c.r, c.g, c.b), (11, 22, 33));
    let other = img.get(3, 3);
    assert_eq!((other.r, other.g, other.b), (0, 0, 0));
}

#[test]
fn line_draws_endpoints() {
    let mut img = MyImage::new(20, 20);
    let white = Rgb8 { r: 255, g: 255, b: 255 };
    softrender::mygl::line(&mut img, (0, 0), (10, 5), white);
    let a = img.get(0, 0);
    assert_eq!((a.r, a.g, a.b), (255, 255, 255));
    let b = img.get(10, 5);
    assert_eq!((b.r, b.g, b.b), (255, 255, 255));
    let untouched = img.get(19, 19);
    assert_eq!((untouched.r, untouched.g, untouched.b), (0, 0, 0));
}

#[test]
fn line_draws_steep_and_reversed() {
    let mut img = MyImage::new(16, 16);
    let red = Rgb8 { r: 200, g: 0, b: 0 };
    softrender::mygl::line(&mut img, (4, 12), (2, 1), red);
    let a = img.get(4, 12);
    assert_eq!((a.r, a.g, a.b), (200, 0, 0));
    let b = img.get(2, 1);
    assert_eq!((b.r, b.g, b.b), (200, 0, 0));
    // a steep line visits one pixel per row
    let mut count = 0;
    for x in 0..16u32 {
        for y in 0..16u32 {
            let c = img.get(x, y);
            if (c.r, c.g, c.b) == (200, 0, 0) {
                count += 1;
            }
        }
    }
    assert_eq!(count, 12);
}

#[test]
fn depth_map_validates_length() {
    assert!(DepthMap::new(4, 4, vec![0i64; 15]).is_none());
    assert!(DepthMap::new(0, 4, vec![]).is_none());
    let dm = DepthMap::new(4, 4, vec![7i64; 16]).unwrap();
    assert_eq!(dm.get(3, 3), 7);
}
