//! The rasterizer: barycentric weights, the inside test, the
//! bounding-box scan with depth test, texture sampling, and line
//! drawing.
use vstd::prelude::*;

use crate::fx::{lemma_tdiv_range, mag, tdiv, FX_ONE};
use crate::framebuffer::{lemma_dims_bound, lemma_grid_index, lemma_grid_index_injective,
    FrameBuffer, Rgb8};
use crate::myimage::MyImage;
use crate::shader::Shader;
use crate::vec::Vec3;
use crate::vertex::{vertex_in_range, Vertex, RASTER_LIMIT};

verus! {

/// Barycentric weights of a sample point, as exact integer ratios
/// `n0/den, n1/den, n2/den` with `den > 0` for a non-degenerate
/// triangle; a degenerate triangle yields the sentinel
/// `(-1, 1, 1, 0)`, which fails the inside test everywhere.
#[derive(Clone, Copy, PartialEq, Eq, Structural, Debug)]
pub struct BaryWeights {
    pub n0: i64,
    pub n1: i64,
    pub n2: i64,
    pub den: i64,
}

/// Twice the signed raster-space area of the triangle `a b c`
/// (the z component of the edge cross product).
pub open spec fn bary_den(a: Vec3, b: Vec3, c: Vec3) -> int {
    (b.x - a.x) * (c.y - a.y) - (c.x - a.x) * (b.y - a.y)
}

/// Unnormalized numerator of the weight of `b` at `(px, py)`.
pub open spec fn bary_u_num(a: Vec3, b: Vec3, c: Vec3, px: int, py: int) -> int {
    (c.x - a.x) * (a.y - py) - (a.x - px) * (c.y - a.y)
}

/// Unnormalized numerator of the weight of `c` at `(px, py)`.
pub open spec fn bary_v_num(a: Vec3, b: Vec3, c: Vec3, px: int, py: int) -> int {
    (a.x - px) * (b.y - a.y) - (b.x - a.x) * (a.y - py)
}

/// Orientation sign of the triangle.
pub open spec fn bary_sgn(a: Vec3, b: Vec3, c: Vec3) -> int {
    if bary_den(a, b, c) >= 0 {
        1
    } else {
        -1
    }
}

/// The positive denominator of the sign-normalized weights.
pub open spec fn w_den(a: Vec3, b: Vec3, c: Vec3) -> int {
    mag(bary_den(a, b, c))
}

/// Sign-normalized weight numerator of `b`.
pub open spec fn w_n1(a: Vec3, b: Vec3, c: Vec3, px: int, py: int) -> int {
    bary_sgn(a, b, c) * bary_u_num(a, b, c, px, py)
}

/// Sign-normalized weight numerator of `c`.
pub open spec fn w_n2(a: Vec3, b: Vec3, c: Vec3, px: int, py: int) -> int {
    bary_sgn(a, b, c) * bary_v_num(a, b, c, px, py)
}

/// Sign-normalized weight numerator of `a` (the weights sum to `den`).
pub open spec fn w_n0(a: Vec3, b: Vec3, c: Vec3, px: int, py: int) -> int {
    w_den(a, b, c) - w_n1(a, b, c, px, py) - w_n2(a, b, c, px, py)
}

/// The inside test: the triangle has nonzero area and all three
/// weights of the sample point are nonnegative (edges inclusive).
pub open spec fn inside(a: Vec3, b: Vec3, c: Vec3, px: int, py: int) -> bool {
    &&& bary_den(a, b, c) != 0
    &&& w_n0(a, b, c, px, py) >= 0
    &&& w_n1(a, b, c, px, py) >= 0
    &&& w_n2(a, b, c, px, py) >= 0
}

/// Exact product of two raster-bounded scalars.
fn mul_raster(a: i64, b: i64) -> (r: i64)
    requires
        -0x4000_0000 <= a <= 0x4000_0000,
        -0x4000_0000 <= b <= 0x4000_0000,
    ensures
        r == a * b,
        -0x1000_0000_0000_0000 <= r <= 0x1000_0000_0000_0000,
{
    proof {
        assert(-0x1000_0000_0000_0000 <= a * b <= 0x1000_0000_0000_0000) by (nonlinear_arith)
            requires
                -0x4000_0000 <= a <= 0x4000_0000,
                -0x4000_0000 <= b <= 0x4000_0000,
        ;
    }
    a * b
}

/// Compute the barycentric weights of the sample point `(px, py)`
/// with respect to the triangle `a b c`, using only x/y components.
/// A degenerate (zero-area) triangle yields the sentinel weights.
pub fn barycentric(px: i64, py: i64, a: Vec3, b: Vec3, c: Vec3) -> (r: BaryWeights)
    requires
        -RASTER_LIMIT <= px <= RASTER_LIMIT,
        -RASTER_LIMIT <= py <= RASTER_LIMIT,
        in_raster_xy(a),
        in_raster_xy(b),
        in_raster_xy(c),
    ensures
        bary_den(a, b, c) == 0 ==> r == (BaryWeights { n0: -1i64, n1: 1i64, n2: 1i64, den: 0i64 }),
        bary_den(a, b, c) != 0 ==> {
            &&& r.den == w_den(a, b, c)
            &&& r.den > 0
            &&& r.n0 == w_n0(a, b, c, px as int, py as int)
            &&& r.n1 == w_n1(a, b, c, px as int, py as int)
            &&& r.n2 == w_n2(a, b, c, px as int, py as int)
            &&& r.n0 + r.n1 + r.n2 == r.den
        },
{
    let den: i64 = mul_raster(b.x - a.x, c.y - a.y) - mul_raster(c.x - a.x, b.y - a.y);
    let u: i64 = mul_raster(c.x - a.x, a.y - py) - mul_raster(a.x - px, c.y - a.y);
    let v: i64 = mul_raster(a.x - px, b.y - a.y) - mul_raster(b.x - a.x, a.y - py);
    proof {
        lemma_sign_mul(bary_sgn(a, b, c), bary_u_num(a, b, c, px as int, py as int));
        lemma_sign_mul(bary_sgn(a, b, c), bary_v_num(a, b, c, px as int, py as int));
    }
    if den == 0 {
        BaryWeights { n0: -1, n1: 1, n2: 1, den: 0 }
    } else if den > 0 {
        BaryWeights { n0: den - u - v, n1: u, n2: v, den }
    } else {
        BaryWeights { n0: -den - (-u) - (-v), n1: -u, n2: -v, den: -den }
    }
}

/// Multiplying by a sign is the identity or the negation.
proof fn lemma_sign_mul(s: int, x: int)
    requires
        s == 1 || s == -1,
    ensures
        s == 1 ==> s * x == x,
        s == -1 ==> s * x == -x,
{
    assert(1 * x == x) by (nonlinear_arith);
    assert((-1) * x == -x) by (nonlinear_arith);
}

/// The x/y components of a raster position are within bounds.
pub open spec fn in_raster_xy(v: Vec3) -> bool {
    &&& -RASTER_LIMIT <= v.x <= RASTER_LIMIT
    &&& -RASTER_LIMIT <= v.y <= RASTER_LIMIT
}

/// The pixel column or row a fixed-point coordinate lands on
/// (truncation toward zero, the float-to-int cast convention).
pub open spec fn floor_px(c: int) -> int {
    tdiv(c, FX_ONE as int)
}

/// Clamp into `[0, hi]`.
pub open spec fn clamp_to(v: int, hi: int) -> int {
    if v < 0 {
        0
    } else if v > hi {
        hi
    } else {
        v
    }
}

pub open spec fn min3(a: int, b: int, c: int) -> int {
    if a <= b && a <= c {
        a
    } else if b <= c {
        b
    } else {
        c
    }
}

pub open spec fn max3(a: int, b: int, c: int) -> int {
    if a >= b && a >= c {
        a
    } else if b >= c {
        b
    } else {
        c
    }
}

/// Left edge of the clamped bounding box.
pub open spec fn bb_x_lo(v: [Vertex; 3], w: int) -> int {
    clamp_to(
        min3(
            floor_px(v[0].gl_position.x as int),
            floor_px(v[1].gl_position.x as int),
            floor_px(v[2].gl_position.x as int),
        ),
        w - 1,
    )
}

/// Right edge of the clamped bounding box.
pub open spec fn bb_x_hi(v: [Vertex; 3], w: int) -> int {
    clamp_to(
        max3(
            floor_px(v[0].gl_position.x as int),
            floor_px(v[1].gl_position.x as int),
            floor_px(v[2].gl_position.x as int),
        ),
        w - 1,
    )
}

/// Bottom edge of the clamped bounding box.
pub open spec fn bb_y_lo(v: [Vertex; 3], h: int) -> int {
    clamp_to(
        min3(
            floor_px(v[0].gl_position.y as int),
            floor_px(v[1].gl_position.y as int),
            floor_px(v[2].gl_position.y as int),
        ),
        h - 1,
    )
}

/// Top edge of the clamped bounding box.
pub open spec fn bb_y_hi(v: [Vertex; 3], h: int) -> int {
    clamp_to(
        max3(
            floor_px(v[0].gl_position.y as int),
            floor_px(v[1].gl_position.y as int),
            floor_px(v[2].gl_position.y as int),
        ),
        h - 1,
    )
}

/// A pixel is covered when it lies in the clamped bounding box and
/// its center passes the inside test.
pub open spec fn covered(v: [Vertex; 3], w: int, h: int, x: int, y: int) -> bool {
    &&& bb_x_lo(v, w) <= x <= bb_x_hi(v, w)
    &&& bb_y_lo(v, h) <= y <= bb_y_hi(v, h)
    &&& inside(
        v[0].gl_position,
        v[1].gl_position,
        v[2].gl_position,
        x * FX_ONE,
        y * FX_ONE,
    )
}

/// Meaning of barycentric interpolation of a per-vertex scalar.
pub open spec fn interp3_spec(n0: int, n1: int, n2: int, den: int, a0: int, a1: int, a2: int) -> int {
    tdiv(n0 * a0 + n1 * a1 + n2 * a2, den)
}

/// The interpolated depth of the triangle at pixel `(x, y)`.
pub open spec fn tri_z(v: [Vertex; 3], x: int, y: int) -> int {
    let a = v[0].gl_position;
    let b = v[1].gl_position;
    let c = v[2].gl_position;
    interp3_spec(
        w_n0(a, b, c, x * FX_ONE, y * FX_ONE),
        w_n1(a, b, c, x * FX_ONE, y * FX_ONE),
        w_n2(a, b, c, x * FX_ONE, y * FX_ONE),
        w_den(a, b, c),
        a.z as int,
        b.z as int,
        c.z as int,
    )
}

/// What one rasterized triangle leaves in the cell `(x, y)`: the
/// fragment color and its depth where the pixel is covered, passes
/// the strictly-greater depth test and is not discarded; otherwise
/// the old contents.
pub open spec fn shade_cell<S: Shader>(
    s: S,
    v: [Vertex; 3],
    w: int,
    h: int,
    x: int,
    y: int,
    oldc: Rgb8,
    oldz: i64,
) -> (Rgb8, i64) {
    let a = v[0].gl_position;
    let b = v[1].gl_position;
    let c = v[2].gl_position;
    if covered(v, w, h, x, y) && tri_z(v, x, y) > oldz {
        match s.fragment_spec(
            v,
            w_n0(a, b, c, x * FX_ONE, y * FX_ONE),
            w_n1(a, b, c, x * FX_ONE, y * FX_ONE),
            w_n2(a, b, c, x * FX_ONE, y * FX_ONE),
            w_den(a, b, c),
        ) {
            Some(col) => (col, tri_z(v, x, y) as i64),
            None => (oldc, oldz),
        }
    } else {
        (oldc, oldz)
    }
}

/// A convex combination of bounded scalars is bounded the same way.
pub proof fn lemma_interp_bound(n0: int, n1: int, n2: int, den: int, a0: int, a1: int, a2: int, l: int)
    requires
        n0 >= 0,
        n1 >= 0,
        n2 >= 0,
        den == n0 + n1 + n2,
        den > 0,
        l >= 0,
        -l <= a0 <= l,
        -l <= a1 <= l,
        -l <= a2 <= l,
    ensures
        -l * den <= n0 * a0 + n1 * a1 + n2 * a2 <= l * den,
        -l <= interp3_spec(n0, n1, n2, den, a0, a1, a2) <= l,
{
    assert(-(n0 * l) <= n0 * a0 <= n0 * l) by (nonlinear_arith)
        requires
            n0 >= 0,
            -l <= a0 <= l,
    ;
    assert(-(n1 * l) <= n1 * a1 <= n1 * l) by (nonlinear_arith)
        requires
            n1 >= 0,
            -l <= a1 <= l,
    ;
    assert(-(n2 * l) <= n2 * a2 <= n2 * l) by (nonlinear_arith)
        requires
            n2 >= 0,
            -l <= a2 <= l,
    ;
    assert(n0 * l + n1 * l + n2 * l == (n0 + n1 + n2) * l) by (nonlinear_arith);
    assert((n0 + n1 + n2) * l == l * den) by (nonlinear_arith)
        requires
            den == n0 + n1 + n2,
    ;
    assert(-l * den == -(l * den)) by (nonlinear_arith);
    lemma_tdiv_range(n0 * a0 + n1 * a1 + n2 * a2, den, l);
}

/// Barycentric interpolation of one per-vertex scalar, exact.
pub fn interp3(w: &BaryWeights, a0: i64, a1: i64, a2: i64) -> (r: i64)
    requires
        w.den > 0,
        w.n0 >= 0,
        w.n1 >= 0,
        w.n2 >= 0,
        w.n0 + w.n1 + w.n2 == w.den,
        -RASTER_LIMIT <= a0 <= RASTER_LIMIT,
        -RASTER_LIMIT <= a1 <= RASTER_LIMIT,
        -RASTER_LIMIT <= a2 <= RASTER_LIMIT,
    ensures
        r == interp3_spec(w.n0 as int, w.n1 as int, w.n2 as int, w.den as int, a0 as int, a1 as int, a2 as int),
        -RASTER_LIMIT <= r <= RASTER_LIMIT,
{
    proof {
        lemma_i64_prod_fits(w.n0 as int, a0 as int);
        lemma_i64_prod_fits(w.n1 as int, a1 as int);
        lemma_i64_prod_fits(w.n2 as int, a2 as int);
        lemma_interp_bound(
            w.n0 as int,
            w.n1 as int,
            w.n2 as int,
            w.den as int,
            a0 as int,
            a1 as int,
            a2 as int,
            RASTER_LIMIT as int,
        );
    }
    let s: i128 = (w.n0 as i128) * (a0 as i128) + (w.n1 as i128) * (a1 as i128) + (w.n2 as i128)
        * (a2 as i128);
    let q: i128 = crate::fx::tdiv_i128(s, w.den as i128);
    proof {
        lemma_tdiv_range(s as int, w.den as int, RASTER_LIMIT as int);
    }
    q as i64
}

/// A weight times a raster-bounded scalar stays far inside `i128`.
proof fn lemma_i64_prod_fits(a: int, b: int)
    requires
        -0x8000_0000_0000_0000 <= a <= 0x7fff_ffff_ffff_ffff,
        -0x1000_0000 <= b <= 0x1000_0000,
    ensures
        -0x1000_0000_0000_0000_0000_0000 <= a * b <= 0x1000_0000_0000_0000_0000_0000,
{
    assert(-0x1000_0000_0000_0000_0000_0000 <= a * b <= 0x1000_0000_0000_0000_0000_0000)
        by (nonlinear_arith)
        requires
            -0x8000_0000_0000_0000 <= a <= 0x7fff_ffff_ffff_ffff,
            -0x1000_0000 <= b <= 0x1000_0000,
    ;
}

fn min3_exec(a: i64, b: i64, c: i64) -> (r: i64)
    ensures
        r == min3(a as int, b as int, c as int),
{
    if a <= b && a <= c {
        a
    } else if b <= c {
        b
    } else {
        c
    }
}

fn max3_exec(a: i64, b: i64, c: i64) -> (r: i64)
    ensures
        r == max3(a as int, b as int, c as int),
{
    if a >= b && a >= c {
        a
    } else if b >= c {
        b
    } else {
        c
    }
}

fn clamp_px(v: i64, hi: u32) -> (r: u32)
    requires
        hi <= 0xFFF,
        -0x1000 <= v <= 0x1000,
    ensures
        r == clamp_to(v as int, hi as int),
        r <= hi,
{
    if v < 0 {
        0
    } else if v > hi as i64 {
        hi
    } else {
        v as u32
    }
}

/// Rasterize one triangle: scan its clamped bounding box, test each
/// pixel center's barycentric weights, depth-test the interpolated z
/// against the buffer with `>`, run the fragment stage, and write
/// color and depth together unless the fragment is discarded.  Every
/// cell of the target ends up exactly as `shade_cell` says; a
/// degenerate triangle changes nothing.
pub fn triangle<S: Shader>(image: &mut FrameBuffer, zbuffer: &mut Vec<i64>, shader: &S, v: &[Vertex;
    3])
    requires
        old(image).wf(),
        old(zbuffer)@.len() == old(image).width * old(image).height,
        shader.wf(),
        vertex_in_range(v[0]),
        vertex_in_range(v[1]),
        vertex_in_range(v[2]),
    ensures
        final(image).wf(),
        final(image).width == old(image).width,
        final(image).height == old(image).height,
        final(zbuffer)@.len() == old(zbuffer)@.len(),
        forall|x: int, y: int|
            0 <= x < old(image).width && 0 <= y < old(image).height ==> ((#[trigger] final(image).pix(x, y)) == shade_cell(
                *shader,
                *v,
                old(image).width as int,
                old(image).height as int,
                x,
                y,
                old(image).pix(x, y),
                old(zbuffer)@[x + y * old(image).width],
            ).0 && final(zbuffer)@[x + y * old(image).width] == shade_cell(
                *shader,
                *v,
                old(image).width as int,
                old(image).height as int,
                x,
                y,
                old(image).pix(x, y),
                old(zbuffer)@[x + y * old(image).width],
            ).1),
{
    let ghost img0 = *old(image);
    let ghost zb0 = old(zbuffer)@;
    let w: u32 = image.width;
    let h: u32 = image.height;
    let a = v[0].gl_position;
    let b = v[1].gl_position;
    let c = v[2].gl_position;
    let x_lo: u32 = clamp_px(
        min3_exec(floor_px_exec(a.x), floor_px_exec(b.x), floor_px_exec(c.x)),
        w - 1,
    );
    let x_hi: u32 = clamp_px(
        max3_exec(floor_px_exec(a.x), floor_px_exec(b.x), floor_px_exec(c.x)),
        w - 1,
    );
    let y_lo: u32 = clamp_px(
        min3_exec(floor_px_exec(a.y), floor_px_exec(b.y), floor_px_exec(c.y)),
        h - 1,
    );
    let y_hi: u32 = clamp_px(
        max3_exec(floor_px_exec(a.y), floor_px_exec(b.y), floor_px_exec(c.y)),
        h - 1,
    );
    proof {
        assert(x_lo == bb_x_lo(*v, w as int));
        assert(x_hi == bb_x_hi(*v, w as int));
        assert(y_lo == bb_y_lo(*v, h as int));
        assert(y_hi == bb_y_hi(*v, h as int));
        assert(x_lo <= x_hi);
        assert(y_lo <= y_hi);
    }
    let mut x: u32 = x_lo;
    while x <= x_hi
        invariant
            x_lo <= x <= x_hi + 1,
            x_hi <= w - 1,
            y_hi <= h - 1,
            image.wf(),
            image.width == w,
            image.height == h,
            zbuffer@.len() == w * h,
            img0.wf(),
            img0.width == w,
            img0.height == h,
            zb0.len() == w * h,
            shader.wf(),
            vertex_in_range(v[0]),
            vertex_in_range(v[1]),
            vertex_in_range(v[2]),
            a == v[0].gl_position,
            b == v[1].gl_position,
            c == v[2].gl_position,
            x_lo == bb_x_lo(*v, w as int),
            x_hi == bb_x_hi(*v, w as int),
            y_lo == bb_y_lo(*v, h as int),
            y_hi == bb_y_hi(*v, h as int),
            forall|i: int, j: int|
                0 <= i < w && 0 <= j < h && x_lo <= i <= x_hi && y_lo <= j <= y_hi && i < x ==> ((
                #[trigger] image.pix(i, j)) == shade_cell(
                    *shader,
                    *v,
                    w as int,
                    h as int,
                    i,
                    j,
                    img0.pix(i, j),
                    zb0[i + j * w],
                ).0 && zbuffer@[i + j * w] == shade_cell(
                    *shader,
                    *v,
                    w as int,
                    h as int,
                    i,
                    j,
                    img0.pix(i, j),
                    zb0[i + j * w],
                ).1),
            forall|i: int, j: int|
                0 <= i < w && 0 <= j < h && !(x_lo <= i <= x_hi && y_lo <= j <= y_hi && i < x)
                    ==> ((#[trigger] image.pix(i, j)) == img0.pix(i, j) && zbuffer@[i + j * w]
                    == zb0[i + j * w]),
        decreases x_hi + 1 - x,
    {
        let mut y: u32 = y_lo;
        while y <= y_hi
            invariant
                x_lo <= x <= x_hi,
                y_lo <= y <= y_hi + 1,
                x_hi <= w - 1,
                y_hi <= h - 1,
                image.wf(),
                image.width == w,
                image.height == h,
                zbuffer@.len() == w * h,
                img0.wf(),
                img0.width == w,
                img0.height == h,
                zb0.len() == w * h,
                shader.wf(),
                vertex_in_range(v[0]),
                vertex_in_range(v[1]),
                vertex_in_range(v[2]),
                a == v[0].gl_position,
                b == v[1].gl_position,
                c == v[2].gl_position,
                x_lo == bb_x_lo(*v, w as int),
                x_hi == bb_x_hi(*v, w as int),
                y_lo == bb_y_lo(*v, h as int),
                y_hi == bb_y_hi(*v, h as int),
                forall|i: int, j: int|
                    0 <= i < w && 0 <= j < h && x_lo <= i <= x_hi && y_lo <= j <= y_hi && (i < x
                        || (i == x && j < y)) ==> ((#[trigger] image.pix(i, j)) == shade_cell(
                        *shader,
                        *v,
                        w as int,
                        h as int,
                        i,
                        j,
                        img0.pix(i, j),
                        zb0[i + j * w],
                    ).0 && zbuffer@[i + j * w] == shade_cell(
                        *shader,
                        *v,
                        w as int,
                        h as int,
                        i,
                        j,
                        img0.pix(i, j),
                        zb0[i + j * w],
                    ).1),
                forall|i: int, j: int|
                    0 <= i < w && 0 <= j < h && !(x_lo <= i <= x_hi && y_lo <= j <= y_hi && (i < x
                        || (i == x && j < y))) ==> ((#[trigger] image.pix(i, j)) == img0.pix(i, j)
                        && zbuffer@[i + j * w] == zb0[i + j * w]),
            decreases y_hi + 1 - y,
        {
            let ghost img_pre = *image;
            let ghost zb_pre = zbuffer@;
            let px: i64 = (x as i64) * FX_ONE;
            let py: i64 = (y as i64) * FX_ONE;
            let bw = barycentric(px, py, a, b, c);
            proof {
                lemma_grid_index(x as int, y as int, w as int, h as int);
                lemma_dims_bound(w as int, h as int);
                assert(img_pre.pix(x as int, y as int) == img0.pix(x as int, y as int));
                assert(zb_pre[x as int + (y as int) * w] == zb0[x as int + (y as int) * w]);
            }
            let idx: usize = (x as usize) + (y as usize) * (w as usize);
            let d: i64 = zbuffer[idx];
            let ghost cell = shade_cell(
                *shader,
                *v,
                w as int,
                h as int,
                x as int,
                y as int,
                img0.pix(x as int, y as int),
                zb0[x as int + (y as int) * w],
            );
            if bw.n0 >= 0 && bw.n1 >= 0 && bw.n2 >= 0 {
                let z = interp3(&bw, a.z, b.z, c.z);
                proof {
                    assert(bary_den(a, b, c) != 0);
                    assert(z == tri_z(*v, x as int, y as int));
                    assert(covered(*v, w as int, h as int, x as int, y as int));
                }
                if z > d {
                    let frag = shader.fragment(v, &bw);
                    match frag {
                        Some(col) => {
                            image.set(x, y, col);
                            zbuffer[idx] = z;
                            proof {
                                assert(cell == (col, z));
                            }
                        },
                        None => {
                            proof {
                                assert(cell == (
                                    img0.pix(x as int, y as int),
                                    zb0[x as int + (y as int) * w],
                                ));
                            }
                        },
                    }
                } else {
                    proof {
                        assert(!(tri_z(*v, x as int, y as int) > zb0[x as int + (y as int) * w]));
                        assert(cell == (
                            img0.pix(x as int, y as int),
                            zb0[x as int + (y as int) * w],
                        ));
                    }
                }
            } else {
                proof {
                    assert(!inside(a, b, c, px as int, py as int));
                    assert(cell == (img0.pix(x as int, y as int), zb0[x as int + (y as int) * w]));
                }
            }
            proof {
                assert forall|i: int, j: int|
                    0 <= i < w && 0 <= j < h && x_lo <= i <= x_hi && y_lo <= j <= y_hi && (i < x
                        || (i == x && j < y + 1)) implies ((#[trigger] image.pix(i, j))
                    == shade_cell(
                    *shader,
                    *v,
                    w as int,
                    h as int,
                    i,
                    j,
                    img0.pix(i, j),
                    zb0[i + j * w],
                ).0 && zbuffer@[i + j * w] == shade_cell(
                    *shader,
                    *v,
                    w as int,
                    h as int,
                    i,
                    j,
                    img0.pix(i, j),
                    zb0[i + j * w],
                ).1) by {
                    lemma_grid_index(i, j, w as int, h as int);
                    if i == x && j == y {
                    } else {
                        lemma_grid_index_injective(i, j, x as int, y as int, w as int, h as int);
                        assert(image.pix(i, j) == img_pre.pix(i, j));
                        assert(zbuffer@[i + j * w] == zb_pre[i + j * w]);
                    }
                }
                assert forall|i: int, j: int|
                    0 <= i < w && 0 <= j < h && !(x_lo <= i <= x_hi && y_lo <= j <= y_hi && (i < x
                        || (i == x && j < y + 1))) implies ((#[trigger] image.pix(i, j))
                    == img0.pix(i, j) && zbuffer@[i + j * w] == zb0[i + j * w]) by {
                    lemma_grid_index(i, j, w as int, h as int);
                    lemma_grid_index_injective(i, j, x as int, y as int, w as int, h as int);
                    assert(image.pix(i, j) == img_pre.pix(i, j));
                    assert(zbuffer@[i + j * w] == zb_pre[i + j * w]);
                    assert(img_pre.pix(i, j) == img0.pix(i, j));
                }
            }
            y = y + 1;
        }
        proof {
            assert forall|i: int, j: int|
                0 <= i < w && 0 <= j < h && x_lo <= i <= x_hi && y_lo <= j <= y_hi && i < x + 1
                    implies ((#[trigger] image.pix(i, j)) == shade_cell(
                *shader,
                *v,
                w as int,
                h as int,
                i,
                j,
                img0.pix(i, j),
                zb0[i + j * w],
            ).0 && zbuffer@[i + j * w] == shade_cell(
                *shader,
                *v,
                w as int,
                h as int,
                i,
                j,
                img0.pix(i, j),
                zb0[i + j * w],
            ).1) by {
                lemma_grid_index(i, j, w as int, h as int);
                assert(i < x || (i == x && j < y));
            }
            assert forall|i: int, j: int|
                0 <= i < w && 0 <= j < h && !(x_lo <= i <= x_hi && y_lo <= j <= y_hi && i < x + 1)
                    implies ((#[trigger] image.pix(i, j)) == img0.pix(i, j) && zbuffer@[i + j * w]
                == zb0[i + j * w]) by {
                lemma_grid_index(i, j, w as int, h as int);
                assert(!(x_lo <= i <= x_hi && y_lo <= j <= y_hi && (i < x || (i == x && j < y))));
            }
        }
        x = x + 1;
    }
    proof {
        assert forall|x0: int, y0: int| 0 <= x0 < w && 0 <= y0 < h implies ((#[trigger] image.pix(
            x0,
            y0,
        )) == shade_cell(
            *shader,
            *v,
            w as int,
            h as int,
            x0,
            y0,
            img0.pix(x0, y0),
            zb0[x0 + y0 * w],
        ).0 && zbuffer@[x0 + y0 * w] == shade_cell(
            *shader,
            *v,
            w as int,
            h as int,
            x0,
            y0,
            img0.pix(x0, y0),
            zb0[x0 + y0 * w],
        ).1) by {
            if !(x_lo <= x0 <= x_hi && y_lo <= y0 <= y_hi) {
                assert(!covered(*v, w as int, h as int, x0, y0));
            }
        }
    }
}

/// The barycentric identity: the sign-normalized weights recombine
/// the vertices into `den` times the sample point, on both axes.
proof fn lemma_neg_mul(x: int, y: int)
    ensures
        (-x) * y == -(x * y),
{
    assert((-x) * y == -(x * y)) by (nonlinear_arith);
}

proof fn lemma_bary_identity(a: Vec3, b: Vec3, c: Vec3, px: int, py: int)
    ensures
        w_n0(a, b, c, px, py) * a.x + w_n1(a, b, c, px, py) * b.x + w_n2(a, b, c, px, py) * c.x
            == w_den(a, b, c) * px,
        w_n0(a, b, c, px, py) * a.y + w_n1(a, b, c, px, py) * b.y + w_n2(a, b, c, px, py) * c.y
            == w_den(a, b, c) * py,
{
    let den = bary_den(a, b, c);
    let u = bary_u_num(a, b, c, px, py);
    let v = bary_v_num(a, b, c, px, py);
    let s = bary_sgn(a, b, c);
    let e1 = b.x - a.x;
    let e2 = c.x - a.x;
    let f1 = b.y - a.y;
    let f2 = c.y - a.y;
    let gx = a.x - px;
    let gy = a.y - py;
    assert(den == e1 * f2 - e2 * f1);
    assert(u == e2 * gy - gx * f2);
    assert(v == gx * f1 - e1 * gy);
    assert(u * e1 + v * e2 == -(gx * den)) by (nonlinear_arith)
        requires
            u == e2 * gy - gx * f2,
            v == gx * f1 - e1 * gy,
            den == e1 * f2 - e2 * f1,
    ;
    assert(u * f1 + v * f2 == -(gy * den)) by (nonlinear_arith)
        requires
            u == e2 * gy - gx * f2,
            v == gx * f1 - e1 * gy,
            den == e1 * f2 - e2 * f1,
    ;
    assert((den - u - v) * a.x + u * b.x + v * c.x == den * px) by (nonlinear_arith)
        requires
            u * e1 + v * e2 == -(gx * den),
            e1 == b.x - a.x,
            e2 == c.x - a.x,
            gx == a.x - px,
    ;
    assert((den - u - v) * a.y + u * b.y + v * c.y == den * py) by (nonlinear_arith)
        requires
            u * f1 + v * f2 == -(gy * den),
            f1 == b.y - a.y,
            f2 == c.y - a.y,
            gy == a.y - py,
    ;
    lemma_sign_mul(s, u);
    lemma_sign_mul(s, v);
    lemma_sign_mul(s, den - u - v);
    if s == 1 {
        assert(w_den(a, b, c) == den);
        assert(w_n0(a, b, c, px, py) == den - u - v);
    } else {
        assert(w_den(a, b, c) == -den);
        assert(w_n0(a, b, c, px, py) == -(den - u - v)) by {
            assert(w_n0(a, b, c, px, py) == -den - (-u) - (-v));
        }
        lemma_neg_mul(den - u - v, a.x as int);
        lemma_neg_mul(u, b.x as int);
        lemma_neg_mul(v, c.x as int);
        lemma_neg_mul(den, px);
        lemma_neg_mul(den - u - v, a.y as int);
        lemma_neg_mul(u, b.y as int);
        lemma_neg_mul(v, c.y as int);
        lemma_neg_mul(den, py);
    }
}

/// One candidate weight triple for expressing `(px, py)` as a convex
/// combination of the triangle's vertices, scaled by the doubled area.
pub open spec fn convex_witness(
    a: Vec3,
    b: Vec3,
    c: Vec3,
    px: int,
    py: int,
    l0: int,
    l1: int,
    l2: int,
) -> bool {
    &&& l0 >= 0
    &&& l1 >= 0
    &&& l2 >= 0
    &&& l0 + l1 + l2 == w_den(a, b, c)
    &&& l0 * a.x + l1 * b.x + l2 * c.x == w_den(a, b, c) * px
    &&& l0 * a.y + l1 * b.y + l2 * c.y == w_den(a, b, c) * py
}

/// For a triangle of nonzero area, the inside test marks exactly the
/// mathematical triangle: a sample point passes it if and only if it
/// is a convex combination of the three vertices (weights
/// nonnegative and summing to the doubled area, recombining to the
/// point on both axes).
pub proof fn lemma_inside_is_convex(a: Vec3, b: Vec3, c: Vec3, px: int, py: int)
    requires
        bary_den(a, b, c) != 0,
    ensures
        inside(a, b, c, px, py) <==> (exists|l0: int, l1: int, l2: int|
            #[trigger] convex_witness(a, b, c, px, py, l0, l1, l2)),
{
    let den = w_den(a, b, c);
    let n0 = w_n0(a, b, c, px, py);
    let n1 = w_n1(a, b, c, px, py);
    let n2 = w_n2(a, b, c, px, py);
    lemma_bary_identity(a, b, c, px, py);
    if inside(a, b, c, px, py) {
        assert(convex_witness(a, b, c, px, py, n0, n1, n2));
    }
    if exists|l0: int, l1: int, l2: int| #[trigger] convex_witness(a, b, c, px, py, l0, l1, l2) {
        let (l0, l1, l2) = choose|l0: int, l1: int, l2: int|
            #[trigger] convex_witness(a, b, c, px, py, l0, l1, l2);
        let d1 = l1 - n1;
        let d2 = l2 - n2;
        assert(d1 * (b.x - a.x) + d2 * (c.x - a.x) == 0) by (nonlinear_arith)
            requires
                l0 + l1 + l2 == den,
                n0 + n1 + n2 == den,
                l0 * a.x + l1 * b.x + l2 * c.x == den * px,
                n0 * a.x + n1 * b.x + n2 * c.x == den * px,
                d1 == l1 - n1,
                d2 == l2 - n2,
        ;
        assert(d1 * (b.y - a.y) + d2 * (c.y - a.y) == 0) by (nonlinear_arith)
            requires
                l0 + l1 + l2 == den,
                n0 + n1 + n2 == den,
                l0 * a.y + l1 * b.y + l2 * c.y == den * py,
                n0 * a.y + n1 * b.y + n2 * c.y == den * py,
                d1 == l1 - n1,
                d2 == l2 - n2,
        ;
        assert(d1 * bary_den(a, b, c) == 0) by (nonlinear_arith)
            requires
                d1 * (b.x - a.x) + d2 * (c.x - a.x) == 0,
                d1 * (b.y - a.y) + d2 * (c.y - a.y) == 0,
                bary_den(a, b, c) == (b.x - a.x) * (c.y - a.y) - (c.x - a.x) * (b.y - a.y),
        ;
        assert(d2 * bary_den(a, b, c) == 0) by (nonlinear_arith)
            requires
                d1 * (b.x - a.x) + d2 * (c.x - a.x) == 0,
                d1 * (b.y - a.y) + d2 * (c.y - a.y) == 0,
                bary_den(a, b, c) == (b.x - a.x) * (c.y - a.y) - (c.x - a.x) * (b.y - a.y),
        ;
        assert(d1 == 0) by (nonlinear_arith)
            requires
                d1 * bary_den(a, b, c) == 0,
                bary_den(a, b, c) != 0,
        ;
        assert(d2 == 0) by (nonlinear_arith)
            requires
                d2 * bary_den(a, b, c) == 0,
                bary_den(a, b, c) != 0,
        ;
        assert(n1 == l1 && n2 == l2 && n0 == l0);
        assert(inside(a, b, c, px, py));
    }
}

/// A scaled convex combination lies between the least and greatest
/// of its points.
proof fn lemma_convex_in_range(
    l0: int,
    l1: int,
    l2: int,
    den: int,
    c0: int,
    c1: int,
    c2: int,
    s: int,
)
    requires
        l0 >= 0,
        l1 >= 0,
        l2 >= 0,
        l0 + l1 + l2 == den,
        den > 0,
        l0 * c0 + l1 * c1 + l2 * c2 == den * s,
    ensures
        min3(c0, c1, c2) <= s <= max3(c0, c1, c2),
{
    let mn = min3(c0, c1, c2);
    let mx = max3(c0, c1, c2);
    assert(l0 * c0 >= l0 * mn && l0 * c0 <= l0 * mx) by (nonlinear_arith)
        requires
            l0 >= 0,
            mn <= c0 <= mx,
    ;
    assert(l1 * c1 >= l1 * mn && l1 * c1 <= l1 * mx) by (nonlinear_arith)
        requires
            l1 >= 0,
            mn <= c1 <= mx,
    ;
    assert(l2 * c2 >= l2 * mn && l2 * c2 <= l2 * mx) by (nonlinear_arith)
        requires
            l2 >= 0,
            mn <= c2 <= mx,
    ;
    assert(l0 * mn + l1 * mn + l2 * mn == den * mn) by (nonlinear_arith)
        requires
            den == l0 + l1 + l2,
    ;
    assert(l0 * mx + l1 * mx + l2 * mx == den * mx) by (nonlinear_arith)
        requires
            den == l0 + l1 + l2,
    ;
    assert(mn <= s) by (nonlinear_arith)
        requires
            den > 0,
            den * mn <= den * s,
    ;
    assert(s <= mx) by (nonlinear_arith)
        requires
            den > 0,
            den * s <= den * mx,
    ;
}

/// The bounding-box scan loses no pixel: an on-screen pixel whose
/// center passes the inside test lies within the clamped bounding
/// box, so the set of shaded pixel candidates is exactly the
/// mathematical triangle intersected with the screen.
pub proof fn lemma_inside_within_bbox(v: [Vertex; 3], w: int, h: int, x: int, y: int)
    requires
        0 <= x < w,
        0 <= y < h,
        inside(v[0].gl_position, v[1].gl_position, v[2].gl_position, x * FX_ONE, y * FX_ONE),
    ensures
        covered(v, w, h, x, y),
{
    let a = v[0].gl_position;
    let b = v[1].gl_position;
    let c = v[2].gl_position;
    let px = x * FX_ONE;
    let py = y * FX_ONE;
    lemma_bary_identity(a, b, c, px, py);
    let den = w_den(a, b, c);
    let n0 = w_n0(a, b, c, px, py);
    let n1 = w_n1(a, b, c, px, py);
    let n2 = w_n2(a, b, c, px, py);
    lemma_convex_in_range(n0, n1, n2, den, a.x as int, b.x as int, c.x as int, px);
    lemma_convex_in_range(n0, n1, n2, den, a.y as int, b.y as int, c.y as int, py);
    crate::fx::lemma_tdiv_multiple(x, FX_ONE as int);
    crate::fx::lemma_tdiv_multiple(y, FX_ONE as int);
    let mnx = min3(a.x as int, b.x as int, c.x as int);
    let mxx = max3(a.x as int, b.x as int, c.x as int);
    let mny = min3(a.y as int, b.y as int, c.y as int);
    let mxy = max3(a.y as int, b.y as int, c.y as int);
    crate::fx::lemma_tdiv_mono(mnx, px, FX_ONE as int);
    crate::fx::lemma_tdiv_mono(px, mxx, FX_ONE as int);
    crate::fx::lemma_tdiv_mono(mny, py, FX_ONE as int);
    crate::fx::lemma_tdiv_mono(py, mxy, FX_ONE as int);
    crate::fx::lemma_tdiv_mono(mnx, a.x as int, FX_ONE as int);
    crate::fx::lemma_tdiv_mono(mnx, b.x as int, FX_ONE as int);
    crate::fx::lemma_tdiv_mono(mnx, c.x as int, FX_ONE as int);
    crate::fx::lemma_tdiv_mono(a.x as int, mxx, FX_ONE as int);
    crate::fx::lemma_tdiv_mono(b.x as int, mxx, FX_ONE as int);
    crate::fx::lemma_tdiv_mono(c.x as int, mxx, FX_ONE as int);
    crate::fx::lemma_tdiv_mono(mny, a.y as int, FX_ONE as int);
    crate::fx::lemma_tdiv_mono(mny, b.y as int, FX_ONE as int);
    crate::fx::lemma_tdiv_mono(mny, c.y as int, FX_ONE as int);
    crate::fx::lemma_tdiv_mono(a.y as int, mxy, FX_ONE as int);
    crate::fx::lemma_tdiv_mono(b.y as int, mxy, FX_ONE as int);
    crate::fx::lemma_tdiv_mono(c.y as int, mxy, FX_ONE as int);
    assert(min3(
        floor_px(a.x as int),
        floor_px(b.x as int),
        floor_px(c.x as int),
    ) == floor_px(mnx));
    assert(max3(
        floor_px(a.x as int),
        floor_px(b.x as int),
        floor_px(c.x as int),
    ) == floor_px(mxx));
    assert(min3(
        floor_px(a.y as int),
        floor_px(b.y as int),
        floor_px(c.y as int),
    ) == floor_px(mny));
    assert(max3(
        floor_px(a.y as int),
        floor_px(b.y as int),
        floor_px(c.y as int),
    ) == floor_px(mxy));
    assert(floor_px(mnx) <= x <= floor_px(mxx));
    assert(floor_px(mny) <= y <= floor_px(mxy));
    assert(bb_x_lo(v, w) <= x <= bb_x_hi(v, w));
    assert(bb_y_lo(v, h) <= y <= bb_y_hi(v, h));
}

/// A degenerate (zero-area) triangle shades no pixel: every cell
/// keeps its color and depth.
pub proof fn lemma_degenerate_shades_nothing<S: Shader>(
    s: S,
    v: [Vertex; 3],
    w: int,
    h: int,
    x: int,
    y: int,
    oldc: Rgb8,
    oldz: i64,
)
    requires
        bary_den(v[0].gl_position, v[1].gl_position, v[2].gl_position) == 0,
    ensures
        shade_cell(s, v, w, h, x, y, oldc, oldz) == (oldc, oldz),
{
}

/// The depth test is idempotent: rasterizing a triangle onto the
/// cell it just produced changes nothing, because no interpolated
/// depth is strictly greater than itself.
pub proof fn lemma_shade_idempotent<S: Shader>(
    s: S,
    v: [Vertex; 3],
    w: int,
    h: int,
    x: int,
    y: int,
    oldc: Rgb8,
    oldz: i64,
)
    requires
        vertex_in_range(v[0]),
        vertex_in_range(v[1]),
        vertex_in_range(v[2]),
    ensures
        ({
            let c1 = shade_cell(s, v, w, h, x, y, oldc, oldz);
            shade_cell(s, v, w, h, x, y, c1.0, c1.1) == c1
        }),
{
    let a = v[0].gl_position;
    let b = v[1].gl_position;
    let c = v[2].gl_position;
    let c1 = shade_cell(s, v, w, h, x, y, oldc, oldz);
    if covered(v, w, h, x, y) && tri_z(v, x, y) > oldz {
        lemma_interp_bound(
            w_n0(a, b, c, x * FX_ONE, y * FX_ONE),
            w_n1(a, b, c, x * FX_ONE, y * FX_ONE),
            w_n2(a, b, c, x * FX_ONE, y * FX_ONE),
            w_den(a, b, c),
            a.z as int,
            b.z as int,
            c.z as int,
            RASTER_LIMIT as int,
        );
        match s.fragment_spec(
            v,
            w_n0(a, b, c, x * FX_ONE, y * FX_ONE),
            w_n1(a, b, c, x * FX_ONE, y * FX_ONE),
            w_n2(a, b, c, x * FX_ONE, y * FX_ONE),
            w_den(a, b, c),
        ) {
            Some(col) => {
                assert(c1.1 == tri_z(v, x, y) as i64);
                assert(c1.1 == tri_z(v, x, y));
                assert(!(tri_z(v, x, y) > c1.1));
            },
            None => {
            },
        }
    }
}

/// The Bresenham stepper state `(y, error)` after `k` steps along
/// the major axis, with the minor coordinate clamped into
/// `[lo, hi]`.
pub open spec fn bres_state(x0: int, y0: int, x1: int, y1: int, lo: int, hi: int, k: nat) -> (
    int,
    int,
)
    decreases k,
{
    if k == 0 {
        (y0, 0)
    } else {
        let prev = bres_state(x0, y0, x1, y1, lo, hi, (k - 1) as nat);
        let e2 = prev.1 + 2 * mag(y1 - y0);
        if e2 > x1 - x0 {
            let ystep = if y1 >= y0 {
                prev.0 + 1
            } else {
                prev.0 - 1
            };
            let yc = if ystep < lo {
                lo
            } else if ystep > hi {
                hi
            } else {
                ystep
            };
            (yc, e2 - 2 * (x1 - x0))
        } else {
            (prev.0, e2)
        }
    }
}

/// The pixel plotted at step `k`: `(x, y)` along the major axis, or
/// transposed when the line is steep.
pub open spec fn bres_plot(
    steep: bool,
    x0: int,
    y0: int,
    x1: int,
    y1: int,
    lo: int,
    hi: int,
    k: int,
) -> (int, int) {
    let st = bres_state(x0, y0, x1, y1, lo, hi, k as nat);
    if steep {
        (st.0, x0 + k)
    } else {
        (x0 + k, st.0)
    }
}

/// Whether one of the first `n` steps plots `(px, py)`.
pub open spec fn line_hits_upto(
    steep: bool,
    x0: int,
    y0: int,
    x1: int,
    y1: int,
    lo: int,
    hi: int,
    n: int,
    px: int,
    py: int,
) -> bool {
    exists|k: int| 0 <= k < n && bres_plot(steep, x0, y0, x1, y1, lo, hi, k) == (px, py)
}

/// Whether the Bresenham line from `(ax, ay)` to `(bx, by)` plots
/// `(px, py)`: normalize to a shallow left-to-right segment (swap
/// axes when steep, swap endpoints when reversed), then walk the
/// stepper.
pub open spec fn line_covers(ax: int, ay: int, bx: int, by: int, px: int, py: int) -> bool {
    let steep = mag(bx - ax) < mag(by - ay);
    let c = if steep {
        (ay, ax, by, bx)
    } else {
        (ax, ay, bx, by)
    };
    let d = if c.0 > c.2 {
        (c.2, c.3, c.0, c.1)
    } else {
        c
    };
    let lo = if d.1 <= d.3 {
        d.1
    } else {
        d.3
    };
    let hi = if d.1 <= d.3 {
        d.3
    } else {
        d.1
    };
    line_hits_upto(steep, d.0, d.1, d.2, d.3, lo, hi, d.2 - d.0 + 1, px, py)
}

/// Draw a line segment between two points of the image with one
/// color, by Bresenham's algorithm: exactly the pixels the stepper
/// visits get the color, every other pixel keeps its old color.
pub fn line(image: &mut MyImage, p0: (u32, u32), p1: (u32, u32), color: Rgb8)
    requires
        old(image).wf(),
        p0.0 < old(image).spec_width(),
        p1.0 < old(image).spec_width(),
        p0.1 < old(image).spec_height(),
        p1.1 < old(image).spec_height(),
    ensures
        final(image).wf(),
        final(image).spec_width() == old(image).spec_width(),
        final(image).spec_height() == old(image).spec_height(),
        forall|px: int, py: int|
            0 <= px < old(image).spec_width() && 0 <= py < old(image).spec_height() ==> (
            #[trigger] final(image).pix(px, py)) == (if line_covers(
                p0.0 as int,
                p0.1 as int,
                p1.0 as int,
                p1.1 as int,
                px,
                py,
            ) {
                (color.r, color.g, color.b)
            } else {
                old(image).pix(px, py)
            }),
{
    let ghost img0 = *old(image);
    let (w, h) = image.dimensions();
    let ax: i64 = p0.0 as i64;
    let ay: i64 = p0.1 as i64;
    let bx: i64 = p1.0 as i64;
    let by: i64 = p1.1 as i64;
    let adx: i64 = if bx >= ax {
        bx - ax
    } else {
        ax - bx
    };
    let ady: i64 = if by >= ay {
        by - ay
    } else {
        ay - by
    };
    let steep = adx < ady;
    let cx0: i64 = if steep {
        ay
    } else {
        ax
    };
    let cy0: i64 = if steep {
        ax
    } else {
        ay
    };
    let cx1: i64 = if steep {
        by
    } else {
        bx
    };
    let cy1: i64 = if steep {
        bx
    } else {
        by
    };
    let rev = cx0 > cx1;
    let x0: i64 = if rev {
        cx1
    } else {
        cx0
    };
    let y0: i64 = if rev {
        cy1
    } else {
        cy0
    };
    let x1: i64 = if rev {
        cx0
    } else {
        cx1
    };
    let y1: i64 = if rev {
        cy0
    } else {
        cy1
    };
    let lo: i64 = if y0 <= y1 {
        y0
    } else {
        y1
    };
    let hi: i64 = if y0 <= y1 {
        y1
    } else {
        y0
    };
    let dx: i64 = x1 - x0;
    let de: i64 = 2 * (if y1 >= y0 {
        y1 - y0
    } else {
        y0 - y1
    });
    let ghost n_total: int = dx as int + 1;
    let mut err: i64 = 0;
    let mut y: i64 = y0;
    let mut x: i64 = x0;
    while x <= x1
        invariant
            x0 <= x <= x1 + 1,
            0 <= x0,
            0 <= lo <= y0 <= hi || 0 <= lo <= y1 <= hi,
            lo <= y <= hi,
            lo == (if y0 <= y1 {
                y0
            } else {
                y1
            }),
            hi == (if y0 <= y1 {
                y1
            } else {
                y0
            }),
            dx == x1 - x0,
            de == 2 * mag(y1 - y0),
            de <= 2 * dx,
            0 <= lo,
            image.wf(),
            image.spec_width() == w,
            image.spec_height() == h,
            img0.wf(),
            img0.spec_width() == w,
            img0.spec_height() == h,
            steep ==> x1 < h && hi < w,
            !steep ==> x1 < w && hi < h,
            y == bres_state(x0 as int, y0 as int, x1 as int, y1 as int, lo as int, hi as int, (x
                - x0) as nat).0,
            err == bres_state(x0 as int, y0 as int, x1 as int, y1 as int, lo as int, hi as int, (x
                - x0) as nat).1,
            -2 * dx <= err <= dx,
            forall|px: int, py: int|
                0 <= px < w && 0 <= py < h ==> (#[trigger] image.pix(px, py)) == (if line_hits_upto(
                    steep,
                    x0 as int,
                    y0 as int,
                    x1 as int,
                    y1 as int,
                    lo as int,
                    hi as int,
                    x - x0,
                    px,
                    py,
                ) {
                    (color.r, color.g, color.b)
                } else {
                    img0.pix(px, py)
                }),
        decreases x1 + 1 - x,
    {
        let ghost n_done: int = x - x0;
        let ghost img_pre = *image;
        if !steep {
            image.set(x as u32, y as u32, color);
        } else {
            image.set(y as u32, x as u32, color);
        }
        proof {
            let gx0 = x0 as int;
            let gy0 = y0 as int;
            let gx1 = x1 as int;
            let gy1 = y1 as int;
            let glo = lo as int;
            let ghi = hi as int;
            let p_new = bres_plot(steep, gx0, gy0, gx1, gy1, glo, ghi, n_done);
            assert(p_new == (if steep {
                (y as int, x as int)
            } else {
                (x as int, y as int)
            }));
            assert forall|px: int, py: int| 0 <= px < w && 0 <= py < h implies (#[trigger] image.pix(
                px,
                py,
            )) == (if line_hits_upto(steep, gx0, gy0, gx1, gy1, glo, ghi, n_done + 1, px, py) {
                (color.r, color.g, color.b)
            } else {
                img0.pix(px, py)
            }) by {
                if px == p_new.0 && py == p_new.1 {
                    assert(bres_plot(steep, gx0, gy0, gx1, gy1, glo, ghi, n_done) == (px, py));
                    assert(line_hits_upto(steep, gx0, gy0, gx1, gy1, glo, ghi, n_done + 1, px, py));
                } else {
                    assert(image.pix(px, py) == img_pre.pix(px, py));
                    if line_hits_upto(steep, gx0, gy0, gx1, gy1, glo, ghi, n_done + 1, px, py) {
                        let k = choose|k: int|
                            0 <= k < n_done + 1 && bres_plot(
                                steep,
                                gx0,
                                gy0,
                                gx1,
                                gy1,
                                glo,
                                ghi,
                                k,
                            ) == (px, py);
                        assert(k < n_done);
                        assert(line_hits_upto(steep, gx0, gy0, gx1, gy1, glo, ghi, n_done, px, py));
                    }
                }
            }
        }
        err = err + de;
        if err > dx {
            if y1 >= y0 {
                if y < hi {
                    y = y + 1;
                }
            } else {
                if y > lo {
                    y = y - 1;
                }
            }
            err = err - 2 * dx;
        }
        x = x + 1;
    }
}

/// A decoded texture: a pixel grid in row-major order with row 0 at
/// the image's top, `stride` bytes per texel (3 without an alpha
/// channel, 4 with one), sampled by normalized coordinates.
pub struct Texture {
    pub width: u32,
    pub height: u32,
    pub stride: u32,
    pub data: Vec<u8>,
}

impl Texture {
    /// Dimensions positive and bounded, a recognized stride, and a
    /// byte buffer of exactly the implied length.
    pub open spec fn wf(self) -> bool {
        &&& 1 <= self.width <= 4096
        &&& 1 <= self.height <= 4096
        &&& (self.stride == 3 || self.stride == 4)
        &&& self.data@.len() == self.width * self.height * self.stride
    }

    /// Validate a decoded buffer against its claimed dimensions.
    pub fn new(width: u32, height: u32, stride: u32, data: Vec<u8>) -> (r: Option<Texture>)
        ensures
            r is Some <==> (1 <= width <= 4096 && 1 <= height <= 4096 && (stride == 3 || stride
                == 4) && data@.len() == width * height * stride),
            r is Some ==> ({
                let t = r.unwrap();
                t.wf() && t.width == width && t.height == height && t.stride == stride && t.data@
                    == data@
            }),
    {
        if 1 <= width && width <= 4096 && 1 <= height && height <= 4096 && (stride == 3 || stride
            == 4) {
            proof {
                assert(width * height * stride <= 0x1000 * 0x1000 * 4) by (nonlinear_arith)
                    requires
                        1 <= width <= 0x1000,
                        1 <= height <= 0x1000,
                        stride <= 4,
                ;
            }
            if data.len() == (width as usize) * (height as usize) * (stride as usize) {
                Some(Texture { width, height, stride, data })
            } else {
                None
            }
        } else {
            None
        }
    }
}

/// The margin that keeps a coordinate of exactly one inside the last
/// texel (about 0.001 in fixed point).
pub const TEX_EPS: i64 = 66;

/// The texel index a normalized coordinate maps to along one axis:
/// `floor(u * (extent - eps))`.
pub open spec fn tex_axis_spec(u: int, extent: int) -> int {
    tdiv(u * (extent * FX_ONE - TEX_EPS), 0x1_0000_0000)
}

/// Any normalized coordinate in `[0, 1]` lands on a texel index in
/// bounds, for any extent of at least one texel: the epsilon pulls
/// `u = 1` back inside the last texel, and zero maps to zero.
pub proof fn lemma_tex_axis_in_bounds(u: int, extent: int)
    requires
        0 <= u <= FX_ONE,
        1 <= extent <= 4096,
    ensures
        0 <= tex_axis_spec(u, extent) < extent,
{
    let term = extent * FX_ONE - TEX_EPS;
    let p = u * term;
    assert(0 < term) by (nonlinear_arith)
        requires
            extent >= 1,
            term == extent * FX_ONE - TEX_EPS,
    ;
    assert(0 <= p) by (nonlinear_arith)
        requires
            u >= 0,
            term > 0,
            p == u * term,
    ;
    assert(p < extent * 0x1_0000_0000) by (nonlinear_arith)
        requires
            0 <= u <= FX_ONE,
            0 < term,
            term == extent * FX_ONE - TEX_EPS,
            p == u * term,
            1 <= extent,
    ;
    assert(tdiv(p, 0x1_0000_0000) == p / 0x1_0000_0000);
    vstd::arithmetic::div_mod::lemma_multiply_divide_lt(p, 0x1_0000_0000, extent);
    assert(p / 0x1_0000_0000 >= 0) by (nonlinear_arith)
        requires
            p >= 0,
    ;
}

fn tex_axis(u: i64, extent: u32) -> (r: u32)
    requires
        0 <= u <= FX_ONE,
        1 <= extent <= 4096,
    ensures
        r == tex_axis_spec(u as int, extent as int),
        r < extent,
{
    let term: i64 = (extent as i64) * FX_ONE - TEX_EPS;
    let q: i64 = crate::fx::mul_div_sat(u, term, 0x1_0000_0000);
    proof {
        lemma_tex_axis_in_bounds(u as int, extent as int);
    }
    q as u32
}

/// The bytes of the sampled texel: the v axis is flipped (row 0 of
/// the decoded buffer is the texture's top row but is addressed from
/// the bottom), and the channel offset follows the buffer's stride.
pub open spec fn texel_spec(t: Texture, u: int, v: int) -> (u8, u8, u8) {
    let ix = tex_axis_spec(u, t.width as int);
    let jx = tex_axis_spec(v, t.height as int);
    let row = t.height - 1 - jx;
    let off = t.stride * (row * t.width + ix);
    (t.data@[off], t.data@[off + 1], t.data@[off + 2])
}

/// Sample a texture at normalized coordinates `(u, v)` in `[0, 1]^2`.
pub fn texture_2d(texture: &Texture, u: i64, v: i64) -> (r: Rgb8)
    requires
        texture.wf(),
        0 <= u <= FX_ONE,
        0 <= v <= FX_ONE,
    ensures
        (r.r, r.g, r.b) == texel_spec(*texture, u as int, v as int),
{
    let ix: u32 = tex_axis(u, texture.width);
    let jx: u32 = tex_axis(v, texture.height);
    let row: u32 = texture.height - 1 - jx;
    proof {
        lemma_grid_index(ix as int, row as int, texture.width as int, texture.height as int);
        lemma_dims_bound(texture.width as int, texture.height as int);
        assert(texture.stride * (row * texture.width + ix) + 2 < texture.width * texture.height
            * texture.stride) by (nonlinear_arith)
            requires
                0 <= row * texture.width + ix < texture.width * texture.height,
                3 <= texture.stride <= 4,
                texture.width * texture.height <= 0x100_0000,
        ;
    }
    let off: usize = (texture.stride as usize) * ((row as usize) * (texture.width as usize) + (
    ix as usize));
    Rgb8 { r: texture.data[off], g: texture.data[off + 1], b: texture.data[off + 2] }
}

/// The pixel index a raster coordinate truncates to.
fn floor_px_exec(c: i64) -> (r: i64)
    requires
        -RASTER_LIMIT <= c <= RASTER_LIMIT,
    ensures
        r == floor_px(c as int),
        -0x1000 <= r <= 0x1000,
{
    let q: i64 = crate::fx::mul_div_sat(c, 1, FX_ONE);
    proof {
        assert(c as int * 1 == c as int) by (nonlinear_arith);
        assert(-0x1000 * FX_ONE <= c <= 0x1000 * FX_ONE);
        lemma_tdiv_range(c as int, FX_ONE as int, 0x1000);
    }
    q
}

} // verus!
