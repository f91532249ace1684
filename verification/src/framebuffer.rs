//! The render target: a width x height grid of 8-bit RGB cells, with
//! a parallel depth buffer of fixed-point scalars.
//!
//! Logical row 0 is the bottom of the image; persisting flips rows.
//! The depth buffer starts at the most negative representable value,
//! so any real fragment depth wins the first strictly-greater
//! comparison.  That sentinel, and the `>` direction of the test, are
//! one invariant shared with the projection builders: nearer points
//! must come out with larger depth.
use vstd::prelude::*;

verus! {

/// One color cell: three 8-bit channels.
#[derive(Clone, Copy, PartialEq, Eq, Structural, Debug)]
pub struct Rgb8 {
    pub r: u8,
    pub g: u8,
    pub b: u8,
}

/// Largest accepted extent of a render target, in pixels.
pub const MAX_DIM: u32 = 4096;

/// The depth every cell starts at; any interpolated depth is greater.
pub const DEPTH_FLOOR: i64 = i64::MIN;

pub struct FrameBuffer {
    pub width: u32,
    pub height: u32,
    pub buf: Vec<Rgb8>,
}

impl FrameBuffer {
    /// Dimensions are positive, bounded, and the storage matches them.
    pub open spec fn wf(self) -> bool {
        &&& 1 <= self.width <= MAX_DIM
        &&& 1 <= self.height <= MAX_DIM
        &&& self.buf@.len() == self.width * self.height
    }

    /// The color stored for the cell `(x, y)`, row 0 at the bottom.
    pub open spec fn pix(self, x: int, y: int) -> Rgb8 {
        self.buf@[x + y * self.width]
    }

    /// A buffer of the given size with every cell black.
    pub fn new(width: u32, height: u32) -> (r: FrameBuffer)
        requires
            1 <= width <= MAX_DIM,
            1 <= height <= MAX_DIM,
        ensures
            r.wf(),
            r.width == width,
            r.height == height,
            r.buf@.len() == width * height,
            forall|k: int| 0 <= k < r.buf@.len() ==> r.buf@[k] == (Rgb8 { r: 0, g: 0, b: 0 }),
            forall|x: int, y: int|
                0 <= x < width && 0 <= y < height ==> r.pix(x, y) == (Rgb8 { r: 0, g: 0, b: 0 }),
    {
        proof {
        lemma_dims_bound(width as int, height as int);
    }
    let n: usize = (width as usize) * (height as usize);
        let mut buf: Vec<Rgb8> = Vec::new();
        let mut i: usize = 0;
        while i < n
            invariant
                i <= n,
                buf@.len() == i,
                forall|k: int| 0 <= k < i ==> buf@[k] == (Rgb8 { r: 0, g: 0, b: 0 }),
            decreases n - i,
        {
            buf.push(Rgb8 { r: 0, g: 0, b: 0 });
            i += 1;
        }
        let fb = FrameBuffer { width, height, buf };
        proof {
            assert forall|x: int, y: int| 0 <= x < width && 0 <= y < height implies fb.pix(x, y)
                == (Rgb8 { r: 0, g: 0, b: 0 }) by {
                lemma_grid_index(x, y, width as int, height as int);
            }
        }
        fb
    }

    /// Store `val` at `(x, y)`; every other cell keeps its color.
    pub fn set(&mut self, x: u32, y: u32, val: Rgb8)
        requires
            old(self).wf(),
            x < old(self).width,
            y < old(self).height,
        ensures
            final(self).wf(),
            final(self).width == old(self).width,
            final(self).height == old(self).height,
            final(self).pix(x as int, y as int) == val,
            forall|i: int, j: int|
                0 <= i < old(self).width && 0 <= j < old(self).height && !(i == x && j == y)
                    ==> final(self).pix(i, j) == old(self).pix(i, j),
    {
        proof {
            lemma_grid_index(x as int, y as int, self.width as int, self.height as int);
            lemma_dims_bound(self.width as int, self.height as int);
        }
        let idx: usize = (x as usize) + (y as usize) * (self.width as usize);
        self.buf.set(idx, val);
        proof {
            assert forall|i: int, j: int|
                0 <= i < self.width && 0 <= j < self.height && !(i == x && j == y) implies self.pix(
                i,
                j,
            ) == old(self).pix(i, j) by {
                lemma_grid_index(i, j, self.width as int, self.height as int);
                lemma_grid_index_injective(
                    i,
                    j,
                    x as int,
                    y as int,
                    self.width as int,
                    self.height as int,
                );
            }
        }
    }

    /// The color at `(x, y)`.
    pub fn get(&self, x: u32, y: u32) -> (r: Rgb8)
        requires
            self.wf(),
            x < self.width,
            y < self.height,
        ensures
            r == self.pix(x as int, y as int),
    {
        proof {
            lemma_grid_index(x as int, y as int, self.width as int, self.height as int);
            lemma_dims_bound(self.width as int, self.height as int);
        }
        let idx: usize = (x as usize) + (y as usize) * (self.width as usize);
        self.buf[idx]
    }
}

/// A depth buffer bundled with its dimensions, as the shadow pass
/// hands it to the final pass for read-only sampling.
pub struct DepthMap {
    pub width: u32,
    pub height: u32,
    pub data: Vec<i64>,
}

impl DepthMap {
    /// Dimensions are positive, bounded, and the storage matches them.
    pub open spec fn wf(self) -> bool {
        &&& 1 <= self.width <= MAX_DIM
        &&& 1 <= self.height <= MAX_DIM
        &&& self.data@.len() == self.width * self.height
    }

    /// The depth stored for the cell `(x, y)`.
    pub open spec fn depth_at(self, x: int, y: int) -> i64 {
        self.data@[x + y * self.width]
    }

    /// Bundle a raw depth buffer with the dimensions it was scanned at.
    pub fn new(width: u32, height: u32, data: Vec<i64>) -> (r: Option<DepthMap>)
        ensures
            r is Some <==> (1 <= width <= MAX_DIM && 1 <= height <= MAX_DIM && data@.len() == width
                * height),
            r is Some ==> ({
                let dm = r.unwrap();
                dm.wf() && dm.width == width && dm.height == height && dm.data@ == data@
            }),
    {
        if 1 <= width && width <= MAX_DIM && 1 <= height && height <= MAX_DIM {
            proof {
                lemma_dims_bound(width as int, height as int);
            }
            if data.len() == (width as usize) * (height as usize) {
                Some(DepthMap { width, height, data })
            } else {
                None
            }
        } else {
            None
        }
    }

    /// The depth at `(x, y)`.
    pub fn get(&self, x: u32, y: u32) -> (r: i64)
        requires
            self.wf(),
            x < self.width,
            y < self.height,
        ensures
            r == self.depth_at(x as int, y as int),
    {
        proof {
            lemma_grid_index(x as int, y as int, self.width as int, self.height as int);
            lemma_dims_bound(self.width as int, self.height as int);
        }
        let idx: usize = (x as usize) + (y as usize) * (self.width as usize);
        self.data[idx]
    }
}

/// A fresh depth buffer for a `width x height` target, every cell at
/// the sentinel floor.
pub fn new_depth_buffer(width: u32, height: u32) -> (r: Vec<i64>)
    requires
        1 <= width <= MAX_DIM,
        1 <= height <= MAX_DIM,
    ensures
        r@.len() == width * height,
        forall|k: int| 0 <= k < r@.len() ==> r@[k] == DEPTH_FLOOR,
{
    proof {
        lemma_dims_bound(width as int, height as int);
    }
    let n: usize = (width as usize) * (height as usize);
    let mut buf: Vec<i64> = Vec::new();
    let mut i: usize = 0;
    while i < n
        invariant
            i <= n,
            buf@.len() == i,
            forall|k: int| 0 <= k < i ==> buf@[k] == DEPTH_FLOOR,
        decreases n - i,
    {
        buf.push(DEPTH_FLOOR);
        i += 1;
    }
    buf
}

/// Bounded dimensions keep cell counts well under `usize::MAX`.
pub proof fn lemma_dims_bound(w: int, h: int)
    requires
        0 <= w <= MAX_DIM,
        0 <= h <= MAX_DIM,
    ensures
        w * h <= 0x100_0000,
{
    assert(w * h <= 0x100_0000) by (nonlinear_arith)
        requires
            0 <= w <= 0x1000,
            0 <= h <= 0x1000,
    ;
}

/// Row-major cell indices stay inside the grid.
pub proof fn lemma_grid_index(x: int, y: int, w: int, h: int)
    requires
        0 <= x < w,
        0 <= y < h,
    ensures
        0 <= x + y * w < w * h,
{
    assert(0 <= x + y * w < w * h) by (nonlinear_arith)
        requires
            0 <= x < w,
            0 <= y < h,
    ;
}

/// Distinct cells have distinct row-major indices.
pub proof fn lemma_grid_index_injective(x1: int, y1: int, x2: int, y2: int, w: int, h: int)
    requires
        0 <= x1 < w,
        0 <= y1 < h,
        0 <= x2 < w,
        0 <= y2 < h,
        !(x1 == x2 && y1 == y2),
    ensures
        x1 + y1 * w != x2 + y2 * w,
{
    assert(x1 + y1 * w != x2 + y2 * w) by (nonlinear_arith)
        requires
            0 <= x1 < w,
            0 <= y1 < h,
            0 <= x2 < w,
            0 <= y2 < h,
            !(x1 == x2 && y1 == y2),
    ;
}

} // verus!
