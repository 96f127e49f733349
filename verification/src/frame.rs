//! Decoded frames and their planes.
//!
//! A frame is one decoded image: a pixel format tag, its dimensions, and an
//! ordered sequence of planes, each with a row stride and a byte buffer.
//! Packed RGBA frames have exactly one plane of four bytes per pixel;
//! planar YUV frames have a full-size luma plane and two chroma planes
//! subsampled by the format's chroma layout.

use vstd::prelude::*;
use vstd::arithmetic::mul::{
    lemma_mul_inequality, lemma_mul_is_distributive_add_other_way, lemma_mul_upper_bound,
};
use crate::error::PipelineError;
use crate::pixel::PixelFormat;
use crate::MAX_DIM;

verus! {

/// Largest row stride, in bytes, a well-formed plane may have: a full RGBA
/// row at the largest supported width.
pub const MAX_STRIDE: u32 = 65536;

/// One rectangular byte buffer within a frame: a luma, chroma or packed
/// color channel, with its own row stride.
#[derive(Clone, Debug)]
pub struct Plane {
    /// Distance in bytes between the starts of consecutive rows; at least
    /// the number of payload bytes per row.
    pub stride: u32,
    /// The pixel bytes, `stride` bytes per row.
    pub data: Vec<u8>,
}

impl Plane {
    /// The plane holds `rows` full rows of at least `row_bytes` payload
    /// bytes each, and its stride stays small enough that every byte
    /// offset fits comfortably in the machine integers.
    pub open spec fn wf(self, row_bytes: int, rows: int) -> bool {
        &&& row_bytes <= self.stride <= MAX_STRIDE
        &&& self.data.len() >= self.stride * rows
    }

    /// The byte at column `x` of row `y`.
    pub open spec fn at(self, x: int, y: int) -> u8 {
        self.data[y * self.stride + x]
    }
}

/// Every in-range (column, row) pair addresses a byte inside the plane's
/// buffer.
pub proof fn lemma_plane_index_in_bounds(p: Plane, row_bytes: int, rows: int, x: int, y: int)
    requires
        p.wf(row_bytes, rows),
        0 <= x < row_bytes,
        0 <= y < rows,
    ensures
        0 <= y * p.stride + x < p.data.len(),
{
    let s = p.stride as int;
    lemma_mul_inequality(y, rows - 1, s);
    lemma_mul_is_distributive_add_other_way(s, rows - 1, 1);
    assert((rows - 1) * s + 1 * s == rows * s);
    vstd::arithmetic::mul::lemma_mul_nonnegative(y, s);
}

/// One decoded image.
///
/// The invariant [`Frame::wf`] ties the plane count and the plane
/// dimensions to the format tag: one four-byte-per-pixel plane for packed
/// RGBA, three planes with the family's chroma subsampling for planar YUV.
/// For the planar families the chroma divisors divide the frame dimensions
/// evenly.
#[derive(Clone, Debug)]
pub struct Frame {
    pub format: PixelFormat,
    pub width: u32,
    pub height: u32,
    pub planes: Vec<Plane>,
}

impl Frame {
    /// Well-formedness: positive bounded dimensions, and planes as the
    /// format demands.
    pub open spec fn wf(self) -> bool {
        &&& 0 < self.width <= MAX_DIM
        &&& 0 < self.height <= MAX_DIM
        &&& if self.format.is_packed() {
            &&& self.planes.len() == 1
            &&& self.planes[0].wf(4 * self.width, self.height as int)
        } else if self.format.is_planar() {
            let cl = self.format.spec_chroma_layout();
            &&& self.planes.len() == 3
            &&& self.width as int % cl.horizontal as int == 0
            &&& self.height as int % cl.vertical as int == 0
            &&& self.planes[0].wf(self.width as int, self.height as int)
            &&& self.planes[1].wf(
                self.width as int / cl.horizontal as int,
                self.height as int / cl.vertical as int,
            )
            &&& self.planes[2].wf(
                self.width as int / cl.horizontal as int,
                self.height as int / cl.vertical as int,
            )
        } else {
            true
        }
    }

    /// The luma byte at pixel (`x`, `y`) of a planar frame.
    pub open spec fn luma_at(self, x: int, y: int) -> u8 {
        self.planes[0].at(x, y)
    }

    /// The byte of chroma plane `p` (1 or 2) that covers pixel (`x`, `y`)
    /// of a planar frame: the chroma sample at the subsampled coordinates.
    pub open spec fn chroma_at(self, p: int, x: int, y: int) -> u8 {
        let cl = self.format.spec_chroma_layout();
        self.planes[p].at(x / cl.horizontal as int, y / cl.vertical as int)
    }

    /// The four bytes of pixel (`x`, `y`) of a packed RGBA frame.
    pub open spec fn rgba_at(self, x: int, y: int) -> (u8, u8, u8, u8) {
        let p = self.planes[0];
        let base = y * p.stride + 4 * x;
        (p.data[base], p.data[base + 1], p.data[base + 2], p.data[base + 3])
    }

    /// Every byte of every plane equals the given channel value: luma `yv`,
    /// first chroma `uv`, second chroma `vv`.
    pub open spec fn uniform_planar(self, yv: u8, uv: u8, vv: u8) -> bool {
        &&& forall|i: int| 0 <= i < self.planes[0].data.len() ==> self.planes[0].data[i] == yv
        &&& forall|i: int| 0 <= i < self.planes[1].data.len() ==> self.planes[1].data[i] == uv
        &&& forall|i: int| 0 <= i < self.planes[2].data.len() ==> self.planes[2].data[i] == vv
    }

    /// Number of planes.
    pub fn plane_count(&self) -> (n: usize)
        ensures
            n == self.planes.len(),
    {
        self.planes.len()
    }

    /// Width in samples of plane `i`: the frame width for the luma or
    /// packed plane, the subsampled width for a chroma plane.
    pub fn plane_width(&self, i: usize) -> (w: u32)
        requires
            self.wf(),
            self.format.is_planar(),
            i < 3,
        ensures
            i == 0 ==> w == self.width,
            i >= 1 ==> w == self.width as int / self.format.spec_chroma_layout().horizontal as int,
    {
        if i == 0 {
            self.width
        } else {
            proof {
                crate::pixel::lemma_chroma_divisors_small(self.format);
            }
            self.width / self.format.chroma_layout().horizontal
        }
    }

    /// Height in rows of plane `i`.
    pub fn plane_height(&self, i: usize) -> (h: u32)
        requires
            self.wf(),
            self.format.is_planar(),
            i < 3,
        ensures
            i == 0 ==> h == self.height,
            i >= 1 ==> h == self.height as int / self.format.spec_chroma_layout().vertical as int,
    {
        if i == 0 {
            self.height
        } else {
            proof {
                crate::pixel::lemma_chroma_divisors_small(self.format);
            }
            self.height / self.format.chroma_layout().vertical
        }
    }

    /// Read pixel (`x`, `y`) of a packed RGBA frame.
    pub fn rgba_pixel(&self, x: u32, y: u32) -> (px: (u8, u8, u8, u8))
        requires
            self.wf(),
            self.format.is_packed(),
            x < self.width,
            y < self.height,
        ensures
            px == self.rgba_at(x as int, y as int),
    {
        proof {
            lemma_plane_index_in_bounds(
                self.planes[0],
                4 * self.width as int,
                self.height as int,
                4 * x as int + 3,
                y as int,
            );
        }
        let p: &Plane = &self.planes[0];
        let base: usize = (y as usize) * (p.stride as usize) + 4 * (x as usize);
        (p.data[base], p.data[base + 1], p.data[base + 2], p.data[base + 3])
    }
}

impl Plane {
    /// Runtime check of [`Plane::wf`], for planes handed in from outside
    /// the verified pipeline.
    fn check(&self, row_bytes: u32, rows: u32) -> (b: bool)
        requires
            row_bytes <= 4 * MAX_DIM,
            rows <= MAX_DIM,
        ensures
            b == self.wf(row_bytes as int, rows as int),
    {
        if self.stride < row_bytes || self.stride > MAX_STRIDE {
            return false;
        }
        proof {
            lemma_mul_upper_bound(self.stride as int, MAX_STRIDE as int, rows as int, MAX_DIM as int);
            vstd::arithmetic::mul::lemma_mul_nonnegative(self.stride as int, rows as int);
        }
        self.data.len() >= (self.stride as usize) * (rows as usize)
    }
}

impl Frame {
    /// Assemble a frame from planes that came from outside the verified
    /// pipeline — a decoder's output — checking the well-formedness
    /// invariant at run time. A frame that does not satisfy it is a
    /// decode failure.
    pub fn from_planes(format: PixelFormat, width: u32, height: u32, planes: Vec<Plane>) -> (r:
        Result<Frame, PipelineError>)
        ensures
            match r {
                Ok(f) => {
                    &&& f == (Frame { format, width, height, planes })
                    &&& f.wf()
                },
                Err(e) => {
                    &&& e == PipelineError::Decode
                    &&& !(Frame { format, width, height, planes }).wf()
                },
            },
    {
        let f = Frame { format, width, height, planes };
        if f.width < 1 || f.width > MAX_DIM || f.height < 1 || f.height > MAX_DIM {
            return Err(PipelineError::Decode);
        }
        if f.format.packed() {
            if f.planes.len() != 1 {
                return Err(PipelineError::Decode);
            }
            if !f.planes[0].check(4 * width, height) {
                return Err(PipelineError::Decode);
            }
            Ok(f)
        } else if f.format.planar() {
            let cl = f.format.chroma_layout();
            proof {
                crate::pixel::lemma_chroma_divisors_small(f.format);
            }
            if f.planes.len() != 3 {
                return Err(PipelineError::Decode);
            }
            if width % cl.horizontal != 0 || height % cl.vertical != 0 {
                return Err(PipelineError::Decode);
            }
            let cw: u32 = width / cl.horizontal;
            let ch: u32 = height / cl.vertical;
            proof {
                vstd::arithmetic::div_mod::lemma_div_is_ordered(0, width as int, cl.horizontal as int);
                lemma_mul_inequality(1, cl.horizontal as int, width as int);
                vstd::arithmetic::div_mod::lemma_multiply_divide_le(
                    width as int,
                    cl.horizontal as int,
                    width as int,
                );
                lemma_mul_inequality(1, cl.vertical as int, height as int);
                vstd::arithmetic::div_mod::lemma_multiply_divide_le(
                    height as int,
                    cl.vertical as int,
                    height as int,
                );
            }
            if !f.planes[0].check(width, height) {
                return Err(PipelineError::Decode);
            }
            if !f.planes[1].check(cw, ch) {
                return Err(PipelineError::Decode);
            }
            if !f.planes[2].check(cw, ch) {
                return Err(PipelineError::Decode);
            }
            Ok(f)
        } else {
            Ok(f)
        }
    }
}

/// Build a `rows` by `stride` plane filled with one byte value.
fn solid_plane(stride: u32, rows: u32, value: u8) -> (p: Plane)
    requires
        0 < stride <= MAX_STRIDE,
        rows <= MAX_DIM,
    ensures
        p.stride == stride,
        p.data.len() == stride * rows,
        forall|i: int| 0 <= i < p.data.len() ==> p.data[i] == value,
{
    proof {
        lemma_mul_upper_bound(stride as int, MAX_STRIDE as int, rows as int, MAX_DIM as int);
        vstd::arithmetic::mul::lemma_mul_nonnegative(stride as int, rows as int);
    }
    let total: usize = (stride as usize) * (rows as usize);
    let mut data: Vec<u8> = Vec::new();
    let mut i: usize = 0;
    while i < total
        invariant
            i <= total <= 0x4000_0000,
            data.len() == i,
            forall|j: int| 0 <= j < i ==> data[j] == value,
        decreases total - i,
    {
        data.push(value);
        i = i + 1;
    }
    Plane { stride, data }
}

impl Frame {
    /// Build a synthetic planar frame whose three planes each hold one
    /// constant sample value: luma `yv`, chroma `uv` and `vv`.
    ///
    /// The chroma planes are allocated at the subsampled dimensions of the
    /// format's chroma layout, with stride equal to their width.
    pub fn solid_planar(format: PixelFormat, width: u32, height: u32, yv: u8, uv: u8, vv: u8) -> (f:
        Frame)
        requires
            format.is_planar(),
            0 < width <= MAX_DIM,
            0 < height <= MAX_DIM,
            width as int % format.spec_chroma_layout().horizontal as int == 0,
            height as int % format.spec_chroma_layout().vertical as int == 0,
        ensures
            f.wf(),
            f.format == format,
            f.width == width,
            f.height == height,
            f.uniform_planar(yv, uv, vv),
    {
        let cl = format.chroma_layout();
        proof {
            crate::pixel::lemma_chroma_divisors_small(format);
            let hd = cl.horizontal as int;
            let vd = cl.vertical as int;
            // A positive multiple of a divisor is at least the divisor, so
            // the subsampled dimensions stay positive.
            if width < cl.horizontal {
                vstd::arithmetic::div_mod::lemma_small_mod(width as nat, cl.horizontal as nat);
            }
            if height < cl.vertical {
                vstd::arithmetic::div_mod::lemma_small_mod(height as nat, cl.vertical as nat);
            }
            vstd::arithmetic::div_mod::lemma_div_non_zero(width as int, hd);
            vstd::arithmetic::div_mod::lemma_div_non_zero(height as int, vd);
            // And they never exceed the full dimensions.
            lemma_mul_inequality(1, hd, width as int);
            vstd::arithmetic::div_mod::lemma_multiply_divide_le(width as int, hd, width as int);
            lemma_mul_inequality(1, vd, height as int);
            vstd::arithmetic::div_mod::lemma_multiply_divide_le(height as int, vd, height as int);
        }
        let cw: u32 = width / cl.horizontal;
        let ch: u32 = height / cl.vertical;
        let luma = solid_plane(width, height, yv);
        let cb = solid_plane(cw, ch, uv);
        let cr = solid_plane(cw, ch, vv);
        let mut planes: Vec<Plane> = Vec::new();
        planes.push(luma);
        planes.push(cb);
        planes.push(cr);
        Frame { format, width, height, planes }
    }

    /// Build a synthetic packed RGBA frame of one solid color.
    pub fn solid_rgba(width: u32, height: u32, r: u8, g: u8, b: u8, a: u8) -> (f: Frame)
        requires
            0 < width <= MAX_DIM,
            0 < height <= MAX_DIM,
        ensures
            f.wf(),
            f.format == PixelFormat::Rgba,
            f.width == width,
            f.height == height,
            forall|x: int, y: int|
                0 <= x < width && 0 <= y < height ==> f.rgba_at(x, y) == (r, g, b, a),
    {
        proof {
            lemma_mul_upper_bound(4 * width as int, MAX_STRIDE as int, height as int, MAX_DIM as int);
            vstd::arithmetic::mul::lemma_mul_nonnegative(4 * width as int, height as int);
        }
        let stride: u32 = 4 * width;
        let total: usize = (stride as usize) * (height as usize);
        proof {
            let w = width as int;
            let h = height as int;
            assert((4 * w) * h == (w * h) * 4) by (nonlinear_arith);
            vstd::arithmetic::div_mod::lemma_mod_multiples_basic(w * h, 4);
        }
        let mut data: Vec<u8> = Vec::new();
        let mut i: usize = 0;
        while i < total
            invariant
                i <= total <= 0x4000_0000,
                i % 4 == 0,
                total % 4 == 0,
                data.len() == i,
                forall|j: int|
                    0 <= j < i ==> data[j] == (if j % 4 == 0 {
                        r
                    } else if j % 4 == 1 {
                        g
                    } else if j % 4 == 2 {
                        b
                    } else {
                        a
                    }),
            decreases total - i,
        {
            data.push(r);
            data.push(g);
            data.push(b);
            data.push(a);
            i = i + 4;
        }
        let plane = Plane { stride, data };
        let mut planes: Vec<Plane> = Vec::new();
        planes.push(plane);
        let f = Frame { format: PixelFormat::Rgba, width, height, planes };
        proof {
            assert forall|x: int, y: int| 0 <= x < width && 0 <= y < height implies f.rgba_at(x, y)
                == (r, g, b, a) by {
                lemma_plane_index_in_bounds(
                    f.planes[0],
                    4 * width as int,
                    height as int,
                    4 * x + 3,
                    y,
                );
                let w = width as int;
                let base = y * stride as int + 4 * x;
                let k = y * w + x;
                assert(y * (4 * w) + 4 * x == k * 4) by (nonlinear_arith)
                    requires
                        k == y * w + x,
                ;
                assert(base % 4 == 0) by {
                    vstd::arithmetic::div_mod::lemma_mod_multiples_basic(k, 4);
                }
                assert((base + 1) % 4 == 1 && (base + 2) % 4 == 2 && (base + 3) % 4 == 3) by {
                    vstd::arithmetic::div_mod::lemma_add_mod_noop(base, 1, 4);
                    vstd::arithmetic::div_mod::lemma_add_mod_noop(base, 2, 4);
                    vstd::arithmetic::div_mod::lemma_add_mod_noop(base, 3, 4);
                }
            }
        }
        f
    }
}

} // verus!
