//! CPU conversion of planar YUV frames to packed RGBA.
//!
//! The convert stage inspects each frame's pixel format: packed RGBA
//! passes through untouched, every supported planar family is converted on
//! the calling thread into a packed RGBA frame of the same dimensions, and
//! anything else is a fatal condition for that frame.
//!
//! The color math is fixed-point BT.601: each coefficient is scaled by
//! 1024, every division rounds to the nearest integer (an added 512
//! before dividing), and the numerators are kept non-negative by folding
//! the chroma bias of 128 into a constant, so the executable unsigned
//! arithmetic and the specification agree exactly. Encoding a solid
//! color and converting it back is proven to land within two steps per
//! channel ([`lemma_solid_color_round_trip`]). Chroma
//! planes are sampled at the subsampled coordinates of the format's chroma
//! layout (nearest sample, no interpolation).

use vstd::prelude::*;
use vstd::arithmetic::div_mod::{
    lemma_div_pos_is_pos, lemma_fundamental_div_mod, lemma_fundamental_div_mod_converse,
    lemma_mod_bound, lemma_multiply_divide_lt,
};
use vstd::arithmetic::mul::{lemma_mul_inequality, lemma_mul_upper_bound};
use crate::error::PipelineError;
use crate::frame::{lemma_plane_index_in_bounds, Frame, Plane};
use crate::pixel::{lemma_chroma_divisors_small, PixelFormat};
use crate::MAX_DIM;

verus! {

/// Clamp a non-negative intermediate to the byte range.
pub open spec fn clamp255(v: int) -> int {
    if v > 255 {
        255
    } else {
        v
    }
}

/// The red channel reconstructed from luma `yv` and second chroma `vv`:
/// fixed-point `y + 1.402 * (v - 128)`, rounded to the nearest integer
/// (the `+ 512` before the division) and clamped to a byte.
/// `183808 == 1436 * 128` folds the chroma bias into the constant.
pub open spec fn red_of(yv: int, vv: int) -> int {
    let num = 1024 * yv + 1436 * vv + 512;
    if num <= 183808 {
        0
    } else {
        clamp255((num - 183808) / 1024)
    }
}

/// The green channel: fixed-point `y - 0.344 * (u - 128) - 0.714 * (v - 128)`,
/// rounded to nearest and clamped to a byte.
/// `139136 == (352 + 731) * 128 + 512`: the chroma bias plus the rounding
/// term.
pub open spec fn green_of(yv: int, uv: int, vv: int) -> int {
    let pos = 1024 * yv + 139136;
    let neg = 352 * uv + 731 * vv;
    if pos <= neg {
        0
    } else {
        clamp255((pos - neg) / 1024)
    }
}

/// The blue channel reconstructed from luma `yv` and first chroma `uv`:
/// fixed-point `y + 1.772 * (u - 128)`, rounded to nearest and clamped to
/// a byte. `232320 == 1815 * 128`.
pub open spec fn blue_of(yv: int, uv: int) -> int {
    let num = 1024 * yv + 1815 * uv + 512;
    if num <= 232320 {
        0
    } else {
        clamp255((num - 232320) / 1024)
    }
}

/// The packed RGBA bytes reconstructed from one YUV sample triple; alpha
/// is always opaque.
pub open spec fn spec_yuv_to_rgba(yv: u8, uv: u8, vv: u8) -> (u8, u8, u8, u8) {
    (
        red_of(yv as int, vv as int) as u8,
        green_of(yv as int, uv as int, vv as int) as u8,
        blue_of(yv as int, uv as int) as u8,
        255u8,
    )
}

/// The luma a solid color encodes to: fixed-point
/// `0.299 r + 0.587 g + 0.114 b` (the coefficients sum to exactly 1024),
/// rounded to the nearest integer.
pub open spec fn luma_of(r: int, g: int, b: int) -> int {
    (306 * r + 601 * g + 117 * b + 512) / 1024
}

/// The first chroma (blue-difference) sample a solid color encodes to,
/// rounded to nearest and clamped to a byte (pure blue rounds up to 256);
/// `131584 == 1024 * 128 + 512`: the chroma bias plus the rounding term.
pub open spec fn cb_of(r: int, g: int, b: int) -> int {
    clamp255((131584 + 512 * b - 173 * r - 339 * g) / 1024)
}

/// The second chroma (red-difference) sample a solid color encodes to,
/// rounded to nearest and clamped to a byte (pure red rounds up to 256).
pub open spec fn cr_of(r: int, g: int, b: int) -> int {
    clamp255((131584 + 512 * r - 429 * g - 83 * b) / 1024)
}

/// All three encoded samples fit in a byte for any byte color.
pub proof fn lemma_encoded_in_byte_range(r: int, g: int, b: int)
    requires
        0 <= r <= 255,
        0 <= g <= 255,
        0 <= b <= 255,
    ensures
        0 <= luma_of(r, g, b) <= 255,
        0 <= cb_of(r, g, b) <= 255,
        0 <= cr_of(r, g, b) <= 255,
{
    vstd::arithmetic::div_mod::lemma_div_is_ordered(0, 306 * r + 601 * g + 117 * b + 512, 1024);
    vstd::arithmetic::div_mod::lemma_div_is_ordered(306 * r + 601 * g + 117 * b + 512, 261632, 1024);
    vstd::arithmetic::div_mod::lemma_div_is_ordered(1024, 131584 + 512 * b - 173 * r - 339 * g, 1024);
    vstd::arithmetic::div_mod::lemma_div_is_ordered(1024, 131584 + 512 * r - 429 * g - 83 * b, 1024);
}

/// All three reconstructed channels fit in a byte for any byte samples.
pub proof fn lemma_decoded_in_byte_range(yv: int, uv: int, vv: int)
    requires
        0 <= yv <= 255,
        0 <= uv <= 255,
        0 <= vv <= 255,
    ensures
        0 <= red_of(yv, vv) <= 255,
        0 <= green_of(yv, uv, vv) <= 255,
        0 <= blue_of(yv, uv) <= 255,
{
    if 1024 * yv + 1436 * vv + 512 > 183808 {
        lemma_div_pos_is_pos(1024 * yv + 1436 * vv + 512 - 183808, 1024);
    }
    if 1024 * yv + 139136 > 352 * uv + 731 * vv {
        lemma_div_pos_is_pos(1024 * yv + 139136 - (352 * uv + 731 * vv), 1024);
    }
    if 1024 * yv + 1815 * uv + 512 > 232320 {
        lemma_div_pos_is_pos(1024 * yv + 1815 * uv + 512 - 232320, 1024);
    }
}

/// Encoding a solid color and reconstructing it comes back to within two
/// steps of the original channel values, for every byte color — the
/// tolerance the conversion math is held to, proved rather than sampled.
/// Red and green in fact land within one step except at the two chroma
/// saturation corners (pure red, pure blue), which are covered
/// separately.
pub proof fn lemma_solid_color_round_trip(r: int, g: int, b: int)
    requires
        0 <= r <= 255,
        0 <= g <= 255,
        0 <= b <= 255,
    ensures
        r - 2 <= red_of(luma_of(r, g, b), cr_of(r, g, b)) <= r + 2,
        g - 2 <= green_of(luma_of(r, g, b), cb_of(r, g, b), cr_of(r, g, b)) <= g + 2,
        b - 2 <= blue_of(luma_of(r, g, b), cb_of(r, g, b)) <= b + 2,
{
    let yn = 306 * r + 601 * g + 117 * b + 512;
    let un = 131584 + 512 * b - 173 * r - 339 * g;
    let vn = 131584 + 512 * r - 429 * g - 83 * b;
    let y = yn / 1024;
    let ry = yn % 1024;
    let u0 = un / 1024;
    let ru = un % 1024;
    let v0 = vn / 1024;
    let rv = vn % 1024;
    lemma_fundamental_div_mod(yn, 1024);
    lemma_mod_bound(yn, 1024);
    lemma_fundamental_div_mod(un, 1024);
    lemma_mod_bound(un, 1024);
    lemma_fundamental_div_mod(vn, 1024);
    lemma_mod_bound(vn, 1024);

    if u0 >= 256 {
        // The blue-difference sample saturates only for pure blue:
        // 512 b >= 130560 + 173 r + 339 g forces (0, 0, 255). Evaluate
        // that color concretely.
        assert(r == 0 && g == 0 && b == 255);
        assert(y == 29) by {
            lemma_fundamental_div_mod_converse(30347, 1024, 29, 651);
        }
        assert(v0 == 107) by {
            lemma_fundamental_div_mod_converse(110419, 1024, 107, 851);
        }
        assert(red_of(29, 107) == 0) by {
            lemma_fundamental_div_mod_converse(52, 1024, 0, 52);
        }
        assert(green_of(29, 255, 107) == 0) by {
            lemma_fundamental_div_mod_converse(855, 1024, 0, 855);
        }
        assert(blue_of(29, 255) == 254) by {
            lemma_fundamental_div_mod_converse(260713, 1024, 254, 617);
        }
    } else if v0 >= 256 {
        // The red-difference sample saturates only for pure red:
        // (255, 0, 0). Evaluate concretely.
        assert(r == 255 && g == 0 && b == 0);
        assert(y == 76) by {
            lemma_fundamental_div_mod_converse(78542, 1024, 76, 718);
        }
        assert(u0 == 85) by {
            lemma_fundamental_div_mod_converse(87469, 1024, 85, 429);
        }
        assert(red_of(76, 255) == 254) by {
            lemma_fundamental_div_mod_converse(260708, 1024, 254, 612);
        }
        assert(green_of(76, 85, 255) == 0) by {
            lemma_fundamental_div_mod_converse(635, 1024, 0, 635);
        }
        assert(blue_of(76, 85) == 0) by {
            lemma_fundamental_div_mod_converse(291, 1024, 0, 291);
        }
    } else {
        // Away from the saturation corners the clamps are the identity
        // and each decode numerator, scaled by 1024, folds exactly to
        // 2^20 times the original channel plus a small linear error term
        // built from the three division remainders.
        assert(cb_of(r, g, b) == u0);
        assert(cr_of(r, g, b) == v0);

        // Red: error within one step.
        let mr = 1024 * y + 1436 * v0 + 512 - 183808;
        let er = 620 * b - 620 * g + 1783808 - 1024 * ry - 1436 * rv;
        assert(1024 * mr == 1048576 * r + er);
        assert(-1048576 < er < 2097152);
        if 1024 * y + 1436 * v0 + 512 <= 183808 {
            assert(1048576 * r <= -er);
            assert(r == 0);
        } else {
            assert(mr < 1024 * (r + 2));
            lemma_multiply_divide_lt(mr, 1024, r + 2);
            assert(mr >= 1024 * (r - 1) + 1);
            vstd::arithmetic::div_mod::lemma_div_is_ordered(1024 * (r - 1), mr, 1024);
            vstd::arithmetic::div_mod::lemma_div_multiples_vanish(r - 1, 1024);
            if mr / 1024 > 255 {
                assert(r == 255);
            }
        }

        // Green: error within one step.
        let mg = 1024 * y + 139136 - (352 * u0 + 731 * v0);
        let eg = 257 * b - 225 * g - 32 * r + 494080 - 1024 * ry + 352 * ru + 731 * rv;
        assert(1024 * mg == 1048576 * g + eg);
        assert(-1048576 < eg < 2097152);
        if 1024 * y + 139136 <= 352 * u0 + 731 * v0 {
            assert(1048576 * g <= -eg);
            assert(g == 0);
        } else {
            assert(mg < 1024 * (g + 2));
            lemma_multiply_divide_lt(mg, 1024, g + 2);
            assert(mg >= 1024 * (g - 1) + 1);
            vstd::arithmetic::div_mod::lemma_div_is_ordered(1024 * (g - 1), mg, 1024);
            vstd::arithmetic::div_mod::lemma_div_multiples_vanish(g - 1, 1024);
            if mg / 1024 > 255 {
                assert(g == 255);
            }
        }

        // Blue: error within two steps.
        let mb = 1024 * y + 1815 * u0 + 512 - 232320;
        let eb = 512 * b - 651 * r + 139 * g + 1977856 - 1024 * ry - 1815 * ru;
        assert(1024 * mb == 1048576 * b + eb);
        assert(-2097152 < eb < 3145728);
        if 1024 * y + 1815 * u0 + 512 <= 232320 {
            assert(1048576 * b <= -eb);
            assert(b <= 1);
        } else {
            assert(mb < 1024 * (b + 3));
            lemma_multiply_divide_lt(mb, 1024, b + 3);
            assert(mb >= 1024 * (b - 2) + 1);
            vstd::arithmetic::div_mod::lemma_div_is_ordered(1024 * (b - 2), mb, 1024);
            vstd::arithmetic::div_mod::lemma_div_multiples_vanish(b - 2, 1024);
            if mb / 1024 > 255 {
                assert(b >= 254);
            }
        }
    }
}

/// Convert one YUV sample triple to packed RGBA bytes.
pub fn yuv_to_rgba(yv: u8, uv: u8, vv: u8) -> (px: (u8, u8, u8, u8))
    ensures
        px == spec_yuv_to_rgba(yv, uv, vv),
{
    let y1024: u32 = 1024 * (yv as u32);
    let rnum: u32 = y1024 + 1436 * (vv as u32) + 512;
    let r: u8 = if rnum <= 183808 {
        0
    } else {
        let t: u32 = (rnum - 183808) / 1024;
        if t > 255 {
            255
        } else {
            t as u8
        }
    };
    let gpos: u32 = y1024 + 139136;
    let gneg: u32 = 352 * (uv as u32) + 731 * (vv as u32);
    let g: u8 = if gpos <= gneg {
        0
    } else {
        let t: u32 = (gpos - gneg) / 1024;
        if t > 255 {
            255
        } else {
            t as u8
        }
    };
    let bnum: u32 = y1024 + 1815 * (uv as u32) + 512;
    let b: u8 = if bnum <= 232320 {
        0
    } else {
        let t: u32 = (bnum - 232320) / 1024;
        if t > 255 {
            255
        } else {
            t as u8
        }
    };
    (r, g, b, 255)
}

/// Encode one solid color to a YUV sample triple; reconstructing it with
/// [`yuv_to_rgba`] comes back to the original channels within the bounds
/// of [`lemma_solid_color_round_trip`].
pub fn rgb_to_yuv(r: u8, g: u8, b: u8) -> (yuv: (u8, u8, u8))
    ensures
        yuv.0 == luma_of(r as int, g as int, b as int),
        yuv.1 == cb_of(r as int, g as int, b as int),
        yuv.2 == cr_of(r as int, g as int, b as int),
{
    proof {
        lemma_encoded_in_byte_range(r as int, g as int, b as int);
    }
    let ri: u32 = r as u32;
    let gi: u32 = g as u32;
    let bi: u32 = b as u32;
    let yv: u32 = (306 * ri + 601 * gi + 117 * bi + 512) / 1024;
    let cb0: u32 = (131584 + 512 * bi - (173 * ri + 339 * gi)) / 1024;
    let cb: u32 = if cb0 > 255 {
        255
    } else {
        cb0
    };
    let cr0: u32 = (131584 + 512 * ri - (429 * gi + 83 * bi)) / 1024;
    let cr: u32 = if cr0 > 255 {
        255
    } else {
        cr0
    };
    (yv as u8, cb as u8, cr as u8)
}

/// A subsampled coordinate stays inside the subsampled dimension when the
/// divisor divides the full dimension evenly.
pub proof fn lemma_subsample_in_range(x: int, w: int, d: int)
    requires
        0 < d,
        0 <= x < w,
        w % d == 0,
    ensures
        0 <= x / d < w / d,
{
    lemma_fundamental_div_mod(w, d);
    lemma_multiply_divide_lt(x, d, w / d);
    lemma_div_pos_is_pos(x, d);
}

/// The pixel a converted frame holds at (`x`, `y`): the source's luma and
/// chroma samples there, reconstructed to RGBA.
pub open spec fn spec_converted_pixel(src: Frame, x: int, y: int) -> (u8, u8, u8, u8) {
    spec_yuv_to_rgba(src.luma_at(x, y), src.chroma_at(1, x, y), src.chroma_at(2, x, y))
}

/// Pixel number `k` (row-major) of `data` holds the converted source
/// pixel.
pub open spec fn pixel_ok(data: Seq<u8>, src: Frame, k: int) -> bool {
    let w = src.width as int;
    let x = k % w;
    let y = k / w;
    let px = spec_converted_pixel(src, x, y);
    &&& data[4 * k] == px.0
    &&& data[4 * k + 1] == px.1
    &&& data[4 * k + 2] == px.2
    &&& data[4 * k + 3] == px.3
}

/// The first `count` row-major pixels of `data` hold the converted source
/// pixels.
pub open spec fn prefix_converted(data: Seq<u8>, src: Frame, count: int) -> bool {
    forall|k: int| 0 <= k < count ==> #[trigger] pixel_ok(data, src, k)
}

/// What conversion promises: a well-formed packed RGBA frame of the same
/// dimensions, tightly packed (stride `4 * width`), whose every pixel is
/// the fixed-point reconstruction of the source's samples at that pixel.
pub open spec fn convert_post(src: Frame, out: Frame) -> bool {
    &&& out.wf()
    &&& out.format == PixelFormat::Rgba
    &&& out.width == src.width
    &&& out.height == src.height
    &&& out.planes.len() == 1
    &&& out.planes[0].stride == 4 * src.width
    &&& out.planes[0].data.len() == 4 * src.width * src.height
    &&& forall|x: int, y: int|
        0 <= x < src.width && 0 <= y < src.height ==> #[trigger] out.rgba_at(x, y)
            == spec_converted_pixel(src, x, y)
}

/// Convert a planar YUV frame to a packed RGBA frame of the same
/// dimensions in one pass.
pub fn convert_planar(src: &Frame) -> (out: Frame)
    requires
        src.wf(),
        src.format.is_planar(),
    ensures
        convert_post(*src, out),
{
    let w: u32 = src.width;
    let h: u32 = src.height;
    let cl = src.format.chroma_layout();
    proof {
        lemma_chroma_divisors_small(src.format);
        lemma_mul_upper_bound(w as int, MAX_DIM as int, h as int, MAX_DIM as int);
        vstd::arithmetic::mul::lemma_mul_nonnegative(w as int, h as int);
    }
    let total_px: usize = (w as usize) * (h as usize);
    let mut data: Vec<u8> = Vec::new();
    let mut k: usize = 0;
    while k < total_px
        invariant
            src.wf(),
            src.format.is_planar(),
            cl == src.format.spec_chroma_layout(),
            w == src.width,
            h == src.height,
            total_px == w as int * h as int,
            total_px <= 0x1000_0000,
            k <= total_px,
            data.len() == 4 * k,
            prefix_converted(data@, *src, k as int),
        decreases total_px - k,
    {
        let x: usize = k % (w as usize);
        let y: usize = k / (w as usize);
        proof {
            lemma_mod_bound(k as int, w as int);
            lemma_multiply_divide_lt(k as int, w as int, h as int);
            lemma_div_pos_is_pos(k as int, w as int);
            lemma_plane_index_in_bounds(src.planes[0], w as int, h as int, x as int, y as int);
            lemma_subsample_in_range(x as int, w as int, cl.horizontal as int);
            lemma_subsample_in_range(y as int, h as int, cl.vertical as int);
            lemma_plane_index_in_bounds(
                src.planes[1],
                w as int / cl.horizontal as int,
                h as int / cl.vertical as int,
                x as int / cl.horizontal as int,
                y as int / cl.vertical as int,
            );
            lemma_plane_index_in_bounds(
                src.planes[2],
                w as int / cl.horizontal as int,
                h as int / cl.vertical as int,
                x as int / cl.horizontal as int,
                y as int / cl.vertical as int,
            );
        }
        let yb: u8 = src.planes[0].data[y * (src.planes[0].stride as usize) + x];
        let cx: usize = x / (cl.horizontal as usize);
        let cy: usize = y / (cl.vertical as usize);
        let ub: u8 = src.planes[1].data[cy * (src.planes[1].stride as usize) + cx];
        let vb: u8 = src.planes[2].data[cy * (src.planes[2].stride as usize) + cx];
        let px = yuv_to_rgba(yb, ub, vb);
        let ghost pre = data@;
        data.push(px.0);
        data.push(px.1);
        data.push(px.2);
        data.push(px.3);
        proof {
            assert(pixel_ok(data@, *src, k as int));
            assert forall|j: int| 0 <= j < k as int implies #[trigger] pixel_ok(
                data@,
                *src,
                j,
            ) by {
                assert(pixel_ok(pre, *src, j));
            }
        }
        k = k + 1;
    }
    let stride: u32 = 4 * w;
    proof {
        assert((4 * w as int) * h as int == 4 * (w as int * h as int)) by (nonlinear_arith);
    }
    let plane = Plane { stride, data };
    let mut planes: Vec<Plane> = Vec::new();
    planes.push(plane);
    let out = Frame { format: PixelFormat::Rgba, width: w, height: h, planes };
    proof {
        assert forall|x: int, y: int| 0 <= x < w && 0 <= y < h implies #[trigger] out.rgba_at(x, y)
            == spec_converted_pixel(*src, x, y) by {
            let wi = w as int;
            let k = y * wi + x;
            lemma_mul_inequality(y, h as int - 1, wi);
            vstd::arithmetic::mul::lemma_mul_is_distributive_sub_other_way(wi, h as int, 1);
            vstd::arithmetic::mul::lemma_mul_is_commutative(wi, h as int);
            lemma_fundamental_div_mod_converse(k, wi, y, x);
            assert(pixel_ok(out.planes[0].data@, *src, k));
            assert(y * (4 * wi) + 4 * x == 4 * k) by (nonlinear_arith)
                requires
                    k == y * wi + x,
            ;
        }
    }
    out
}

/// The convert stage's work on one decoded frame: pass a packed RGBA
/// frame through unchanged, convert a planar frame, and report any other
/// format as fatal for this frame.
pub fn convert_frame(src: Frame) -> (r: Result<Frame, PipelineError>)
    requires
        src.wf(),
    ensures
        r is Ok <==> src.format.is_supported(),
        match r {
            Ok(out) => {
                &&& out.wf()
                &&& src.format.is_packed() ==> out == src
                &&& src.format.is_planar() ==> convert_post(src, out)
            },
            Err(e) => e == PipelineError::UnsupportedPixelFormat,
        },
{
    if src.format.packed() {
        Ok(src)
    } else if src.format.planar() {
        Ok(convert_planar(&src))
    } else {
        Err(PipelineError::UnsupportedPixelFormat)
    }
}

/// Converting a frame whose planes are uniform yields a uniform image:
/// every output pixel is the reconstruction of the one sample triple the
/// planes hold. In particular, a synthetic solid-color frame converts to a
/// solid packed RGBA buffer, in every supported planar format.
pub proof fn lemma_uniform_convert(src: Frame, out: Frame, yv: u8, uv: u8, vv: u8)
    requires
        src.wf(),
        src.format.is_planar(),
        src.uniform_planar(yv, uv, vv),
        convert_post(src, out),
    ensures
        forall|x: int, y: int|
            0 <= x < out.width && 0 <= y < out.height ==> #[trigger] out.rgba_at(x, y)
                == spec_yuv_to_rgba(yv, uv, vv),
{
    let w = src.width as int;
    let h = src.height as int;
    let cl = src.format.spec_chroma_layout();
    lemma_chroma_divisors_small(src.format);
    assert forall|x: int, y: int| 0 <= x < out.width && 0 <= y < out.height implies #[trigger] out
        .rgba_at(x, y) == spec_yuv_to_rgba(yv, uv, vv) by {
        lemma_plane_index_in_bounds(src.planes[0], w, h, x, y);
        lemma_subsample_in_range(x, w, cl.horizontal as int);
        lemma_subsample_in_range(y, h, cl.vertical as int);
        lemma_plane_index_in_bounds(
            src.planes[1],
            w / cl.horizontal as int,
            h / cl.vertical as int,
            x / cl.horizontal as int,
            y / cl.vertical as int,
        );
        lemma_plane_index_in_bounds(
            src.planes[2],
            w / cl.horizontal as int,
            h / cl.vertical as int,
            x / cl.horizontal as int,
            y / cl.vertical as int,
        );
        assert(src.luma_at(x, y) == yv);
        assert(src.chroma_at(1, x, y) == uv);
        assert(src.chroma_at(2, x, y) == vv);
    }
}

} // verus!
