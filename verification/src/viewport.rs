//! Letterbox / pillarbox viewport computation.
//!
//! Given the source frame size and the destination surface size, the
//! presenter draws the frame into a centered sub-rectangle that preserves
//! the source aspect ratio: a wider-than-destination source is letterboxed
//! (full width, bars above and below), a narrower source is pillarboxed
//! (full height, bars left and right), and matching aspects fill the
//! destination exactly.
//!
//! Aspect ratios are compared without division: `sw / sh > dw / dh` exactly
//! when `sw * dh > dw * sh`, and all products stay far below `u64::MAX`
//! for dimensions bounded by [`crate::MAX_DIM`].

use vstd::prelude::*;
use vstd::arithmetic::div_mod::{lemma_multiply_divide_le, lemma_multiply_divide_lt};
use vstd::arithmetic::mul::lemma_mul_upper_bound;
use crate::MAX_DIM;

verus! {

/// The destination sub-rectangle of one draw, in pixels of the
/// presentation surface.
#[derive(Clone, Copy, Debug, PartialEq, Eq, Structural)]
pub struct Viewport {
    pub x: u32,
    pub y: u32,
    pub width: u32,
    pub height: u32,
}

/// The width of the fitted rectangle: the full destination width unless the
/// source is narrower in aspect than the destination, in which case the
/// width shrinks to `dh * sw / sh` (rounded down).
pub open spec fn fit_width(sw: int, sh: int, dw: int, dh: int) -> int {
    if sw * dh < dw * sh {
        dh * sw / sh
    } else {
        dw
    }
}

/// The height of the fitted rectangle: the full destination height unless
/// the source is wider in aspect than the destination, in which case the
/// height shrinks to `dw * sh / sw` (rounded down).
pub open spec fn fit_height(sw: int, sh: int, dw: int, dh: int) -> int {
    if sw * dh > dw * sh {
        dw * sh / sw
    } else {
        dh
    }
}

impl Viewport {
    /// The rectangle lies inside a `dw` by `dh` destination.
    pub open spec fn inside(self, dw: int, dh: int) -> bool {
        &&& self.x + self.width <= dw
        &&& self.y + self.height <= dh
    }
}

/// The viewport [`compute_viewport`] returns: the fitted rectangle,
/// centered in the unused space of the destination.
pub open spec fn spec_viewport(sw: int, sh: int, dw: int, dh: int) -> Viewport {
    let w = fit_width(sw, sh, dw, dh);
    let h = fit_height(sw, sh, dw, dh);
    Viewport {
        x: ((dw - w) / 2) as u32,
        y: ((dh - h) / 2) as u32,
        width: w as u32,
        height: h as u32,
    }
}

/// Compute the letterbox / pillarbox viewport for a `sw` by `sh` source
/// presented on a `dw` by `dh` surface.
///
/// The fitted rectangle keeps the source aspect ratio (up to rounding of
/// the shrunk side), is centered in the unused space, and never exceeds the
/// destination: a source wider in aspect gets the full destination width
/// and a strictly smaller height; a narrower source gets the full height
/// and a strictly smaller width; equal aspects fill the destination.
pub fn compute_viewport(sw: u32, sh: u32, dw: u32, dh: u32) -> (v: Viewport)
    requires
        0 < sw <= MAX_DIM,
        0 < sh <= MAX_DIM,
        0 < dw <= MAX_DIM,
        0 < dh <= MAX_DIM,
    ensures
        v == spec_viewport(sw as int, sh as int, dw as int, dh as int),
        v.width == fit_width(sw as int, sh as int, dw as int, dh as int),
        v.height == fit_height(sw as int, sh as int, dw as int, dh as int),
        v.x == (dw - v.width) / 2,
        v.y == (dh - v.height) / 2,
        v.width <= dw,
        v.height <= dh,
        v.inside(dw as int, dh as int),
        sw * dh > dw * sh ==> v.width == dw && v.height < dh && v.x == 0,
        sw * dh < dw * sh ==> v.height == dh && v.width < dw && v.y == 0,
        sw * dh == dw * sh ==> v == (Viewport { x: 0, y: 0, width: dw, height: dh }),
{
    proof {
        lemma_mul_upper_bound(sw as int, MAX_DIM as int, dh as int, MAX_DIM as int);
        lemma_mul_upper_bound(dw as int, MAX_DIM as int, sh as int, MAX_DIM as int);
        lemma_mul_upper_bound(dh as int, MAX_DIM as int, sw as int, MAX_DIM as int);
    }
    let src_cross: u64 = (sw as u64) * (dh as u64);
    let dst_cross: u64 = (dw as u64) * (sh as u64);
    if src_cross > dst_cross {
        let fitted: u64 = (dw as u64) * (sh as u64) / (sw as u64);
        proof {
            lemma_multiply_divide_lt(dw as int * sh as int, sw as int, dh as int);
        }
        let height: u32 = fitted as u32;
        Viewport { x: 0, y: (dh - height) / 2, width: dw, height }
    } else if src_cross < dst_cross {
        let fitted: u64 = (dh as u64) * (sw as u64) / (sh as u64);
        proof {
            lemma_multiply_divide_lt(dh as int * sw as int, sh as int, dw as int);
        }
        let width: u32 = fitted as u32;
        Viewport { x: (dw - width) / 2, y: 0, width, height: dh }
    } else {
        Viewport { x: 0, y: 0, width: dw, height: dh }
    }
}

/// The fitted rectangle never exceeds the destination in either direction,
/// whatever the aspect ratios.
pub proof fn lemma_fit_bounded(sw: int, sh: int, dw: int, dh: int)
    requires
        0 < sw,
        0 < sh,
        0 < dw,
        0 < dh,
    ensures
        0 <= fit_width(sw, sh, dw, dh) <= dw,
        0 <= fit_height(sw, sh, dw, dh) <= dh,
{
    if sw * dh > dw * sh {
        lemma_multiply_divide_le(dw * sh, sw, dh);
        vstd::arithmetic::div_mod::lemma_div_pos_is_pos(dw * sh, sw);
    }
    if sw * dh < dw * sh {
        lemma_multiply_divide_le(dh * sw, sh, dw);
        vstd::arithmetic::div_mod::lemma_div_pos_is_pos(dh * sw, sh);
    }
}

} // verus!
