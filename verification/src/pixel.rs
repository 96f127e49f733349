//! Pixel formats and chroma subsampling geometry.
//!
//! The pipeline presents packed RGBA directly and converts the planar YUV
//! families enumerated here. Each planar family is described by its chroma
//! layout: the divisors by which the two chroma planes are subsampled
//! relative to the luma plane.

use vstd::prelude::*;

verus! {

/// The pixel format tag of a decoded frame.
///
/// `Rgba` is the single directly presentable packed format. The `Yuv*`
/// variants are the supported planar families (the `J` variants are their
/// full-range twins, with the same plane geometry). `Other` stands for any
/// format outside the supported set; a frame carrying it is a fatal
/// condition for the convert stage.
#[derive(Clone, Copy, Debug, PartialEq, Eq, Structural)]
pub enum PixelFormat {
    Rgba,
    Yuv410p,
    Yuv411p,
    Yuvj411p,
    Yuv420p,
    Yuvj420p,
    Yuv422p,
    Yuvj422p,
    Yuv440p,
    Yuvj440p,
    Yuv444p,
    Yuvj444p,
    Other,
}

/// Horizontal and vertical subsampling divisors of the two chroma planes
/// of a planar family: a chroma plane of a `w` by `h` frame is
/// `w / horizontal` by `h / vertical`.
#[derive(Clone, Copy, Debug, PartialEq, Eq, Structural)]
pub struct ChromaLayout {
    pub horizontal: u32,
    pub vertical: u32,
}

impl PixelFormat {
    /// The format is a supported planar YUV family.
    pub open spec fn is_planar(self) -> bool {
        self matches (PixelFormat::Yuv410p | PixelFormat::Yuv411p | PixelFormat::Yuvj411p
            | PixelFormat::Yuv420p | PixelFormat::Yuvj420p | PixelFormat::Yuv422p
            | PixelFormat::Yuvj422p | PixelFormat::Yuv440p | PixelFormat::Yuvj440p
            | PixelFormat::Yuv444p | PixelFormat::Yuvj444p)
    }

    /// The format is packed RGBA, presentable without conversion.
    pub open spec fn is_packed(self) -> bool {
        self is Rgba
    }

    /// The pipeline can present a frame of this format, directly or after
    /// conversion.
    pub open spec fn is_supported(self) -> bool {
        self.is_packed() || self.is_planar()
    }

    /// The chroma layout of a planar family.
    pub open spec fn spec_chroma_layout(self) -> ChromaLayout
        recommends
            self.is_planar(),
    {
        match self {
            PixelFormat::Yuv410p => ChromaLayout { horizontal: 4, vertical: 4 },
            PixelFormat::Yuv411p | PixelFormat::Yuvj411p => ChromaLayout {
                horizontal: 4,
                vertical: 1,
            },
            PixelFormat::Yuv420p | PixelFormat::Yuvj420p => ChromaLayout {
                horizontal: 2,
                vertical: 2,
            },
            PixelFormat::Yuv422p | PixelFormat::Yuvj422p => ChromaLayout {
                horizontal: 2,
                vertical: 1,
            },
            PixelFormat::Yuv440p | PixelFormat::Yuvj440p => ChromaLayout {
                horizontal: 1,
                vertical: 2,
            },
            _ => ChromaLayout { horizontal: 1, vertical: 1 },
        }
    }

    /// Number of planes a well-formed frame of this format carries.
    pub open spec fn spec_plane_count(self) -> int {
        if self.is_planar() {
            3
        } else if self.is_packed() {
            1
        } else {
            0
        }
    }

    /// Whether the pipeline can present this format (directly or after
    /// conversion).
    pub fn supported(&self) -> (r: bool)
        ensures
            r == self.is_supported(),
    {
        match self {
            PixelFormat::Other => false,
            _ => true,
        }
    }

    /// Whether the format is a single packed RGBA plane, presentable with
    /// no conversion.
    pub fn packed(&self) -> (r: bool)
        ensures
            r == self.is_packed(),
    {
        matches!(self, PixelFormat::Rgba)
    }

    /// Whether the format is a supported planar YUV family.
    pub fn planar(&self) -> (r: bool)
        ensures
            r == self.is_planar(),
    {
        match self {
            PixelFormat::Rgba | PixelFormat::Other => false,
            _ => true,
        }
    }

    /// The chroma layout of a planar family.
    pub fn chroma_layout(&self) -> (r: ChromaLayout)
        requires
            self.is_planar(),
        ensures
            r == self.spec_chroma_layout(),
    {
        match self {
            PixelFormat::Yuv410p => ChromaLayout { horizontal: 4, vertical: 4 },
            PixelFormat::Yuv411p | PixelFormat::Yuvj411p => ChromaLayout {
                horizontal: 4,
                vertical: 1,
            },
            PixelFormat::Yuv420p | PixelFormat::Yuvj420p => ChromaLayout {
                horizontal: 2,
                vertical: 2,
            },
            PixelFormat::Yuv422p | PixelFormat::Yuvj422p => ChromaLayout {
                horizontal: 2,
                vertical: 1,
            },
            PixelFormat::Yuv440p | PixelFormat::Yuvj440p => ChromaLayout {
                horizontal: 1,
                vertical: 2,
            },
            _ => ChromaLayout { horizontal: 1, vertical: 1 },
        }
    }
}

/// The chroma divisors of every supported planar family are 1, 2 or 4 in
/// each direction.
pub proof fn lemma_chroma_divisors_small(format: PixelFormat)
    requires
        format.is_planar(),
    ensures
        format.spec_chroma_layout().horizontal == 1 || format.spec_chroma_layout().horizontal == 2
            || format.spec_chroma_layout().horizontal == 4,
        format.spec_chroma_layout().vertical == 1 || format.spec_chroma_layout().vertical == 2
            || format.spec_chroma_layout().vertical == 4,
{
}

} // verus!
