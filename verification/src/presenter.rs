//! The presenter's verifiable state: the presentation-surface
//! configuration and the per-draw viewport decision.
//!
//! The render pipeline, sampler, quad geometry and the draw submission
//! itself are the GPU side's outside work. What is decided here, and
//! proved: how resize requests are clamped into the surface configuration,
//! which viewport each draw uses, and how a failed surface acquisition is
//! answered (reconfigure and skip the draw — never a crash).

use vstd::prelude::*;
use crate::error::PipelineError;
use crate::texture_cache::TextureDesc;
use crate::viewport::{compute_viewport, spec_viewport, Viewport};
use crate::MAX_DIM;

verus! {

/// The answer to a draw-time surface failure.
#[derive(Clone, Copy, Debug, PartialEq, Eq, Structural)]
pub enum SurfaceResponse {
    /// Reconfigure the surface with the current dimensions and skip this
    /// draw; the next redraw opportunity retries.
    ReconfigureAndSkip,
    /// The error is not recoverable at draw time: stop with it.
    Abort(PipelineError),
}

/// The mutable presentation-surface configuration: the dimensions the
/// surface is currently configured with.
#[derive(Clone, Copy, Debug, PartialEq, Eq, Structural)]
pub struct PresenterState {
    pub surface_width: u32,
    pub surface_height: u32,
}

impl PresenterState {
    /// Configured dimensions are positive and within the device limit.
    pub open spec fn wf(self) -> bool {
        &&& 0 < self.surface_width <= MAX_DIM
        &&& 0 < self.surface_height <= MAX_DIM
    }

    /// The value a requested dimension is clamped to: at least 1, at most
    /// the device limit.
    pub open spec fn clamped(dim: int) -> int {
        if dim < 1 {
            1
        } else if dim > MAX_DIM {
            MAX_DIM as int
        } else {
            dim
        }
    }

    /// Configure the surface at first draw.
    pub fn new(width: u32, height: u32) -> (p: PresenterState)
        ensures
            p.wf(),
            p.surface_width == Self::clamped(width as int),
            p.surface_height == Self::clamped(height as int),
    {
        let mut p = PresenterState { surface_width: 1, surface_height: 1 };
        p.configure(width, height);
        p
    }

    /// (Re)configure the surface to new dimensions, clamping each axis to
    /// at least 1 and at most the device limit. Called on resize and at
    /// first draw.
    pub fn configure(&mut self, width: u32, height: u32)
        ensures
            final(self).wf(),
            final(self).surface_width == Self::clamped(width as int),
            final(self).surface_height == Self::clamped(height as int),
    {
        self.surface_width = if width < 1 {
            1
        } else if width > MAX_DIM {
            MAX_DIM
        } else {
            width
        };
        self.surface_height = if height < 1 {
            1
        } else if height > MAX_DIM {
            MAX_DIM
        } else {
            height
        };
    }

    /// The viewport for drawing `texture` on the configured surface:
    /// recomputed fresh on every draw, never cached across frames.
    pub fn viewport_for(&self, texture: &TextureDesc) -> (v: Viewport)
        requires
            self.wf(),
            0 < texture.width <= MAX_DIM,
            0 < texture.height <= MAX_DIM,
        ensures
            v == spec_viewport(
                texture.width as int,
                texture.height as int,
                self.surface_width as int,
                self.surface_height as int,
            ),
            v.inside(self.surface_width as int, self.surface_height as int),
    {
        compute_viewport(texture.width, texture.height, self.surface_width, self.surface_height)
    }

    /// Decide what to do when acquiring the next surface image fails with
    /// `e`: a lost surface is recoverable — reconfigure and skip the
    /// draw — while any other error aborts.
    pub fn on_draw_failure(&self, e: PipelineError) -> (r: SurfaceResponse)
        ensures
            e == PipelineError::SurfaceAcquire ==> r == SurfaceResponse::ReconfigureAndSkip,
            e != PipelineError::SurfaceAcquire ==> r == SurfaceResponse::Abort(e),
    {
        if e.is_recoverable() {
            SurfaceResponse::ReconfigureAndSkip
        } else {
            SurfaceResponse::Abort(e)
        }
    }
}

} // verus!
