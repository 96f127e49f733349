//! The error taxonomy of the pipeline.

use vstd::prelude::*;

verus! {

/// Everything that can go wrong between opening a media source and
/// presenting a frame.
///
/// All variants but [`PipelineError::SurfaceAcquire`] are unrecoverable for
/// the component that raises them: the owning stage must stop and close its
/// output queue so the failure is observable downstream. A lost presentation
/// surface is recoverable: the presenter reconfigures the surface and skips
/// the current draw.
#[derive(Clone, Copy, Debug, PartialEq, Eq, Structural)]
pub enum PipelineError {
    /// The media path is missing or unreadable, or the container format is
    /// not recognized.
    SourceOpen,
    /// No stream in the source matches the requested media type.
    StreamNotFound,
    /// The decoder rejected a packet or a frame.
    Decode,
    /// A frame arrived in a pixel format outside the supported set.
    UnsupportedPixelFormat,
    /// The GPU adapter, device or surface could not be acquired.
    GpuDevice,
    /// The next presentation image is unavailable (for example, the surface
    /// was lost).
    SurfaceAcquire,
}

impl PipelineError {
    /// Whether the pipeline may continue after this error.
    ///
    /// Only a failed surface acquisition is recoverable: the presenter
    /// reconfigures and retries on the next draw. Every other error stops
    /// the component that met it.
    pub fn is_recoverable(&self) -> (r: bool)
        ensures
            r == (*self == PipelineError::SurfaceAcquire),
    {
        match self {
            PipelineError::SurfaceAcquire => true,
            _ => false,
        }
    }

    /// A short description for diagnostics.
    pub fn describe(&self) -> &'static str {
        match self {
            PipelineError::SourceOpen => "cannot open the media source",
            PipelineError::StreamNotFound => "no stream of the requested media type",
            PipelineError::Decode => "the decoder rejected its input",
            PipelineError::UnsupportedPixelFormat => "unsupported pixel format",
            PipelineError::GpuDevice => "cannot acquire the GPU device",
            PipelineError::SurfaceAcquire => "cannot acquire the presentation surface",
        }
    }
}

} // verus!
