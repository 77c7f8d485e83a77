//! The presentation surface: the platform's chain of presentable images,
//! modelled by its format, extent, image count and a generation counter that
//! is bumped on every rebuild.

use vstd::prelude::*;

verus! {

/// A drawable size in pixels, as the windowing system reports it.
#[derive(Clone, Copy, PartialEq, Eq, Structural, Debug)]
pub struct Extent {
    pub width: u32,
    pub height: u32,
}

/// What the platform reports about a window/device pair before the image
/// chain is first created.
#[derive(Clone, Copy, PartialEq, Eq, Structural, Debug)]
pub struct SurfaceCaps {
    /// The platform offers at least one pixel format for this surface.
    pub format_supported: bool,
    /// Identifier of the pixel format the platform ranks first.
    pub format: u32,
    /// The smallest image count the platform accepts for the chain.
    pub min_image_count: usize,
}

impl SurfaceCaps {
    /// The platform never asks for an empty image chain.
    pub open spec fn wf(self) -> bool {
        self.min_image_count >= 1
    }
}

/// The platform's answer to an attempt to rebuild the image chain.
#[derive(Clone, Copy, PartialEq, Eq, Structural, Debug)]
pub enum RecreateOutcome {
    /// The chain was rebuilt at the requested extent.
    Success,
    /// The requested extent is temporarily unusable (for instance during a
    /// minimize transition); the tick is skipped and the rebuild retried.
    ExtentUnsupported,
    /// Any other rebuild failure; the process cannot recover from it.
    DeviceLost,
}

/// The platform's answer to a blocking request for the next presentable
/// image.
#[derive(Clone, Copy, PartialEq, Eq, Structural, Debug)]
pub enum AcquireOutcome {
    /// An image is ready for rendering. `suboptimal` means it is usable this
    /// tick, but the surface should be rebuilt afterwards.
    Ready { image_index: usize, suboptimal: bool },
    /// The surface must be rebuilt before the next acquire.
    OutOfDate,
    /// Any other acquisition failure; the process cannot recover from it.
    DeviceLost,
}

/// Failure of the initial surface creation.
#[derive(Clone, Copy, PartialEq, Eq, Structural, Debug)]
pub enum SurfaceError {
    /// The platform offers no usable pixel format for this window.
    Unsupported,
}

/// Failure of a surface rebuild.
#[derive(Clone, Copy, PartialEq, Eq, Structural, Debug)]
pub enum RecreateError {
    /// Transient: skip this tick and retry on the next one.
    ExtentUnsupported,
    /// Structural device failure: the caller must terminate.
    Fatal,
}

/// Failure of an image acquisition.
#[derive(Clone, Copy, PartialEq, Eq, Structural, Debug)]
pub enum AcquireError {
    /// Structural: rebuild the surface, then retry on the next tick.
    OutOfDate,
    /// The caller must terminate.
    Fatal,
}

/// A signal that becomes ready when the acquired image is safe to write.
#[derive(Clone, Copy, PartialEq, Eq, Structural, Debug)]
pub struct AcquireSignal {
    /// Fresh identifier of this acquisition, issued by the frame loop.
    pub id: u64,
}

/// A successful acquisition: which image to render into, whether the surface
/// should be rebuilt afterwards, and the readiness signal to wait on before
/// the GPU may write the image.
#[derive(Clone, Copy, PartialEq, Eq, Structural, Debug)]
pub struct AcquiredImage {
    pub image_index: usize,
    pub suboptimal: bool,
    pub signal: AcquireSignal,
}

/// The model of the presentation surface. The platform's image handles are
/// opaque; what the core reads of them is their count and their common
/// extent, so the chain is carried as those two values. `generation` tells
/// resources derived from one chain apart from those derived from another.
#[derive(Clone, Copy, PartialEq, Eq, Structural, Debug)]
pub struct Surface {
    pub format: u32,
    pub extent: Extent,
    pub image_count: usize,
    /// Bumped on every rebuild; never reused within one run.
    pub generation: u64,
}

impl Surface {
    pub open spec fn wf(self) -> bool {
        self.image_count >= 1
    }

    /// The surface that a successful rebuild at `new_extent` yields: same
    /// format and image count, new extent, next generation.
    pub open spec fn recreated(self, new_extent: Extent) -> Surface
        recommends
            self.generation < u64::MAX,
    {
        Surface {
            extent: new_extent,
            generation: (self.generation + 1) as u64,
            ..self
        }
    }

    /// Creates the surface from the platform's capabilities, sized to the
    /// window's current drawable extent, with the platform's preferred format
    /// and its minimum image count.
    pub fn create(caps: SurfaceCaps, window_extent: Extent) -> (r: Result<Surface, SurfaceError>)
        requires
            caps.wf(),
        ensures
            (r is Ok) == caps.format_supported,
            r matches Ok(s) ==> s == (Surface {
                format: caps.format,
                extent: window_extent,
                image_count: caps.min_image_count,
                generation: 0,
            }),
            r matches Ok(s) ==> s.wf(),
            !caps.format_supported ==> r == Err::<Surface, SurfaceError>(SurfaceError::Unsupported),
    {
        if caps.format_supported {
            Ok(Surface {
                format: caps.format,
                extent: window_extent,
                image_count: caps.min_image_count,
                generation: 0,
            })
        } else {
            Err(SurfaceError::Unsupported)
        }
    }

    /// Rebuilds the chain at `new_extent`, keeping the creation format and
    /// image count. `outcome` is the platform's answer to the rebuild: on
    /// success the old handle is retired and the next-generation surface
    /// returned; a temporarily unsupported extent is a transient error to be
    /// retried next tick; anything else is fatal.
    pub fn recreate(&self, new_extent: Extent, outcome: RecreateOutcome) -> (r: Result<
        Surface,
        RecreateError,
    >)
        requires
            self.generation < u64::MAX,
        ensures
            (r is Ok) == (outcome is Success),
            r matches Ok(s) ==> s == self.recreated(new_extent),
            outcome is ExtentUnsupported ==> r == Err::<Surface, RecreateError>(
                RecreateError::ExtentUnsupported,
            ),
            outcome is DeviceLost ==> r == Err::<Surface, RecreateError>(RecreateError::Fatal),
    {
        match outcome {
            RecreateOutcome::Success => Ok(Surface {
                format: self.format,
                extent: new_extent,
                image_count: self.image_count,
                generation: self.generation + 1,
            }),
            RecreateOutcome::ExtentUnsupported => Err(RecreateError::ExtentUnsupported),
            RecreateOutcome::DeviceLost => Err(RecreateError::Fatal),
        }
    }

    /// Blocks until the platform hands out the next presentable image (this
    /// design passes no timeout). `outcome` is the platform's answer;
    /// `signal` is the fresh identifier the frame loop assigns to this
    /// acquisition's readiness signal. An out-of-date surface is a structural
    /// error: rebuild, then retry next tick.
    pub fn acquire_next(&self, outcome: AcquireOutcome, signal: AcquireSignal) -> (r: Result<
        AcquiredImage,
        AcquireError,
    >)
        requires
            outcome matches AcquireOutcome::Ready { image_index, .. } ==> image_index
                < self.image_count,
        ensures
            (r is Ok) == (outcome is Ready),
            outcome matches AcquireOutcome::Ready { image_index, suboptimal } ==> r == Ok::<
                AcquiredImage,
                AcquireError,
            >(AcquiredImage { image_index, suboptimal, signal }),
            r matches Ok(a) ==> a.image_index < self.image_count,
            outcome is OutOfDate ==> r == Err::<AcquiredImage, AcquireError>(
                AcquireError::OutOfDate,
            ),
            outcome is DeviceLost ==> r == Err::<AcquiredImage, AcquireError>(AcquireError::Fatal),
    {
        match outcome {
            AcquireOutcome::Ready { image_index, suboptimal } => Ok(AcquiredImage {
                image_index,
                suboptimal,
                signal,
            }),
            AcquireOutcome::OutOfDate => Err(AcquireError::OutOfDate),
            AcquireOutcome::DeviceLost => Err(AcquireError::Fatal),
        }
    }
}

} // verus!
