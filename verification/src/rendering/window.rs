//! What a window remembers between frames: whether its swapchain has to be
//! made anew before the next image is acquired.
//!
//! The renderer makes the graphics calls and reports how each ended; the
//! window says what follows.

use vstd::prelude::*;
use crate::rendering::error::RenderingError;

verus! {

/// How making the swapchain anew ended.
#[derive(Clone, Copy, Debug, PartialEq, Eq, Structural)]
pub enum RecreateOutcome {
    /// There is a new swapchain.
    Recreated,
    /// The window has a size that no swapchain can have, as it has while it
    /// is being resized.
    UnsupportedDimensions,
    /// Any other failure.
    Failed,
}

/// How acquiring the next image ended.
#[derive(Clone, Copy, Debug, PartialEq, Eq, Structural)]
pub enum AcquireOutcome {
    /// An image was acquired. A suboptimal image can be drawn to, but the
    /// swapchain no longer fits the surface.
    Acquired { suboptimal: bool },
    /// The swapchain is out of date.
    OutOfDate,
    /// Any other failure.
    Failed,
}

/// How submitting and presenting a frame ended.
#[derive(Clone, Copy, Debug, PartialEq, Eq, Structural)]
pub enum PresentOutcome {
    /// The frame is on its way to the screen.
    Presented,
    /// The swapchain is out of date.
    OutOfDate,
    /// Any other failure.
    Failed,
}

/// The presentation state of one window.
#[derive(Clone, Copy, Debug, PartialEq, Eq, Structural)]
pub struct RenderWindow {
    recreate_swapchain: bool,
}

impl RenderWindow {
    /// Whether the swapchain has to be made anew before the next image is
    /// acquired.
    pub closed spec fn stale(&self) -> bool {
        self.recreate_swapchain
    }

    /// The state of a window whose swapchain was just made.
    pub fn new() -> (window: RenderWindow)
        ensures
            !window.stale(),
    {
        RenderWindow { recreate_swapchain: false }
    }

    /// Whether the swapchain has to be made anew before the next image is
    /// acquired.
    #[verifier::when_used_as_spec(stale)]
    pub fn needs_recreation(&self) -> (stale: bool)
        ensures
            stale == self.stale(),
    {
        self.recreate_swapchain
    }

    /// The window was resized: its swapchain no longer fits.
    pub fn on_resize(&mut self)
        ensures
            final(self).stale(),
    {
        self.recreate_swapchain = true;
    }

    /// Takes the outcome of making the swapchain anew. With a new swapchain
    /// the window is no longer stale and the frame goes on; otherwise the
    /// window stays as it was and the frame cannot be drawn.
    pub fn on_recreated(&mut self, outcome: RecreateOutcome) -> (result: Result<
        (),
        RenderingError,
    >)
        ensures
            result == match outcome {
                RecreateOutcome::Recreated => Ok::<(), RenderingError>(()),
                RecreateOutcome::UnsupportedDimensions => Err(
                    RenderingError::RecreateSwapchainFailed,
                ),
                RecreateOutcome::Failed => Err(RenderingError::DeviceFailed),
            },
            final(self).stale() == (old(self).stale() && outcome != RecreateOutcome::Recreated),
    {
        match outcome {
            RecreateOutcome::Recreated => {
                self.recreate_swapchain = false;
                Ok(())
            },
            RecreateOutcome::UnsupportedDimensions => Err(RenderingError::RecreateSwapchainFailed),
            RecreateOutcome::Failed => Err(RenderingError::DeviceFailed),
        }
    }

    /// Takes the outcome of acquiring the next image. An image that was
    /// acquired can be drawn to. A suboptimal image and a swapchain that is
    /// out of date leave the window stale.
    pub fn on_acquired(&mut self, outcome: AcquireOutcome) -> (result: Result<(), RenderingError>)
        ensures
            result == match outcome {
                AcquireOutcome::Acquired { .. } => Ok::<(), RenderingError>(()),
                AcquireOutcome::OutOfDate => Err(RenderingError::ImageAcquireFailed),
                AcquireOutcome::Failed => Err(RenderingError::DeviceFailed),
            },
            final(self).stale() == (old(self).stale() || outcome == AcquireOutcome::OutOfDate
                || outcome == (AcquireOutcome::Acquired { suboptimal: true })),
    {
        match outcome {
            AcquireOutcome::Acquired { suboptimal } => {
                if suboptimal {
                    self.recreate_swapchain = true;
                }
                Ok(())
            },
            AcquireOutcome::OutOfDate => {
                self.recreate_swapchain = true;
                Err(RenderingError::ImageAcquireFailed)
            },
            AcquireOutcome::Failed => Err(RenderingError::DeviceFailed),
        }
    }

    /// Takes the outcome of presenting the frame. A swapchain that is out of
    /// date leaves the window stale. The result says whether the frame is in
    /// flight, so that the next frame has to wait for it.
    pub fn on_presented(&mut self, outcome: PresentOutcome) -> (in_flight: bool)
        ensures
            in_flight == (outcome == PresentOutcome::Presented),
            final(self).stale() == (old(self).stale() || outcome == PresentOutcome::OutOfDate),
    {
        match outcome {
            PresentOutcome::Presented => true,
            PresentOutcome::OutOfDate => {
                self.recreate_swapchain = true;
                false
            },
            PresentOutcome::Failed => false,
        }
    }
}

} // verus!
