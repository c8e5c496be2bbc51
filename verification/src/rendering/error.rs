//! Why a frame could not be drawn.

use vstd::prelude::*;

verus! {

/// Why a frame could not be drawn.
#[derive(Clone, Copy, Debug, PartialEq, Eq, Structural)]
pub enum RenderingError {
    /// The swapchain was out of date when the next image was asked for.
    ImageAcquireFailed,
    /// The swapchain could not be made anew for the size of the window.
    RecreateSwapchainFailed,
    /// The device or the surface failed.
    DeviceFailed,
}

} // verus!
