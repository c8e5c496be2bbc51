//! The rendering system: how a frame over all windows goes on, and when the
//! last window is gone.

use vstd::prelude::*;
use crate::rendering::error::RenderingError;

verus! {

/// How a frame goes on after an image of a window was asked for.
#[derive(Clone, Copy, Debug, PartialEq, Eq, Structural)]
pub enum FrameStep {
    /// Draw to the image, then go on to the next window.
    Draw,
    /// Leave the frame; the windows that remain are not drawn.
    EndFrame,
    /// The renderer cannot go on.
    Abort,
}

/// Decides how a frame goes on after an image of a window was asked for. A
/// swapchain that is out of date or cannot be made anew ends the frame
/// quietly; any other error stops the renderer.
pub fn frame_step(acquired: Result<(), RenderingError>) -> (step: FrameStep)
    ensures
        step == match acquired {
            Ok(_) => FrameStep::Draw,
            Err(RenderingError::ImageAcquireFailed) => FrameStep::EndFrame,
            Err(RenderingError::RecreateSwapchainFailed) => FrameStep::EndFrame,
            Err(RenderingError::DeviceFailed) => FrameStep::Abort,
        },
{
    match acquired {
        Ok(_) => FrameStep::Draw,
        Err(RenderingError::ImageAcquireFailed) => FrameStep::EndFrame,
        Err(RenderingError::RecreateSwapchainFailed) => FrameStep::EndFrame,
        Err(_) => FrameStep::Abort,
    }
}

/// Whether closing a window closed the last one: `remaining` windows are
/// open after it.
pub fn closed_last_window(remaining: usize) -> (was_last: bool)
    ensures
        was_last == (remaining == 0),
{
    remaining == 0
}

} // verus!
