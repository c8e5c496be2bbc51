//! The choices that rendering makes, apart from the graphics calls
//! themselves: which queue family draws, when the swapchain of a window is
//! made anew, and how a frame goes on after each step.

use vstd::prelude::*;

pub mod context;
pub mod error;
pub mod system;
pub mod window;

pub use self::context::{choose_queue_family, QueueFamilyInfo};
pub use self::error::RenderingError;
pub use self::system::{closed_last_window, frame_step, FrameStep};
pub use self::window::{AcquireOutcome, PresentOutcome, RecreateOutcome, RenderWindow};

verus! {

/// Identifies a geometry that the renderer holds.
pub type GeometryId = u32;

} // verus!
