//! How a draw can end, and what each failure calls for.

use vstd::prelude::*;

verus! {

/// gfx-hal's `window::Suboptimal`: the marker that a presentation hands back
/// when the swapchain no longer fits the surface exactly and can still be
/// used. It is a unit struct; nothing is claimed of it, and the controller
/// only carries it.
#[verifier::external_type_specification]
#[verifier::external_body]
pub struct ExSuboptimal(gfx_hal::window::Suboptimal);

/// Why a draw failed.
#[derive(Clone, Copy, Debug, PartialEq, Eq)]
pub enum DrawingError {
    /// No image could be acquired from the swapchain.
    AcquireAnImageFromSwapchain,
    /// The finished image could not be presented into the swapchain.
    PresentIntoSwapchain,
    /// The frame's fence could not be reset.
    ResetFence,
    /// Waiting on the frame's fence failed.
    WaitOnFence,
}

/// What brings the renderer back after a failed draw.
#[derive(Clone, Copy, Debug, PartialEq, Eq)]
pub enum Recovery {
    /// The swapchain is stale: recreate it and keep the renderer.
    RecreateSwapchain,
    /// The renderer can no longer be trusted: release it and build a new one.
    RebuildRenderer,
}

impl DrawingError {
    /// A failure to acquire or to present an image is soft: only the swapchain
    /// is stale. A failure of a fence is hard.
    pub open spec fn is_soft(self) -> bool {
        self is AcquireAnImageFromSwapchain || self is PresentIntoSwapchain
    }

    /// The recovery that a failure calls for: the swapchain's for a soft one,
    /// the whole renderer's for a hard one.
    pub open spec fn recovery_of(self) -> Recovery {
        if self.is_soft() {
            Recovery::RecreateSwapchain
        } else {
            Recovery::RebuildRenderer
        }
    }

    pub fn recovery(&self) -> (recovery: Recovery)
        ensures
            recovery == self.recovery_of(),
    {
        match self {
            DrawingError::AcquireAnImageFromSwapchain => Recovery::RecreateSwapchain,
            DrawingError::PresentIntoSwapchain => Recovery::RecreateSwapchain,
            DrawingError::ResetFence => Recovery::RebuildRenderer,
            DrawingError::WaitOnFence => Recovery::RebuildRenderer,
        }
    }
}

} // verus!
