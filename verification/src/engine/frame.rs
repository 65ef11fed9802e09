//! What the engine does after asking the renderer to draw a frame.

use vstd::prelude::*;
use crate::defs::EngineError;
use crate::defs::render::PresentResult;

verus! {

/// The engine's next step after a draw.
#[derive(Debug)]
pub enum RenderFollowUp {
    /// The frame was presented; nothing more to do.
    Done,
    /// The swapchain no longer matches the surface: recreate the surface,
    /// then pass the new aspect ratio to the current scene.
    RecreateSurface,
    /// Drawing failed with this error, which the engine passes on.
    Fail(EngineError),
}

/// Decide the engine's next step from the outcome of drawing a frame.
pub fn render_follow_up(draw_result: Result<PresentResult, EngineError>) -> (r: RenderFollowUp)
    ensures
        match draw_result {
            Ok(PresentResult::Success) => r is Done,
            Ok(PresentResult::SwapchainOutOfDate) => r is RecreateSurface,
            Err(e) => r == RenderFollowUp::Fail(e),
        },
{
    match draw_result {
        Ok(PresentResult::Success) => RenderFollowUp::Done,
        Ok(PresentResult::SwapchainOutOfDate) => RenderFollowUp::RecreateSurface,
        Err(e) => RenderFollowUp::Fail(e),
    }
}

} // verus!
