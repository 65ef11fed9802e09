//! What a desktop window's event loop does with each event it receives.

use vstd::prelude::*;
use crate::defs::control::{InputState, KeyCode};

verus! {

/// A window-system event, with its key already translated where it is one
/// that the engine recognises.
#[derive(Copy, Clone, Debug, PartialEq, Eq, Structural)]
pub enum PlatformEvent {
    /// The user asked to close the window.
    CloseRequested,
    /// The Escape key changed state.
    EscapeKey(InputState),
    /// Another identified key changed state, translated to the engine's code.
    Key(KeyCode, InputState),
    /// A key without a virtual key code changed state.
    UnidentifiedKey,
    /// The window was resized.
    Resized,
    /// All pending input events were handled.
    EventsCleared,
    /// The window asks to be redrawn.
    RedrawRequested,
    /// Anything else.
    Other,
}

/// What the event loop does in answer to one event.
#[derive(Copy, Clone, Debug, PartialEq, Eq, Structural)]
pub enum PlatformAction {
    /// Leave the event loop.
    Exit,
    /// Hand the key event to the engine.
    ForwardKey(KeyCode, InputState),
    /// Recreate the rendering surface for the new window size.
    RecreateSurface,
    /// Pull a time step, update the engine with it, and request a redraw.
    UpdateAndRequestRedraw,
    /// Draw a frame.
    Render,
    /// Do nothing.
    Nothing,
}

/// The answer to each event: closing or pressing Escape exits; releasing
/// Escape reaches the engine as an unrecognised key; other identified keys
/// reach the engine; a resize recreates the surface; the end of the input
/// events updates the engine and asks for a redraw, which draws a frame.
pub open spec fn spec_action_for_event(event: PlatformEvent) -> PlatformAction {
    match event {
        PlatformEvent::CloseRequested => PlatformAction::Exit,
        PlatformEvent::EscapeKey(InputState::Pressed) => PlatformAction::Exit,
        PlatformEvent::EscapeKey(InputState::Released) => PlatformAction::ForwardKey(
            KeyCode::Unknown,
            InputState::Released,
        ),
        PlatformEvent::Key(code, state) => PlatformAction::ForwardKey(code, state),
        PlatformEvent::UnidentifiedKey => PlatformAction::Nothing,
        PlatformEvent::Resized => PlatformAction::RecreateSurface,
        PlatformEvent::EventsCleared => PlatformAction::UpdateAndRequestRedraw,
        PlatformEvent::RedrawRequested => PlatformAction::Render,
        PlatformEvent::Other => PlatformAction::Nothing,
    }
}

/// Decide what the event loop does with an event.
pub fn action_for_event(event: PlatformEvent) -> (r: PlatformAction)
    ensures
        r == spec_action_for_event(event),
        event matches PlatformEvent::Key(code, state) ==> r == PlatformAction::ForwardKey(code, state),
        (r == PlatformAction::Exit) == (event == PlatformEvent::CloseRequested || event
            == PlatformEvent::EscapeKey(InputState::Pressed)),
        (r == PlatformAction::RecreateSurface) == (event == PlatformEvent::Resized),
        (r == PlatformAction::UpdateAndRequestRedraw) == (event == PlatformEvent::EventsCleared),
        (r == PlatformAction::Render) == (event == PlatformEvent::RedrawRequested),
{
    proof {
        lemma_keys_reach_engine_unchanged(event);
        lemma_exit_only_on_close_or_escape(event);
        lemma_work_has_one_cause(event);
    }
    match event {
        PlatformEvent::CloseRequested => PlatformAction::Exit,
        PlatformEvent::EscapeKey(InputState::Pressed) => PlatformAction::Exit,
        PlatformEvent::EscapeKey(InputState::Released) => PlatformAction::ForwardKey(
            KeyCode::Unknown,
            InputState::Released,
        ),
        PlatformEvent::Key(code, state) => PlatformAction::ForwardKey(code, state),
        PlatformEvent::UnidentifiedKey => PlatformAction::Nothing,
        PlatformEvent::Resized => PlatformAction::RecreateSurface,
        PlatformEvent::EventsCleared => PlatformAction::UpdateAndRequestRedraw,
        PlatformEvent::RedrawRequested => PlatformAction::Render,
        PlatformEvent::Other => PlatformAction::Nothing,
    }
}

/// The loop leaves only on a close request or a press of Escape.
pub proof fn lemma_exit_only_on_close_or_escape(event: PlatformEvent)
    ensures
        spec_action_for_event(event) == PlatformAction::Exit <==> (event
            == PlatformEvent::CloseRequested || event == PlatformEvent::EscapeKey(
            InputState::Pressed,
        )),
{
}

/// A key reaches the engine exactly as it arrived: an identified key is
/// forwarded with its own code and state, and whatever is forwarded is such a
/// key or the release of Escape, which the engine does not recognise.
pub proof fn lemma_keys_reach_engine_unchanged(event: PlatformEvent)
    ensures
        event matches PlatformEvent::Key(code, state) ==> spec_action_for_event(event)
            == PlatformAction::ForwardKey(code, state),
        spec_action_for_event(event) matches PlatformAction::ForwardKey(code, state) ==> (event
            == PlatformEvent::Key(code, state) || (event == PlatformEvent::EscapeKey(
            InputState::Released,
        ) && code == KeyCode::Unknown && state == InputState::Released)),
{
}

/// Each kind of loop work has one cause: the surface is recreated only on a
/// resize, the engine updated only when input events are cleared, and a
/// frame drawn only on a redraw request.
pub proof fn lemma_work_has_one_cause(event: PlatformEvent)
    ensures
        (spec_action_for_event(event) == PlatformAction::RecreateSurface) == (event
            == PlatformEvent::Resized),
        (spec_action_for_event(event) == PlatformAction::UpdateAndRequestRedraw) == (event
            == PlatformEvent::EventsCleared),
        (spec_action_for_event(event) == PlatformAction::Render) == (event
            == PlatformEvent::RedrawRequested),
{
}

} // verus!
