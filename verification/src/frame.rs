//! What the event loop does after a frame: how the renderer's outcome is
//! answered, and when the session is written to disk.

use vstd::prelude::*;

verus! {

/// How drawing a frame went.
#[derive(Clone, Copy, PartialEq, Eq, Structural, Debug)]
pub enum FrameOutcome {
    /// The frame was drawn and presented.
    Rendered,
    /// Nothing could be drawn this time (the surface timed out or is
    /// hidden); try again next frame.
    Skip,
    /// The surface no longer fits the window and must be configured again.
    Reconfigure,
    /// The surface cannot be used at all.
    Fatal,
}

/// What the event loop does about a frame's outcome.
#[derive(Clone, Copy, PartialEq, Eq, Structural, Debug)]
pub enum FrameAction {
    /// Go on with the next frame.
    Continue,
    /// Configure the surface again at the window's current size.
    Reconfigure,
    /// Leave the event loop.
    Exit,
}

/// The answer to each outcome: a skipped frame is not an error, a stale
/// surface is configured again, and a fatal one ends the program.
pub open spec fn frame_action_spec(o: FrameOutcome) -> FrameAction {
    match o {
        FrameOutcome::Rendered => FrameAction::Continue,
        FrameOutcome::Skip => FrameAction::Continue,
        FrameOutcome::Reconfigure => FrameAction::Reconfigure,
        FrameOutcome::Fatal => FrameAction::Exit,
    }
}

pub fn frame_action(o: FrameOutcome) -> (r: FrameAction)
    ensures
        r == frame_action_spec(o),
{
    match o {
        FrameOutcome::Rendered | FrameOutcome::Skip => FrameAction::Continue,
        FrameOutcome::Reconfigure => FrameAction::Reconfigure,
        FrameOutcome::Fatal => FrameAction::Exit,
    }
}

/// Least time between two writes of the session, in milliseconds.
pub const SAVE_DEBOUNCE_MS: u64 = 1000;

/// The session is written when something changed and the last write is
/// at least `SAVE_DEBOUNCE_MS` old.
pub fn should_save(dirty: bool, since_last_save_ms: u64) -> (r: bool)
    ensures
        r == (dirty && since_last_save_ms >= SAVE_DEBOUNCE_MS),
{
    dirty && since_last_save_ms >= SAVE_DEBOUNCE_MS
}

} // verus!
