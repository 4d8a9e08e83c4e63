//! The presentation loop's decisions: when to stop, and how long to sleep
//! so that frames come no faster than the frame rate.

use vstd::prelude::*;

verus! {

/// Frames presented per second at most.
pub const FRAMES_PER_SECOND: u64 = 60;

/// Nanoseconds in one second.
pub const NANOS_PER_SECOND: u64 = 1_000_000_000;

/// The input events the loop tells apart.
#[derive(Clone, Copy, Debug, PartialEq, Eq, Structural)]
pub enum InputEvent {
    /// The window was closed.
    Quit,
    /// The escape key was pressed.
    EscapeDown,
    /// Anything else.
    Other,
}

/// What the loop does after an event.
#[derive(Clone, Copy, Debug, PartialEq, Eq, Structural)]
pub enum LoopAction {
    /// Leave the loop.
    Stop,
    /// Clear and present a frame, then wait for the next frame time.
    Present,
}

/// The loop stops on a window close or on the escape key, and presents a
/// frame on anything else.
pub open spec fn action_for_spec(e: InputEvent) -> LoopAction {
    match e {
        InputEvent::Quit | InputEvent::EscapeDown => LoopAction::Stop,
        InputEvent::Other => LoopAction::Present,
    }
}

/// What the loop does after event `e`.
pub fn action_for(e: InputEvent) -> (r: LoopAction)
    ensures
        r == action_for_spec(e),
{
    match e {
        InputEvent::Quit => LoopAction::Stop,
        InputEvent::EscapeDown => LoopAction::Stop,
        InputEvent::Other => LoopAction::Present,
    }
}

/// The length of one frame in nanoseconds: a second divided by the frame
/// rate, rounded down.
pub fn frame_length_nanos() -> (r: u64)
    ensures
        r == NANOS_PER_SECOND / FRAMES_PER_SECOND,
        r == 16_666_666,
{
    NANOS_PER_SECOND / FRAMES_PER_SECOND
}

/// How long to sleep at time `now` before the frame due at `next_frame`:
/// the time left until then, or nothing when it has passed.
pub fn sleep_nanos(next_frame: u64, now: u64) -> (r: u64)
    ensures
        next_frame > now ==> r == next_frame - now,
        next_frame <= now ==> r == 0,
{
    if next_frame > now {
        next_frame - now
    } else {
        0
    }
}

/// The time the frame after one that ends at `now` is due, one frame length
/// later; none when that time does not fit in a `u64`.
pub fn next_frame_time(now: u64, frame_length: u64) -> (r: Option<u64>)
    ensures
        now + frame_length <= u64::MAX ==> r == Some((now + frame_length) as u64),
        now + frame_length > u64::MAX ==> r is None,
{
    now.checked_add(frame_length)
}

} // verus!
