use vstd::prelude::*;

verus! {

/// Time from one frame to the next, in nanoseconds: a sixtieth of a second.
pub const FRAME_INTERVAL_NANOS: u64 = 16_666_667;

/// What woke the event loop up, as far as the loop cares.
#[derive(Clone, Copy, Debug, PartialEq, Eq, Structural)]
pub enum LoopEvent {
    /// The user asked for the window to be closed.
    CloseRequested,
    /// Any other event of the window.
    WindowEvent,
    /// The time the loop was waiting for has come.
    ResumeTimeReached,
    /// The loop has just started.
    Init,
    /// The loop woke up for another reason.
    NewEvents,
    /// Anything else.
    Other,
}

/// What the event loop does once an event is handled.
#[derive(Clone, Copy, Debug, PartialEq, Eq, Structural)]
pub enum ControlFlow {
    /// Sleep until this time, in nanoseconds on the caller's clock, or until
    /// the next event.
    WaitUntil(u64),
    /// Leave the loop.
    Exit,
}

/// Decides how the loop goes on after the frame drawn for `event`, where
/// `now_nanos` is the time on the caller's clock when the frame was finished.
///
/// A request to close ends the loop. After every other event the loop waits
/// for one frame interval.
pub fn control_flow_after(now_nanos: u64, event: LoopEvent) -> (flow: ControlFlow)
    requires
        now_nanos + FRAME_INTERVAL_NANOS <= u64::MAX,
    ensures
        flow == (if event is CloseRequested {
            ControlFlow::Exit
        } else {
            ControlFlow::WaitUntil((now_nanos + FRAME_INTERVAL_NANOS) as u64)
        }),
{
    let next_frame_time: u64 = now_nanos + FRAME_INTERVAL_NANOS;
    match event {
        LoopEvent::CloseRequested => ControlFlow::Exit,
        _ => ControlFlow::WaitUntil(next_frame_time),
    }
}

} // verus!
