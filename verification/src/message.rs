//! The messages that the window and the timer worker exchange.

use vstd::prelude::*;

verus! {

/// A message on one of the two channels: commands travel from the window to
/// the worker, updates and notices from the worker and the buttons to the
/// window.
#[derive(Debug, Copy, Clone, PartialEq, Eq, Structural)]
pub enum ChannelMessage {
    /// Command: count down from this many milliseconds.
    StartCounter(u64),
    /// Update: the whole seconds left, and whether the window should also
    /// refresh the colour of the display and sound the alarm at zero.
    UpdateCountdown(u32, bool),
    /// Command: leave the counting loop and keep what is left.
    PauseCountdown,
    /// Command: leave the counting loop and show zero.
    StopCountdown,
    /// Notice: the start button was pressed.
    StartClicked,
}

impl ChannelMessage {
    /// The update that closes a countdown: zero seconds left, with a refresh
    /// of the display.
    pub open spec fn terminal_update() -> ChannelMessage {
        ChannelMessage::UpdateCountdown(0, true)
    }
}

} // verus!
