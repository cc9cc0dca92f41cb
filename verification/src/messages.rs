//! The events that drive the timer and the effects that it asks for.
use crate::input::{parse_seconds, seconds_of_text};
use vstd::prelude::*;

verus! {

/// An event delivered to the timer.
#[derive(Debug, Clone, Copy, PartialEq, Eq, Structural)]
pub enum Message {
    /// Dial in a new duration, in seconds.
    SetSeconds(u16),
    /// Halt the clock, keeping the time that remains.
    Pause,
    /// Let the clock run.
    Resume,
    /// Halt the clock and wind it back to the dialled duration.
    Stop,
    /// One second has passed.
    Tick,
    /// Change between a work session and a break.
    ToggleBreak,
    /// Ask for the audio cue.
    PlayAudio,
}

/// Something for the surroundings to do after an event was handled.
#[derive(Debug, Clone, Copy, PartialEq, Eq, Structural)]
pub enum Effect {
    /// Bring the window to the front.
    GainFocus,
    /// Sound the audio cue.
    PlayAudio,
}

impl Message {
    /// The event for a duration field that now holds `text`. Text that is
    /// no number dials in zero.
    pub fn from_text(text: &str) -> (message: Message)
        ensures
            message == Message::SetSeconds(seconds_of_text(text@)),
    {
        Message::SetSeconds(parse_seconds(text))
    }
}

} // verus!
