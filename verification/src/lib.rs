//! A Pomodoro countdown timer as a verified state machine.
//!
//! [`app::Pomodoro`] holds the state and turns each [`messages::Message`]
//! into the next state and a list of [`messages::Effect`]s. The program
//! around it owns the window, the clock and the sound.
pub mod app;
pub mod input;
pub mod laws;
pub mod messages;
pub mod widgets;
