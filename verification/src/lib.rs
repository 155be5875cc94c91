//! A pomodoro timer: the countdown state machine, the wire form of its
//! control messages, and the clock parts shown to a reader of its state.

pub mod config;
pub mod countdown;
pub mod info;
pub mod laws;
pub mod types;
pub mod wire;
