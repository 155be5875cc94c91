//! What a reader of the timer's state is shown.

use vstd::prelude::*;
use crate::countdown::CountdownState;
use crate::types::CountdownType;

verus! {

pub const SECONDS_PER_HOUR: u64 = 3600;

/// The hours, minutes and seconds of a clock that shows `secs` seconds.
pub open spec fn clock_parts(secs: u64) -> (u64, u64, u64) {
    ((secs / 3600) as u64, (secs / 60 % 60) as u64, (secs % 60) as u64)
}

/// What to show of a state: a running or a paused clock, or the end.
#[derive(Debug, Clone, Copy, PartialEq, Eq, Structural)]
pub enum Status {
    Running { countdown_type: CountdownType, hours: u64, minutes: u64, seconds: u64 },
    Paused { countdown_type: CountdownType, hours: u64, minutes: u64, seconds: u64 },
    Done,
}

/// The status that a state is shown as.
pub open spec fn status_of(state: CountdownState) -> Status {
    let parts = clock_parts(state.remaining());
    match state {
        CountdownState::Started { countdown_type, .. } => Status::Running {
            countdown_type,
            hours: parts.0,
            minutes: parts.1,
            seconds: parts.2,
        },
        CountdownState::Stopped { countdown_type, .. } => Status::Paused {
            countdown_type,
            hours: parts.0,
            minutes: parts.1,
            seconds: parts.2,
        },
        CountdownState::Finished { .. } => Status::Done,
    }
}

/// Splits a number of seconds into hours, minutes and seconds.
pub fn format_duration(secs: u64) -> (parts: (u64, u64, u64))
    ensures
        parts == clock_parts(secs),
        parts.1 < 60,
        parts.2 < 60,
        parts.0 * SECONDS_PER_HOUR + parts.1 * 60 + parts.2 == secs,
{
    let hours: u64 = (secs / 60) / 60;
    let minutes: u64 = (secs / 60) % 60;
    let seconds: u64 = secs % 60;
    (hours, minutes, seconds)
}

/// What to show of `state`.
pub fn status(state: CountdownState) -> (shown: Status)
    ensures
        shown == status_of(state),
{
    match state {
        CountdownState::Started { countdown_type, remaining_time, .. } => {
            let (hours, minutes, seconds) = format_duration(remaining_time);
            Status::Running { countdown_type, hours, minutes, seconds }
        },
        CountdownState::Stopped { countdown_type, remaining_time, .. } => {
            let (hours, minutes, seconds) = format_duration(remaining_time);
            Status::Paused { countdown_type, hours, minutes, seconds }
        },
        CountdownState::Finished { .. } => Status::Done,
    }
}

} // verus!
