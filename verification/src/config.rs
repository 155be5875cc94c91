use vstd::prelude::*;

verus! {

/// Seconds, the unit of one tick, in a minute, the unit of the settings.
pub const SECONDS_PER_MINUTE: u64 = 60;

/// The durations of a timer, in minutes, and the number of focus periods
/// after which the long break comes.
#[derive(Debug, Clone, Copy, PartialEq, Eq, Structural)]
pub struct Config {
    pub focus_duration: u64,
    pub short_break_duration: u64,
    pub long_break_duration: u64,
    pub long_break_after: u64,
}

impl Config {
    /// Every duration can be written in seconds, and the length of a break
    /// cycle, `long_break_after + 1`, can be computed.
    pub open spec fn representable(self) -> bool {
        &&& self.focus_duration * SECONDS_PER_MINUTE <= u64::MAX
        &&& self.short_break_duration * SECONDS_PER_MINUTE <= u64::MAX
        &&& self.long_break_duration * SECONDS_PER_MINUTE <= u64::MAX
        &&& self.long_break_after < u64::MAX
    }

    /// The four settings are positive and representable.
    pub open spec fn valid(self) -> bool {
        &&& self.representable()
        &&& self.focus_duration > 0
        &&& self.short_break_duration > 0
        &&& self.long_break_duration > 0
        &&& self.long_break_after > 0
    }

    /// The settings of a fresh installation: 25 minutes of focus, breaks of
    /// 5 and 25 minutes, the long one after every fourth focus period.
    pub open spec fn standard() -> Config {
        Config {
            focus_duration: 25,
            short_break_duration: 5,
            long_break_duration: 25,
            long_break_after: 4,
        }
    }

    pub fn default() -> (cfg: Config)
        ensures
            cfg == Config::standard(),
            cfg.valid(),
    {
        Config {
            focus_duration: 25,
            short_break_duration: 5,
            long_break_duration: 25,
            long_break_after: 4,
        }
    }

    /// Tells whether the engine can count with these settings.
    pub fn is_representable(&self) -> (ok: bool)
        ensures
            ok == self.representable(),
    {
        let limit: u64 = u64::MAX / SECONDS_PER_MINUTE;
        self.focus_duration <= limit && self.short_break_duration <= limit
            && self.long_break_duration <= limit && self.long_break_after < u64::MAX
    }

    /// Tells whether the settings are what a settings file may hold.
    pub fn is_valid(&self) -> (ok: bool)
        ensures
            ok == self.valid(),
    {
        self.is_representable() && self.focus_duration > 0 && self.short_break_duration > 0
            && self.long_break_duration > 0 && self.long_break_after > 0
    }
}

} // verus!
