use vstd::prelude::*;
use crate::config::{Config, SECONDS_PER_MINUTE};
use crate::types::{CountdownType, Message};

verus! {

/// The length in seconds of a period of type `countdown_type` that starts
/// while the focus count stands at `cycle`.
///
/// The count starts at 1 and has already been raised for the focus period
/// that just ended, so a break cycle is `long_break_after + 1` counts long:
/// the long break comes when the count is a multiple of that.
pub open spec fn duration_for(cfg: Config, countdown_type: CountdownType, cycle: u64) -> int {
    match countdown_type {
        CountdownType::Focus => cfg.focus_duration * SECONDS_PER_MINUTE,
        CountdownType::Rest => if cycle as int % (cfg.long_break_after + 1) == 0 {
            cfg.long_break_duration * SECONDS_PER_MINUTE
        } else {
            cfg.short_break_duration * SECONDS_PER_MINUTE
        },
    }
}

/// The state of the timer. `remaining_time` is in seconds.
#[derive(Debug, Clone, Copy, PartialEq, Eq, Structural)]
pub enum CountdownState {
    Started {
        config: Config,
        countdown_type: CountdownType,
        remaining_time: u64,
        focus_countdown_count: u64,
    },
    Stopped {
        config: Config,
        countdown_type: CountdownType,
        remaining_time: u64,
        focus_countdown_count: u64,
    },
    Finished { config: Config, countdown_type: CountdownType, focus_countdown_count: u64 },
}

impl CountdownState {
    pub open spec fn config(self) -> Config {
        match self {
            CountdownState::Started { config, .. } => config,
            CountdownState::Stopped { config, .. } => config,
            CountdownState::Finished { config, .. } => config,
        }
    }

    pub open spec fn countdown_type(self) -> CountdownType {
        match self {
            CountdownState::Started { countdown_type, .. } => countdown_type,
            CountdownState::Stopped { countdown_type, .. } => countdown_type,
            CountdownState::Finished { countdown_type, .. } => countdown_type,
        }
    }

    /// The seconds left of the current period; none are left of a finished one.
    pub open spec fn remaining(self) -> u64 {
        match self {
            CountdownState::Started { remaining_time, .. } => remaining_time,
            CountdownState::Stopped { remaining_time, .. } => remaining_time,
            CountdownState::Finished { .. } => 0,
        }
    }

    /// The focus count: one more than the number of finished focus periods.
    pub open spec fn cycle(self) -> u64 {
        match self {
            CountdownState::Started { focus_countdown_count, .. } => focus_countdown_count,
            CountdownState::Stopped { focus_countdown_count, .. } => focus_countdown_count,
            CountdownState::Finished { focus_countdown_count, .. } => focus_countdown_count,
        }
    }

    /// The state carries settings that the engine can count with.
    pub open spec fn wf(self) -> bool {
        self.config().representable()
    }

    /// The state that every timer starts in.
    pub open spec fn initial(config: Config) -> CountdownState {
        CountdownState::Stopped {
            config,
            countdown_type: CountdownType::Focus,
            remaining_time: 0,
            focus_countdown_count: 1,
        }
    }

    /// A tick ends a focus period only while the focus count can still grow.
    pub open spec fn advance_fits(self) -> bool {
        self matches CountdownState::Started {
            countdown_type: CountdownType::Focus,
            remaining_time: 0,
            focus_countdown_count,
            ..
        } ==> focus_countdown_count < u64::MAX
    }

    /// The state one tick later. A running period loses a second; one with
    /// no second left is finished, and if it was a focus period the focus
    /// count rises by one. A stopped or finished timer stays as it is.
    /// Read it where `advance_fits` holds.
    pub open spec fn advance(self) -> CountdownState {
        match self {
            CountdownState::Started {
                config,
                countdown_type,
                remaining_time,
                focus_countdown_count,
            } => if remaining_time > 0 {
                CountdownState::Started {
                    config,
                    countdown_type,
                    remaining_time: (remaining_time - 1) as u64,
                    focus_countdown_count,
                }
            } else {
                CountdownState::Finished {
                    config,
                    countdown_type,
                    focus_countdown_count: match countdown_type {
                        CountdownType::Focus => (focus_countdown_count + 1) as u64,
                        CountdownType::Rest => focus_countdown_count,
                    },
                }
            },
            _ => self,
        }
    }

    /// The state that a message leads to, or `None` where the message means
    /// nothing in this state. `Stop` pauses a running period. `Start` resumes
    /// a paused one, begins the period of a timer with no time left, and
    /// after a finished period begins one of the other type. Read it where
    /// `wf` holds.
    pub open spec fn apply(self, msg: Message) -> Option<CountdownState> {
        match (self, msg) {
            (
                CountdownState::Started {
                    config,
                    countdown_type,
                    remaining_time,
                    focus_countdown_count,
                },
                Message::Stop,
            ) => Some(
                CountdownState::Stopped {
                    config,
                    countdown_type,
                    remaining_time,
                    focus_countdown_count,
                },
            ),
            (
                CountdownState::Stopped {
                    config,
                    countdown_type,
                    remaining_time,
                    focus_countdown_count,
                },
                Message::Start,
            ) => Some(
                CountdownState::Started {
                    config,
                    countdown_type,
                    remaining_time: if remaining_time == 0 {
                        duration_for(config, countdown_type, focus_countdown_count) as u64
                    } else {
                        remaining_time
                    },
                    focus_countdown_count,
                },
            ),
            (
                CountdownState::Finished { config, countdown_type, focus_countdown_count },
                Message::Start,
            ) => Some(
                CountdownState::Started {
                    config,
                    countdown_type: countdown_type.other(),
                    remaining_time: duration_for(
                        config,
                        countdown_type.other(),
                        focus_countdown_count,
                    ) as u64,
                    focus_countdown_count,
                },
            ),
            _ => None,
        }
    }

    /// As `apply`, with the state kept where the message is ignored.
    pub open spec fn apply_or_keep(self, msg: Message) -> CountdownState {
        match self.apply(msg) {
            Some(next) => next,
            None => self,
        }
    }

    /// The state after the messages of `msgs`, taken in order.
    pub open spec fn fold(self, msgs: Seq<Message>) -> CountdownState
        decreases msgs.len(),
    {
        if msgs.len() == 0 {
            self
        } else {
            self.fold(msgs.drop_last()).apply_or_keep(msgs.last())
        }
    }

    /// The state `n` ticks later.
    pub open spec fn advance_n(self, n: nat) -> CountdownState
        decreases n,
    {
        if n == 0 {
            self
        } else {
            self.advance().advance_n((n - 1) as nat)
        }
    }

    pub fn new(config: Config) -> (state: CountdownState)
        ensures
            state == CountdownState::initial(config),
            state.wf() == config.representable(),
    {
        CountdownState::Stopped {
            config,
            countdown_type: CountdownType::Focus,
            remaining_time: 0,
            focus_countdown_count: 1,
        }
    }

    pub fn next_countdown_type(prev_countdown_type: CountdownType) -> (next: CountdownType)
        ensures
            next == prev_countdown_type.other(),
    {
        match prev_countdown_type {
            CountdownType::Focus => CountdownType::Rest,
            CountdownType::Rest => CountdownType::Focus,
        }
    }

    /// The length in seconds of a period that starts now.
    pub fn countdown_duration(
        cfg: Config,
        countdown_type: CountdownType,
        focus_countdown_count: u64,
    ) -> (seconds: u64)
        requires
            cfg.representable(),
        ensures
            seconds == duration_for(cfg, countdown_type, focus_countdown_count),
    {
        match countdown_type {
            CountdownType::Focus => cfg.focus_duration * SECONDS_PER_MINUTE,
            CountdownType::Rest => {
                if focus_countdown_count % (cfg.long_break_after + 1) == 0 {
                    cfg.long_break_duration * SECONDS_PER_MINUTE
                } else {
                    cfg.short_break_duration * SECONDS_PER_MINUTE
                }
            },
        }
    }

    /// Tells whether `next` may be called.
    pub fn can_advance(&self) -> (ok: bool)
        ensures
            ok == self.advance_fits(),
    {
        match self {
            CountdownState::Started {
                countdown_type: CountdownType::Focus,
                remaining_time,
                focus_countdown_count,
                ..
            } => *remaining_time > 0 || *focus_countdown_count < u64::MAX,
            _ => true,
        }
    }

    /// One tick: a running period loses a second, or ends when none is left.
    pub fn next(self) -> (state: CountdownState)
        requires
            self.advance_fits(),
        ensures
            state == self.advance(),
            state.config() == self.config(),
            state.countdown_type() == self.countdown_type(),
            state.remaining() <= self.remaining(),
            state.cycle() == if self is Started && self.remaining() == 0
                && self.countdown_type() is Focus {
                self.cycle() + 1
            } else {
                self.cycle() as int
            },
            self is Stopped || self is Finished ==> state == self,
    {
        match self {
            CountdownState::Started {
                config,
                countdown_type,
                remaining_time,
                focus_countdown_count,
            } => {
                if remaining_time > 0 {
                    CountdownState::Started {
                        config,
                        countdown_type,
                        focus_countdown_count,
                        remaining_time: remaining_time - 1,
                    }
                } else {
                    let focus_countdown_count = match countdown_type {
                        CountdownType::Focus => focus_countdown_count + 1,
                        CountdownType::Rest => focus_countdown_count,
                    };
                    CountdownState::Finished { config, countdown_type, focus_countdown_count }
                }
            },
            CountdownState::Stopped { .. } => self,
            CountdownState::Finished { .. } => self,
        }
    }

    /// Takes one message: `None` where it is ignored.
    pub fn handle_message(self, msg: Message) -> (state: Option<CountdownState>)
        requires
            self.wf(),
        ensures
            state == self.apply(msg),
            state is None <==> (self is Started && msg is Start) || (!(self is Started)
                && msg is Stop),
            state matches Some(s) ==> {
                &&& s.wf()
                &&& s.config() == self.config()
                &&& s.cycle() == self.cycle()
                &&& s.countdown_type() == if self is Finished {
                    self.countdown_type().other()
                } else {
                    self.countdown_type()
                }
                &&& s.remaining() == if self.remaining() == 0 && msg is Start {
                    duration_for(s.config(), s.countdown_type(), s.cycle())
                } else {
                    self.remaining() as int
                }
            },
    {
        match self {
            CountdownState::Started {
                config,
                countdown_type,
                remaining_time,
                focus_countdown_count,
            } => match msg {
                Message::Stop => Some(
                    CountdownState::Stopped {
                        config,
                        countdown_type,
                        remaining_time,
                        focus_countdown_count,
                    },
                ),
                Message::Start => None,
            },
            CountdownState::Stopped {
                config,
                countdown_type,
                remaining_time,
                focus_countdown_count,
            } => match msg {
                Message::Start => {
                    let remaining_time = if remaining_time == 0 {
                        Self::countdown_duration(config, countdown_type, focus_countdown_count)
                    } else {
                        remaining_time
                    };
                    Some(
                        CountdownState::Started {
                            config,
                            remaining_time,
                            countdown_type,
                            focus_countdown_count,
                        },
                    )
                },
                Message::Stop => None,
            },
            CountdownState::Finished { config, countdown_type, focus_countdown_count } => match msg {
                Message::Start => {
                    let next_countdown_type = Self::next_countdown_type(countdown_type);
                    Some(
                        CountdownState::Started {
                            config,
                            remaining_time: Self::countdown_duration(
                                config,
                                next_countdown_type,
                                focus_countdown_count,
                            ),
                            countdown_type: next_countdown_type,
                            focus_countdown_count,
                        },
                    )
                },
                Message::Stop => None,
            },
        }
    }

    /// Takes the messages of `msgs` in order, passing over the ignored ones.
    pub fn apply_all(self, msgs: &Vec<Message>) -> (state: CountdownState)
        requires
            self.wf(),
        ensures
            state == self.fold(msgs@),
            state.wf(),
    {
        let mut state = self;
        let mut i: usize = 0;
        while i < msgs.len()
            invariant
                i <= msgs.len(),
                state.wf(),
                state == self.fold(msgs@.take(i as int)),
            decreases msgs.len() - i,
        {
            state = match state.handle_message(msgs[i]) {
                Some(next) => next,
                None => state,
            };
            proof {
                assert(msgs@.take(i + 1).drop_last() =~= msgs@.take(i as int));
            }
            i += 1;
        }
        proof {
            assert(msgs@.take(msgs.len() as int) =~= msgs@);
        }
        state
    }

    /// The work of one tick: the messages that came in since the last one
    /// are taken in order, then the clock moves on. `None` where the focus
    /// count could not grow any further.
    pub fn tick(self, pending: &Vec<Message>) -> (state: Option<CountdownState>)
        requires
            self.wf(),
        ensures
            state == if self.fold(pending@).advance_fits() {
                Some(self.fold(pending@).advance())
            } else {
                None
            },
            state matches Some(s) ==> s.wf(),
    {
        let merged = self.apply_all(pending);
        if merged.can_advance() {
            Some(merged.next())
        } else {
            None
        }
    }
}

} // verus!
