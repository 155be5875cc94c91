//! What holds of the countdown engine over whole runs of messages and ticks.

use vstd::prelude::*;
use crate::config::{Config, SECONDS_PER_MINUTE};
use crate::countdown::{duration_for, CountdownState};
use crate::types::{CountdownType, Message};

verus! {

impl CountdownState {
    /// One whole period: `Start`, then a tick for each second of the period
    /// and one more, which ends it.
    pub open spec fn run_period(self) -> CountdownState {
        let started = self.apply_or_keep(Message::Start);
        started.advance_n(started.remaining() as nat + 1)
    }

    /// `n` whole cycles, each a focus period and the rest that follows it.
    pub open spec fn run_cycles(self, n: nat) -> CountdownState
        decreases n,
    {
        if n == 0 {
            self
        } else {
            self.run_cycles((n - 1) as nat).run_period().run_period()
        }
    }
}

/// Messages never touch the settings or the focus count, and they change
/// the countdown type in one way only: the first `Start` that reaches a
/// finished timer moves it on to the other type. The time left afterwards
/// is never negative: it is the time left before, or the full length of the
/// period that a `Start` began.
pub proof fn lemma_fold_keeps_type(s: CountdownState, msgs: Seq<Message>)
    requires
        s.wf(),
    ensures
        s.fold(msgs).config() == s.config(),
        s.fold(msgs).cycle() == s.cycle(),
        s.fold(msgs).countdown_type() == if s is Finished && msgs.contains(Message::Start) {
            s.countdown_type().other()
        } else {
            s.countdown_type()
        },
        s.fold(msgs) is Finished <==> s is Finished && !msgs.contains(Message::Start),
        s.fold(msgs).remaining() >= 0,
        s.fold(msgs).remaining() == s.remaining() || s.fold(msgs).remaining() == duration_for(
            s.config(),
            s.fold(msgs).countdown_type(),
            s.cycle(),
        ),
    decreases msgs.len(),
{
    if msgs.len() > 0 {
        let front = msgs.drop_last();
        lemma_fold_keeps_type(s, front);
        assert(msgs =~= front.push(msgs.last()));
        assert forall|m: Message| front.contains(m) implies msgs.contains(m) by {
            let i = choose|i: int| 0 <= i < front.len() && front[i] == m;
            assert(msgs[i] == m);
        }
        assert(msgs.contains(msgs.last())) by {
            assert(msgs[msgs.len() - 1] == msgs.last());
        }
        if msgs.contains(Message::Start) && !front.contains(Message::Start) {
            let i = choose|i: int| 0 <= i < msgs.len() && msgs[i] == Message::Start;
            if i < front.len() {
                assert(front[i] == Message::Start);
            }
            assert(msgs.last() == Message::Start);
        }
    }
}

/// A single message changes the countdown type only on the way from
/// `Finished` to `Started`, and never the settings or the focus count.
pub proof fn lemma_apply_keeps_type(s: CountdownState, msg: Message)
    ensures
        s.apply_or_keep(msg).config() == s.config(),
        s.apply_or_keep(msg).cycle() == s.cycle(),
        s.apply_or_keep(msg).countdown_type() != s.countdown_type() ==> {
            &&& s is Finished
            &&& msg is Start
            &&& s.apply_or_keep(msg) is Started
            &&& s.apply_or_keep(msg).countdown_type() == s.countdown_type().other()
        },
{
}

/// The focus count rises at one place only, and there by one: at the tick
/// that ends a focus period. No tick changes the settings or the type, and
/// none adds to the time left.
pub proof fn lemma_count_rises_at_focus_end(s: CountdownState)
    requires
        s.advance_fits(),
    ensures
        s.advance().config() == s.config(),
        s.advance().countdown_type() == s.countdown_type(),
        s.advance().remaining() <= s.remaining(),
        s.advance().cycle() == if s is Started && s.remaining() == 0 && s.countdown_type()
            is Focus {
            s.cycle() + 1
        } else {
            s.cycle() as int
        },
        s.advance() is Finished && !(s is Finished) ==> s is Started && s.remaining() == 0,
{
}

/// A tick leaves a stopped or a finished timer as it is, and so does any
/// number of ticks.
pub proof fn lemma_idle_advance(s: CountdownState, n: nat)
    requires
        s is Stopped || s is Finished,
    ensures
        s.advance() == s,
        s.advance_n(n) == s,
    decreases n,
{
    if n > 0 {
        lemma_idle_advance(s, (n - 1) as nat);
    }
}

/// A running period counts down second by second: after `n` ticks, `n` no
/// more than the seconds left, it is still running, with `n` seconds less.
pub proof fn lemma_countdown_runs(s: CountdownState, n: nat)
    requires
        s is Started,
        n <= s.remaining(),
    ensures
        s.advance_n(n) == (CountdownState::Started {
            config: s.config(),
            countdown_type: s.countdown_type(),
            remaining_time: (s.remaining() - n) as u64,
            focus_countdown_count: s.cycle(),
        }),
    decreases n,
{
    if n > 0 {
        lemma_countdown_runs(s.advance(), (n - 1) as nat);
    }
}

/// Ticks compose: `a + b` ticks are `a` ticks and then `b` more.
pub proof fn lemma_advance_n_split(s: CountdownState, a: nat, b: nat)
    ensures
        s.advance_n(a + b) == s.advance_n(a).advance_n(b),
    decreases a,
{
    if a > 0 {
        lemma_advance_n_split(s.advance(), (a - 1) as nat, b);
    }
}

/// A running period with `r` seconds left is finished after `r + 1` ticks
/// and not before; a focus period that ends raises the focus count by one,
/// a rest leaves it.
pub proof fn lemma_countdown_finishes(s: CountdownState)
    requires
        s is Started,
        s.countdown_type() is Focus ==> s.cycle() < u64::MAX,
    ensures
        s.advance_n(s.remaining() as nat) is Started,
        s.advance_n(s.remaining() as nat + 1) == (CountdownState::Finished {
            config: s.config(),
            countdown_type: s.countdown_type(),
            focus_countdown_count: if s.countdown_type() is Focus {
                (s.cycle() + 1) as u64
            } else {
                s.cycle()
            },
        }),
{
    let r = s.remaining() as nat;
    lemma_countdown_runs(s, r);
    lemma_advance_n_split(s, r, 1);
    let last = s.advance_n(r);
    assert(last.advance_n(1) == last.advance()) by {
        assert(last.advance().advance_n(0) == last.advance());
    }
}

/// A fresh timer that is started and then ticked once for each second of
/// a focus period is still running, with no time left and the focus count
/// at 1; the tick after that finishes the period with the count at 2.
pub proof fn lemma_first_focus(cfg: Config)
    requires
        cfg.representable(),
    ensures
        ({
            let started = CountdownState::initial(cfg).apply_or_keep(Message::Start);
            let seconds = (cfg.focus_duration * SECONDS_PER_MINUTE) as nat;
            &&& started.advance_n(seconds) == (CountdownState::Started {
                config: cfg,
                countdown_type: CountdownType::Focus,
                remaining_time: 0,
                focus_countdown_count: 1,
            })
            &&& started.advance_n(seconds + 1) == (CountdownState::Finished {
                config: cfg,
                countdown_type: CountdownType::Focus,
                focus_countdown_count: 2,
            })
            &&& CountdownState::initial(cfg).run_period() == started.advance_n(seconds + 1)
        }),
{
    let started = CountdownState::initial(cfg).apply_or_keep(Message::Start);
    lemma_countdown_runs(started, started.remaining() as nat);
    lemma_countdown_finishes(started);
}

/// A whole period that starts from a finished one is of the other type, and
/// ends finished too, with the focus count raised if it was a focus period.
pub proof fn lemma_period_after_finished(s: CountdownState)
    requires
        s is Finished,
        s.countdown_type() is Rest ==> s.cycle() < u64::MAX,
    ensures
        s.run_period() == (CountdownState::Finished {
            config: s.config(),
            countdown_type: s.countdown_type().other(),
            focus_countdown_count: if s.countdown_type() is Rest {
                (s.cycle() + 1) as u64
            } else {
                s.cycle()
            },
        }),
{
    lemma_countdown_finishes(s.apply_or_keep(Message::Start));
}

/// After `n` whole cycles from a fresh timer the focus count is `n + 1`,
/// and, for `n` above 0, the timer has just finished a rest.
pub proof fn lemma_cycle_count(cfg: Config, n: nat)
    requires
        cfg.representable(),
        n < u64::MAX,
    ensures
        CountdownState::initial(cfg).run_cycles(n).cycle() == n + 1,
        CountdownState::initial(cfg).run_cycles(n).config() == cfg,
        n > 0 ==> CountdownState::initial(cfg).run_cycles(n) == (CountdownState::Finished {
            config: cfg,
            countdown_type: CountdownType::Rest,
            focus_countdown_count: (n + 1) as u64,
        }),
    decreases n,
{
    if n > 0 {
        lemma_cycle_count(cfg, (n - 1) as nat);
        let before = CountdownState::initial(cfg).run_cycles((n - 1) as nat);
        if n == 1 {
            lemma_first_focus(cfg);
        } else {
            lemma_period_after_finished(before);
        }
        lemma_period_after_finished(before.run_period());
    }
}

/// The `k`-th rest, `k` from 1, starts when `k` focus periods are finished
/// and the focus count is `k + 1`. Its length is that of the long break if
/// `k + 1` is a multiple of `long_break_after + 1`, and that of the short
/// break otherwise.
pub proof fn lemma_kth_rest(cfg: Config, k: nat)
    requires
        cfg.representable(),
        0 < k < u64::MAX,
    ensures
        ({
            let rest = CountdownState::initial(cfg).run_cycles((k - 1) as nat).run_period()
                .apply_or_keep(Message::Start);
            &&& rest is Started
            &&& rest.countdown_type() == CountdownType::Rest
            &&& rest.cycle() == k + 1
            &&& rest.remaining() == if (k + 1) as int % (cfg.long_break_after + 1) == 0 {
                cfg.long_break_duration * SECONDS_PER_MINUTE
            } else {
                cfg.short_break_duration * SECONDS_PER_MINUTE
            }
        }),
{
    let before = CountdownState::initial(cfg).run_cycles((k - 1) as nat);
    lemma_cycle_count(cfg, (k - 1) as nat);
    if k == 1 {
        lemma_first_focus(cfg);
    } else {
        lemma_period_after_finished(before);
    }
}

/// Where counting the rests and counting with the focus count agree on
/// which multiples are met, the `k`-th rest is the long one exactly when
/// `k` is a multiple of `long_break_after + 1`.
pub proof fn lemma_kth_rest_by_index(cfg: Config, k: nat)
    requires
        cfg.representable(),
        0 < k < u64::MAX,
        (k as int % (cfg.long_break_after + 1) == 0) == ((k + 1) as int % (cfg.long_break_after
            + 1) == 0),
    ensures
        ({
            let rest = CountdownState::initial(cfg).run_cycles((k - 1) as nat).run_period()
                .apply_or_keep(Message::Start);
            rest.remaining() == if k as int % (cfg.long_break_after + 1) == 0 {
                cfg.long_break_duration * SECONDS_PER_MINUTE
            } else {
                cfg.short_break_duration * SECONDS_PER_MINUTE
            }
        }),
{
    lemma_kth_rest(cfg, k);
}

/// `Stop` pauses: it keeps the type, the focus count and the time left of
/// a running period. A `Start` after it resumes with that very time left,
/// as long as some time was left.
pub proof fn lemma_pause_resume(s: CountdownState)
    requires
        s is Started,
    ensures
        s.apply(Message::Stop) == Some(
            CountdownState::Stopped {
                config: s.config(),
                countdown_type: s.countdown_type(),
                remaining_time: s.remaining(),
                focus_countdown_count: s.cycle(),
            },
        ),
        s.remaining() > 0 ==> s.apply(Message::Stop).unwrap().apply(Message::Start) == Some(s),
        s.remaining() > 0 ==> s.fold(seq![Message::Stop, Message::Start]) == s,
{
    let msgs = seq![Message::Stop, Message::Start];
    assert(msgs.drop_last() =~= seq![Message::Stop]);
    assert(msgs.drop_last().drop_last() =~= Seq::<Message>::empty());
    assert(s.fold(Seq::<Message>::empty()) == s);
    assert(s.fold(seq![Message::Stop]) == s.apply_or_keep(Message::Stop));
}

/// A `Start` that reaches a running timer is ignored, so two in a row do
/// what one does.
pub proof fn lemma_second_start_ignored(s: CountdownState)
    ensures
        s is Started ==> s.apply(Message::Start) is None,
        s.apply_or_keep(Message::Start) is Started,
        s.fold(seq![Message::Start, Message::Start]) == s.fold(seq![Message::Start]),
{
    let two = seq![Message::Start, Message::Start];
    let one = seq![Message::Start];
    assert(two.drop_last() =~= one);
    assert(one.drop_last() =~= Seq::<Message>::empty());
    assert(s.fold(Seq::<Message>::empty()) == s);
    assert(s.fold(one) == s.apply_or_keep(Message::Start));
}

} // verus!
