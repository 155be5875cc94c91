use pomo::config::Config;
use pomo::countdown::CountdownState;
use pomo::types::{CountdownType, Message};

fn small() -> Config {
    Config { focus_duration: 2, short_break_duration: 1, long_break_duration: 3, long_break_after: 2 }
}

fn ticks(mut state: CountdownState, n: u64) -> CountdownState {
    for _ in 0..n {
        state = state.next();
    }
    state
}

fn started(config: Config, countdown_type: CountdownType, remaining_time: u64, count: u64) -> CountdownState {
    CountdownState::Started { config, countdown_type, remaining_time, focus_countdown_count: count }
}

fn stopped(config: Config, countdown_type: CountdownType, remaining_time: u64, count: u64) -> CountdownState {
    CountdownState::Stopped { config, countdown_type, remaining_time, focus_countdown_count: count }
}

fn finished(config: Config, countdown_type: CountdownType, count: u64) -> CountdownState {
    CountdownState::Finished { config, countdown_type, focus_countdown_count: count }
}

#[test]
fn default_config_values() {
    let cfg = Config::default();
    assert_eq!(cfg.focus_duration, 25);
    assert_eq!(cfg.short_break_duration, 5);
    assert_eq!(cfg.long_break_duration, 25);
    assert_eq!(cfg.long_break_after, 4);
    assert!(cfg.is_valid());
    assert!(cfg.is_representable());
}

#[test]
fn config_limits() {
    let top = u64::MAX / 60;
    let mut cfg = Config { focus_duration: top, short_break_duration: top, long_break_duration: top, long_break_after: u64::MAX - 1 };
    assert!(cfg.is_representable());
    assert!(cfg.is_valid());
    cfg.focus_duration = top + 1;
    assert!(!cfg.is_representable());
    assert!(!cfg.is_valid());
    cfg.focus_duration = 1;
    cfg.long_break_after = u64::MAX;
    assert!(!cfg.is_representable());
    cfg.long_break_after = 0;
    assert!(cfg.is_representable());
    assert!(!cfg.is_valid());
}

#[test]
fn new_state_is_stopped_focus() {
    let cfg = Config::default();
    assert_eq!(CountdownState::new(cfg), stopped(cfg, CountdownType::Focus, 0, 1));
}

#[test]
fn next_countdown_type_alternates() {
    assert_eq!(CountdownState::next_countdown_type(CountdownType::Focus), CountdownType::Rest);
    assert_eq!(CountdownState::next_countdown_type(CountdownType::Rest), CountdownType::Focus);
}

#[test]
fn duration_of_focus_is_in_seconds() {
    let cfg = Config::default();
    assert_eq!(CountdownState::countdown_duration(cfg, CountdownType::Focus, 1), 1500);
    assert_eq!(CountdownState::countdown_duration(small(), CountdownType::Focus, 7), 120);
}

#[test]
fn rest_is_short_at_count_one_and_long_at_count_five() {
    let cfg = Config { focus_duration: 25, short_break_duration: 5, long_break_duration: 25, long_break_after: 4 };
    assert_eq!(CountdownState::countdown_duration(cfg, CountdownType::Rest, 1), 300);
    assert_eq!(CountdownState::countdown_duration(cfg, CountdownType::Rest, 5), 1500);
    assert_eq!(CountdownState::countdown_duration(cfg, CountdownType::Rest, 4), 300);
    assert_eq!(CountdownState::countdown_duration(cfg, CountdownType::Rest, 6), 300);
    assert_eq!(CountdownState::countdown_duration(cfg, CountdownType::Rest, 10), 1500);
}

#[test]
fn long_rest_uses_the_long_break_duration() {
    let cfg = small();
    assert_eq!(CountdownState::countdown_duration(cfg, CountdownType::Rest, 3), 180);
    assert_eq!(CountdownState::countdown_duration(cfg, CountdownType::Rest, 2), 60);
    let always = Config { long_break_after: 0, ..cfg };
    assert_eq!(CountdownState::countdown_duration(always, CountdownType::Rest, 1), 180);
    assert_eq!(CountdownState::countdown_duration(always, CountdownType::Rest, 2), 180);
}

#[test]
fn next_counts_down_by_one() {
    let cfg = small();
    assert_eq!(started(cfg, CountdownType::Focus, 120, 1).next(), started(cfg, CountdownType::Focus, 119, 1));
    assert_eq!(started(cfg, CountdownType::Rest, 1, 4).next(), started(cfg, CountdownType::Rest, 0, 4));
}

#[test]
fn next_finishes_at_zero() {
    let cfg = small();
    assert_eq!(started(cfg, CountdownType::Focus, 0, 1).next(), finished(cfg, CountdownType::Focus, 2));
    assert_eq!(started(cfg, CountdownType::Rest, 0, 2).next(), finished(cfg, CountdownType::Rest, 2));
}

#[test]
fn next_is_identity_when_idle() {
    let cfg = small();
    let a = stopped(cfg, CountdownType::Focus, 17, 3);
    let b = stopped(cfg, CountdownType::Rest, 0, 3);
    let c = finished(cfg, CountdownType::Focus, 9);
    assert_eq!(a.next(), a);
    assert_eq!(b.next(), b);
    assert_eq!(c.next(), c);
    assert_eq!(ticks(c, 50), c);
}

#[test]
fn the_last_count_cannot_grow() {
    let cfg = small();
    let last = started(cfg, CountdownType::Focus, 0, u64::MAX);
    assert!(!last.can_advance());
    assert_eq!(last.tick(&vec![]), None);
    assert!(started(cfg, CountdownType::Focus, 1, u64::MAX).can_advance());
    assert!(started(cfg, CountdownType::Rest, 0, u64::MAX).can_advance());
    assert!(started(cfg, CountdownType::Focus, 0, u64::MAX - 1).can_advance());
    assert!(finished(cfg, CountdownType::Focus, u64::MAX).can_advance());
    assert_eq!(
        started(cfg, CountdownType::Rest, 0, u64::MAX).next(),
        finished(cfg, CountdownType::Rest, u64::MAX)
    );
}

#[test]
fn first_focus_period_runs_to_count_two() {
    let cfg = Config::default();
    let s = CountdownState::new(cfg).handle_message(Message::Start).unwrap();
    assert_eq!(s, started(cfg, CountdownType::Focus, 1500, 1));
    let at_zero = ticks(s, 1500);
    assert_eq!(at_zero, started(cfg, CountdownType::Focus, 0, 1));
    assert_eq!(at_zero.next(), finished(cfg, CountdownType::Focus, 2));
}

#[test]
fn message_table() {
    let cfg = small();
    let run = started(cfg, CountdownType::Rest, 33, 2);
    assert_eq!(run.handle_message(Message::Start), None);
    assert_eq!(run.handle_message(Message::Stop), Some(stopped(cfg, CountdownType::Rest, 33, 2)));
    let idle = stopped(cfg, CountdownType::Focus, 0, 1);
    assert_eq!(idle.handle_message(Message::Stop), None);
    assert_eq!(idle.handle_message(Message::Start), Some(started(cfg, CountdownType::Focus, 120, 1)));
    let paused = stopped(cfg, CountdownType::Focus, 7, 1);
    assert_eq!(paused.handle_message(Message::Stop), None);
    assert_eq!(paused.handle_message(Message::Start), Some(started(cfg, CountdownType::Focus, 7, 1)));
    let done = finished(cfg, CountdownType::Focus, 3);
    assert_eq!(done.handle_message(Message::Stop), None);
    assert_eq!(done.handle_message(Message::Start), Some(started(cfg, CountdownType::Rest, 180, 3)));
    let rested = finished(cfg, CountdownType::Rest, 3);
    assert_eq!(rested.handle_message(Message::Start), Some(started(cfg, CountdownType::Focus, 120, 3)));
}

#[test]
fn stop_pauses_and_start_resumes() {
    let cfg = small();
    let run = ticks(CountdownState::new(cfg).handle_message(Message::Start).unwrap(), 20);
    assert_eq!(run, started(cfg, CountdownType::Focus, 100, 1));
    let paused = run.handle_message(Message::Stop).unwrap();
    assert_eq!(paused, stopped(cfg, CountdownType::Focus, 100, 1));
    assert_eq!(ticks(paused, 10), paused);
    assert_eq!(paused.handle_message(Message::Start), Some(run));
}

#[test]
fn pause_with_nothing_left_restarts_the_period() {
    let cfg = small();
    let run = started(cfg, CountdownType::Rest, 0, 2);
    let paused = run.handle_message(Message::Stop).unwrap();
    assert_eq!(paused, stopped(cfg, CountdownType::Rest, 0, 2));
    assert_eq!(paused.handle_message(Message::Start), Some(started(cfg, CountdownType::Rest, 60, 2)));
}

#[test]
fn second_start_before_a_tick_is_ignored() {
    let cfg = Config::default();
    let s = CountdownState::new(cfg);
    let once = s.apply_all(&vec![Message::Start]);
    let twice = s.apply_all(&vec![Message::Start, Message::Start]);
    assert_eq!(once, started(cfg, CountdownType::Focus, 1500, 1));
    assert_eq!(twice, once);
    assert_eq!(s.tick(&vec![Message::Start, Message::Start]), Some(started(cfg, CountdownType::Focus, 1499, 1)));
    assert_eq!(s.tick(&vec![Message::Start, Message::Start]), s.tick(&vec![Message::Start]));
}

#[test]
fn messages_are_taken_in_order() {
    let cfg = small();
    let s = CountdownState::new(cfg);
    assert_eq!(s.apply_all(&vec![]), s);
    assert_eq!(s.apply_all(&vec![Message::Stop]), s);
    assert_eq!(
        s.apply_all(&vec![Message::Start, Message::Stop]),
        stopped(cfg, CountdownType::Focus, 120, 1)
    );
    assert_eq!(
        s.apply_all(&vec![Message::Stop, Message::Start]),
        started(cfg, CountdownType::Focus, 120, 1)
    );
    assert_eq!(s.tick(&vec![]), Some(s));
    assert_eq!(
        s.tick(&vec![Message::Start, Message::Stop, Message::Start]),
        Some(started(cfg, CountdownType::Focus, 119, 1))
    );
}

#[test]
fn messages_change_the_type_only_after_finished() {
    let cfg = small();
    let all = [Message::Start, Message::Stop];
    let states = [
        started(cfg, CountdownType::Focus, 5, 1),
        started(cfg, CountdownType::Rest, 0, 2),
        stopped(cfg, CountdownType::Focus, 0, 1),
        stopped(cfg, CountdownType::Rest, 9, 4),
        finished(cfg, CountdownType::Focus, 2),
        finished(cfg, CountdownType::Rest, 2),
    ];
    for s in states {
        for a in all {
            for b in all {
                for c in all {
                    let msgs = vec![a, b, c];
                    let end = s.apply_all(&msgs);
                    let (was_finished, ty) = match s {
                        CountdownState::Finished { countdown_type, .. } => (true, countdown_type),
                        CountdownState::Started { countdown_type, .. } => (false, countdown_type),
                        CountdownState::Stopped { countdown_type, .. } => (false, countdown_type),
                    };
                    let end_ty = match end {
                        CountdownState::Finished { countdown_type, .. } => countdown_type,
                        CountdownState::Started { countdown_type, .. } => countdown_type,
                        CountdownState::Stopped { countdown_type, .. } => countdown_type,
                    };
                    let flipped = was_finished && msgs.contains(&Message::Start);
                    if flipped {
                        assert_eq!(end_ty, CountdownState::next_countdown_type(ty));
                    } else {
                        assert_eq!(end_ty, ty);
                    }
                }
            }
        }
    }
}

#[test]
fn cycles_raise_the_count_and_pick_the_long_rest() {
    let cfg = small();
    let mut state = CountdownState::new(cfg);
    let mut rests: Vec<u64> = Vec::new();
    for n in 1..=6u64 {
        state = state.handle_message(Message::Start).unwrap();
        assert_eq!(state, started(cfg, CountdownType::Focus, 120, n));
        state = ticks(state, 121);
        assert_eq!(state, finished(cfg, CountdownType::Focus, n + 1));
        state = state.handle_message(Message::Start).unwrap();
        match state {
            CountdownState::Started { countdown_type, remaining_time, focus_countdown_count, .. } => {
                assert_eq!(countdown_type, CountdownType::Rest);
                assert_eq!(focus_countdown_count, n + 1);
                rests.push(remaining_time);
                state = ticks(state, remaining_time + 1);
            }
            _ => panic!("the rest did not start"),
        }
        assert_eq!(state, finished(cfg, CountdownType::Rest, n + 1));
    }
    assert_eq!(rests, vec![60, 180, 60, 60, 180, 60]);
}
