use pomodo_rs::app::{
    Policy, Pomodoro, TickSource, CYCLE_LENGTH, DEFAULT_MINUTES, LONG_BREAK_SECONDS,
    SHORT_BREAK_SECONDS, WORK_SECONDS,
};
use pomodo_rs::messages::{Effect, Message};

fn running(seconds: u16) -> Pomodoro {
    let mut timer = Pomodoro::new(0, 0);
    assert!(timer.update(Message::SetSeconds(seconds)).is_empty());
    assert!(timer.update(Message::Resume).is_empty());
    timer
}

fn run_down(timer: &mut Pomodoro) -> usize {
    let ticks: u32 = timer.remaining();
    let mut completions: usize = 0;
    let mut sent: u32 = 0;
    while sent < ticks {
        let effects = timer.update(Message::Tick);
        if effects.contains(&Effect::GainFocus) {
            completions += 1;
        }
        sent += 1;
    }
    completions
}

#[test]
fn new_timer_is_halted_with_all_time_left() {
    let timer = Pomodoro::new(2, 5);
    assert_eq!(timer.configured_duration(), 125);
    assert_eq!(timer.remaining(), 125);
    assert!(timer.is_paused());
    assert!(!timer.in_break());
    assert_eq!(timer.break_cycle_index(), 0);
    assert_eq!(timer.policy(), Policy::StopAndReset);
}

#[test]
fn new_timer_takes_the_largest_fields() {
    let timer = Pomodoro::new(u16::MAX, u16::MAX);
    assert_eq!(timer.configured_duration(), 65535 * 60 + 65535);
    assert_eq!(timer.remaining(), 3_997_635);
}

#[test]
fn default_timer_has_thirty_minutes() {
    let timer = Pomodoro::default();
    assert_eq!(DEFAULT_MINUTES, 30);
    assert_eq!(timer.configured_duration(), 1800);
    assert_eq!(timer.remaining(), 1800);
    assert!(timer.is_paused());
    assert_eq!(timer, Pomodoro::new(30, 0));
}

#[test]
fn break_cycle_timer_starts_with_a_work_session() {
    let timer = Pomodoro::with_break_cycle();
    assert_eq!(WORK_SECONDS, 1500);
    assert_eq!(timer.configured_duration(), 1500);
    assert_eq!(timer.remaining(), 1500);
    assert!(timer.is_paused());
    assert!(!timer.in_break());
    assert_eq!(timer.break_cycle_index(), 0);
    assert_eq!(timer.policy(), Policy::BreakCycle);
}

#[test]
fn set_seconds_sets_duration_and_remaining() {
    for seconds in [0u16, 1, 59, 60, 90, 1500, u16::MAX] {
        let mut timer = Pomodoro::new(7, 7);
        let effects = timer.update(Message::SetSeconds(seconds));
        assert!(effects.is_empty());
        assert_eq!(timer.configured_duration(), u32::from(seconds));
        assert_eq!(timer.remaining(), u32::from(seconds));
        assert!(timer.is_paused());
    }
}

#[test]
fn set_seconds_mid_countdown_resets_remaining() {
    let mut timer = running(100);
    timer.update(Message::Tick);
    timer.update(Message::Tick);
    assert_eq!(timer.remaining(), 98);
    timer.update(Message::SetSeconds(40));
    assert_eq!(timer.configured_duration(), 40);
    assert_eq!(timer.remaining(), 40);
    assert!(!timer.is_paused());
}

#[test]
fn pause_and_resume_only_move_the_flag() {
    let mut timer = Pomodoro::new(1, 0);
    assert!(timer.update(Message::Resume).is_empty());
    assert!(!timer.is_paused());
    assert_eq!(timer.remaining(), 60);
    assert!(timer.update(Message::Pause).is_empty());
    assert!(timer.is_paused());
    assert_eq!(timer.remaining(), 60);
    assert_eq!(timer.configured_duration(), 60);
}

#[test]
fn tick_takes_off_one_second() {
    let mut timer = running(10);
    let before = timer;
    let effects = timer.update(Message::Tick);
    assert!(effects.is_empty());
    assert_eq!(timer.remaining(), 9);
    assert_eq!(timer.configured_duration(), before.configured_duration());
    assert_eq!(timer.is_paused(), before.is_paused());
    assert_eq!(timer.in_break(), before.in_break());
    assert_eq!(timer.break_cycle_index(), before.break_cycle_index());
    assert_eq!(timer.policy(), before.policy());
}

#[test]
fn tick_while_paused_changes_nothing() {
    let mut timer = Pomodoro::new(0, 10);
    let before = timer;
    let effects = timer.update(Message::Tick);
    assert!(effects.is_empty());
    assert_eq!(timer, before);

    let mut midway = running(10);
    midway.update(Message::Tick);
    midway.update(Message::Pause);
    let held = midway;
    assert!(midway.update(Message::Tick).is_empty());
    assert_eq!(midway, held);
    assert_eq!(midway.remaining(), 9);
}

#[test]
fn last_tick_completes_the_phase_once() {
    let mut timer = running(3);
    assert!(timer.update(Message::Tick).is_empty());
    assert!(timer.update(Message::Tick).is_empty());
    assert_eq!(timer.remaining(), 1);
    let effects = timer.update(Message::Tick);
    assert_eq!(effects, vec![Effect::GainFocus, Effect::PlayAudio]);
    assert_eq!(timer.remaining(), 3);
    assert_eq!(timer.configured_duration(), 3);
    assert!(timer.is_paused());
    assert!(timer.update(Message::Tick).is_empty());
    assert!(timer.update(Message::Tick).is_empty());
    assert_eq!(timer.remaining(), 3);
}

#[test]
fn tick_at_zero_does_nothing() {
    let mut timer = running(0);
    assert_eq!(timer.remaining(), 0);
    assert!(!timer.is_paused());
    let before = timer;
    for _ in 0..3 {
        let effects = timer.update(Message::Tick);
        assert!(effects.is_empty());
        assert_eq!(timer, before);
    }
    assert_eq!(timer.remaining(), 0);
}

#[test]
fn stop_winds_back_and_halts() {
    let mut timer = running(50);
    timer.update(Message::Tick);
    timer.update(Message::Tick);
    assert_eq!(timer.remaining(), 48);
    let effects = timer.update(Message::Stop);
    assert!(effects.is_empty());
    assert_eq!(timer.remaining(), 50);
    assert_eq!(timer.configured_duration(), 50);
    assert!(timer.is_paused());

    let mut halted = Pomodoro::new(3, 0);
    assert!(halted.update(Message::Stop).is_empty());
    assert_eq!(halted.remaining(), 180);
    assert!(halted.is_paused());
}

#[test]
fn stop_leaves_the_break_cycle_alone() {
    let mut timer = Pomodoro::with_break_cycle();
    timer.update(Message::Resume);
    assert_eq!(run_down(&mut timer), 1);
    assert!(timer.in_break());
    assert_eq!(timer.break_cycle_index(), 1);
    timer.update(Message::Tick);
    timer.update(Message::Stop);
    assert!(timer.in_break());
    assert_eq!(timer.break_cycle_index(), 1);
    assert_eq!(timer.remaining(), u32::from(SHORT_BREAK_SECONDS));
    assert!(timer.is_paused());
}

#[test]
fn four_work_expiries_rotate_the_break_cycle() {
    assert_eq!(CYCLE_LENGTH, 4);
    assert_eq!(SHORT_BREAK_SECONDS, 300);
    assert_eq!(LONG_BREAK_SECONDS, 900);
    let mut timer = Pomodoro::with_break_cycle();
    timer.update(Message::Resume);
    let expected: [(u8, u32); 4] = [(1, 300), (2, 300), (3, 300), (0, 900)];
    for (index, seconds) in expected {
        assert!(!timer.in_break());
        assert_eq!(timer.configured_duration(), 1500);
        assert_eq!(run_down(&mut timer), 1);
        assert!(timer.in_break());
        assert!(!timer.is_paused());
        assert_eq!(timer.break_cycle_index(), index);
        assert_eq!(timer.configured_duration(), seconds);
        assert_eq!(timer.remaining(), seconds);
        assert_eq!(run_down(&mut timer), 1);
        assert!(!timer.in_break());
        assert_eq!(timer.break_cycle_index(), index);
        assert_eq!(timer.remaining(), 1500);
    }
}

#[test]
fn default_work_session_runs_down_into_a_short_break() {
    let mut timer = Pomodoro::with_break_cycle();
    timer.update(Message::Resume);
    let mut fired: u32 = 0;
    for sent in 1..=1500u32 {
        let effects = timer.update(Message::Tick);
        if sent < 1500 {
            assert!(effects.is_empty());
            assert_eq!(timer.remaining(), 1500 - sent);
            assert_eq!(timer.configured_duration(), 1500);
        } else {
            assert_eq!(effects, vec![Effect::GainFocus, Effect::PlayAudio]);
        }
        if effects.contains(&Effect::GainFocus) {
            fired += 1;
        }
    }
    assert_eq!(fired, 1);
    assert_eq!(timer.break_cycle_index(), 1);
    assert_eq!(timer.configured_duration(), u32::from(SHORT_BREAK_SECONDS));
    assert_eq!(timer.remaining(), u32::from(SHORT_BREAK_SECONDS));
    assert!(timer.in_break());
    assert!(!timer.is_paused());
}

#[test]
fn unparsable_duration_is_zero() {
    let mut timer = Pomodoro::new(25, 0);
    let message = Message::from_text("abc");
    assert_eq!(message, Message::SetSeconds(0));
    let effects = timer.update(message);
    assert!(effects.is_empty());
    assert_eq!(timer.configured_duration(), 0);
    assert_eq!(timer.remaining(), 0);
}

#[test]
fn typed_duration_is_dialled_in() {
    let mut timer = Pomodoro::new(25, 0);
    assert_eq!(Message::from_text("90"), Message::SetSeconds(90));
    timer.update(Message::from_text("90"));
    assert_eq!(timer.configured_duration(), 90);
    assert_eq!(timer.remaining(), 90);
}

#[test]
fn paused_ticks_do_not_count() {
    let mut timer = running(100);
    let start: u32 = timer.remaining();
    timer.update(Message::Pause);
    for _ in 0..5 {
        assert!(timer.update(Message::Tick).is_empty());
    }
    assert_eq!(timer.remaining(), start);
    timer.update(Message::Resume);
    timer.update(Message::Tick);
    assert_eq!(timer.remaining(), start - 1);
}

#[test]
fn toggle_break_is_ignored_by_a_plain_timer() {
    let mut timer = running(20);
    timer.update(Message::Tick);
    let before = timer;
    let effects = timer.update(Message::ToggleBreak);
    assert!(effects.is_empty());
    assert_eq!(timer, before);
}

#[test]
fn toggle_break_by_hand_enters_and_leaves_a_break() {
    let mut timer = Pomodoro::with_break_cycle();
    assert!(timer.update(Message::ToggleBreak).is_empty());
    assert!(timer.in_break());
    assert_eq!(timer.break_cycle_index(), 1);
    assert_eq!(timer.configured_duration(), 300);
    assert_eq!(timer.remaining(), 300);
    assert!(timer.is_paused());
    assert!(timer.update(Message::ToggleBreak).is_empty());
    assert!(!timer.in_break());
    assert_eq!(timer.break_cycle_index(), 1);
    assert_eq!(timer.configured_duration(), 1500);
    assert_eq!(timer.remaining(), 1500);
}

#[test]
fn leaving_a_break_restores_the_default_work_session() {
    let mut timer = Pomodoro::with_break_cycle();
    timer.update(Message::SetSeconds(2));
    timer.update(Message::Resume);
    assert_eq!(run_down(&mut timer), 1);
    assert!(timer.in_break());
    assert_eq!(run_down(&mut timer), 1);
    assert!(!timer.in_break());
    assert_eq!(timer.configured_duration(), 1500);
    assert_eq!(timer.remaining(), 1500);
}

#[test]
fn play_audio_asks_for_the_cue_only() {
    let mut timer = running(10);
    let before = timer;
    let effects = timer.update(Message::PlayAudio);
    assert_eq!(effects, vec![Effect::PlayAudio]);
    assert_eq!(timer, before);
}

#[test]
fn remaining_never_exceeds_the_duration() {
    let mut timer = Pomodoro::with_break_cycle();
    let script = [
        Message::Resume,
        Message::Tick,
        Message::SetSeconds(3),
        Message::Tick,
        Message::Tick,
        Message::Pause,
        Message::Tick,
        Message::Resume,
        Message::Tick,
        Message::Tick,
        Message::ToggleBreak,
        Message::Stop,
        Message::PlayAudio,
        Message::SetSeconds(0),
        Message::Resume,
        Message::Tick,
    ];
    for message in script {
        timer.update(message);
        assert!(timer.remaining() <= timer.configured_duration());
        assert!(timer.break_cycle_index() < CYCLE_LENGTH);
    }
}

#[test]
fn clock_runs_while_not_paused() {
    let mut timer = Pomodoro::new(1, 0);
    assert_eq!(timer.subscription(), TickSource::Idle);
    timer.update(Message::Resume);
    assert_eq!(timer.subscription(), TickSource::EverySecond);
    timer.update(Message::Pause);
    assert_eq!(timer.subscription(), TickSource::Idle);
    timer.update(Message::Resume);
    timer.update(Message::Stop);
    assert_eq!(timer.subscription(), TickSource::Idle);
}
