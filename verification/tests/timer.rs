use pomodoro_sync::duration::SessionDuration;
use pomodoro_sync::pomodoro::Activity;
use pomodoro_sync::pomodoro::Settings;
use pomodoro_sync::pomodoro::State;

fn minutes(m: u64) -> SessionDuration {
    SessionDuration { millis: m * 60 * 1000 }
}

fn classic_settings() -> Settings {
    Settings::new(minutes(25), minutes(5), minutes(20), false)
}

#[test]
fn one_full_focus_session_parks_in_short_break() {
    // Settings{focus=25m, short=5m, long=20m, start_automatically=false}:
    // one full focus run ends in a parked short break with one session
    // counted and progress back at zero.
    let mut state = State::new(classic_settings());
    assert!(!state.timer_is_active());
    state.start_timer();
    state.increase_progress(minutes(25));
    assert_eq!(state.current_activity(), Activity::ShortBreak);
    assert!(!state.timer_is_active());
    assert_eq!(state.progress.millis, 0);
    assert_eq!(state.completed_focus_sessions(), 1);
}

#[test]
fn fourth_focus_completion_earns_long_break() {
    // Repeating the Focus -> ShortBreak -> Focus cycle: the fourth focus
    // completion is followed by the long break, the first three by short
    // ones.
    let mut state = State::new(classic_settings());
    for k in 1u32..=4 {
        assert_eq!(state.current_activity(), Activity::Focus);
        state.start_timer();
        state.increase_progress(minutes(25));
        assert_eq!(state.completed_focus_sessions(), k);
        if k == 4 {
            assert_eq!(state.current_activity(), Activity::LongBreak);
        } else {
            assert_eq!(state.current_activity(), Activity::ShortBreak);
            state.start_timer();
            state.increase_progress(minutes(5));
            assert_eq!(state.completed_focus_sessions(), k);
        }
    }
}

#[test]
fn focus_count_tracks_completions_across_cycles() {
    // Six completed focus sessions via skipping: the counter matches, and
    // the break after the fourth is long while the sixth's is short.
    let mut state = State::new(classic_settings());
    for k in 1u32..=6 {
        state.skip_activity();
        assert_eq!(state.completed_focus_sessions(), k);
        let expected = if k % 4 == 0 {
            Activity::LongBreak
        } else {
            Activity::ShortBreak
        };
        assert_eq!(state.current_activity(), expected);
        state.skip_activity();
        assert_eq!(state.current_activity(), Activity::Focus);
        assert_eq!(state.completed_focus_sessions(), k);
    }
}

#[test]
fn skip_performs_end_of_activity_bookkeeping() {
    let mut state = State::new(classic_settings());
    state.extend_activity(&minutes(2));
    state.start_timer();
    state.increase_progress(minutes(1));
    state.skip_activity();
    assert_eq!(state.current_activity(), Activity::ShortBreak);
    assert_eq!(state.progress.millis, 0);
    assert_eq!(state.completed_focus_sessions(), 1);
    assert!(!state.timer_is_active());
    // the override was cleared with the activity change
    assert_eq!(state.current_activity_duration().millis, minutes(5).millis);
}

#[test]
fn skip_restarts_timer_when_starting_automatically() {
    let settings = Settings::new(minutes(25), minutes(5), minutes(20), true);
    let mut state = State::new(settings);
    assert!(state.timer_is_active());
    state.skip_activity();
    assert!(state.timer_is_active());
    assert_eq!(state.current_activity(), Activity::ShortBreak);
}

#[test]
fn toggle_start_stop_flip_the_timer() {
    let mut state = State::new(classic_settings());
    assert!(!state.timer_is_active());
    state.toggle_timer();
    assert!(state.timer_is_active());
    state.toggle_timer();
    assert!(!state.timer_is_active());
    state.start_timer();
    assert!(state.timer_is_active());
    state.stop_timer();
    assert!(!state.timer_is_active());
}

#[test]
fn advance_does_nothing_while_parked() {
    let mut state = State::new(classic_settings());
    state.increase_progress(minutes(10));
    assert_eq!(state.progress.millis, 0);
    assert_eq!(state.current_activity(), Activity::Focus);
    assert_eq!(state.time_remaining().millis, minutes(25).millis);
}

#[test]
fn overshoot_carries_into_next_activity_when_automatic() {
    let settings = Settings::new(
        SessionDuration { millis: 1000 },
        SessionDuration { millis: 200 },
        SessionDuration { millis: 400 },
        true,
    );
    let mut state = State::new(settings);
    state.increase_progress(SessionDuration { millis: 1500 });
    // the first completion earns a short break: the counter is at one
    assert_eq!(state.current_activity(), Activity::ShortBreak);
    assert_eq!(state.progress.millis, 500);
    assert!(state.timer_is_active());
    // progress beyond the break's duration: no time remains, and the next
    // tick finishes the break
    assert_eq!(state.time_remaining().millis, 0);
    state.increase_progress(SessionDuration { millis: 0 });
    assert_eq!(state.current_activity(), Activity::Focus);
    assert_eq!(state.progress.millis, 300);
}

#[test]
fn extend_grows_the_effective_duration() {
    let mut state = State::new(classic_settings());
    state.extend_activity(&minutes(3));
    assert_eq!(state.current_activity_duration().millis, minutes(28).millis);
    assert_eq!(state.time_remaining().millis, minutes(28).millis);
    // extending again builds on the override
    state.extend_activity(&minutes(1));
    assert_eq!(state.current_activity_duration().millis, minutes(29).millis);
}

#[test]
fn extend_that_would_overflow_is_a_no_op() {
    let mut state = State::new(classic_settings());
    state.extend_activity(&SessionDuration { millis: u64::MAX });
    assert_eq!(state.current_activity_duration().millis, minutes(25).millis);
}

#[test]
fn reduce_shrinks_but_never_exhausts_remaining_time() {
    let mut state = State::new(classic_settings());
    state.start_timer();
    state.increase_progress(minutes(10));
    // 15 minutes remain; reducing by 14 leaves one
    state.reduce_activity(&minutes(14));
    assert_eq!(state.current_activity_duration().millis, minutes(11).millis);
    assert_eq!(state.time_remaining().millis, minutes(1).millis);
    assert!(state.time_remaining().millis > 0);
}

#[test]
fn reduce_by_remaining_or_more_is_a_no_op() {
    let mut state = State::new(classic_settings());
    state.start_timer();
    state.increase_progress(minutes(10));
    state.reduce_activity(&minutes(15));
    assert_eq!(state.current_activity_duration().millis, minutes(25).millis);
    state.reduce_activity(&minutes(40));
    assert_eq!(state.current_activity_duration().millis, minutes(25).millis);
    assert_eq!(state.time_remaining().millis, minutes(15).millis);
}

#[test]
fn extend_then_reduce_restores_effective_duration() {
    let mut state = State::new(classic_settings());
    state.start_timer();
    state.increase_progress(minutes(7));
    let before = state.current_activity_duration().millis;
    state.extend_activity(&minutes(9));
    state.reduce_activity(&minutes(9));
    assert_eq!(state.current_activity_duration().millis, before);
    assert_eq!(state.time_remaining().millis, minutes(18).millis);
}

#[test]
fn reset_returns_to_the_initial_state() {
    let mut state = State::new(classic_settings());
    state.start_timer();
    state.increase_progress(minutes(25));
    state.extend_activity(&minutes(2));
    state.start_timer();
    state.reset();
    assert_eq!(state.current_activity(), Activity::Focus);
    assert_eq!(state.progress.millis, 0);
    assert_eq!(state.completed_focus_sessions(), 0);
    assert!(!state.timer_is_active());
    assert_eq!(state.current_activity_duration().millis, minutes(25).millis);
}

#[test]
fn progress_permille_is_exact() {
    let mut state = State::new(classic_settings());
    assert_eq!(state.progress_permille(), 0);
    state.start_timer();
    state.increase_progress(SessionDuration { millis: 5 * 60 * 1000 });
    // 5 of 25 minutes: exactly one fifth
    assert_eq!(state.progress_permille(), 200);
    state.increase_progress(SessionDuration { millis: 10 * 60 * 1000 });
    assert_eq!(state.progress_permille(), 600);
}

#[test]
fn zero_duration_activity_counts_as_complete() {
    let settings = Settings::new(
        SessionDuration { millis: 0 },
        SessionDuration { millis: 0 },
        SessionDuration { millis: 0 },
        false,
    );
    let state = State::new(settings);
    assert_eq!(state.progress_permille(), 1000);
    assert_eq!(state.time_remaining().millis, 0);
}

#[test]
fn default_settings_are_the_classic_pomodoro() {
    let settings = Settings::default();
    assert_eq!(settings.focus_duration.millis, 25 * 60 * 1000);
    assert_eq!(settings.short_break_duration.millis, 5 * 60 * 1000);
    assert_eq!(settings.long_break_duration.millis, 15 * 60 * 1000);
    assert!(!settings.start_automatically);
}

#[test]
fn activity_is_focus_only_for_focus() {
    assert!(Activity::Focus.is_focus());
    assert!(!Activity::ShortBreak.is_focus());
    assert!(!Activity::LongBreak.is_focus());
}

#[test]
fn session_duration_constructors_count_millis() {
    assert_eq!(SessionDuration::zero().millis, 0);
    assert_eq!(SessionDuration::from_millis(1234).millis, 1234);
    assert_eq!(SessionDuration::from_secs(90).millis, 90_000);
}
