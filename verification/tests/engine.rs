use pomodoro_sync::duration::SessionDuration;
use pomodoro_sync::engine::EngineStatus;
use pomodoro_sync::engine::SessionEngine;
use pomodoro_sync::pomodoro::Activity;
use pomodoro_sync::pomodoro::Settings;
use pomodoro_sync::pomodoro::State;
use pomodoro_sync::protocol::Event;

fn minutes(m: u64) -> SessionDuration {
    SessionDuration { millis: m * 60 * 1000 }
}

fn engine(start_automatically: bool) -> SessionEngine {
    let settings = Settings::new(minutes(25), minutes(5), minutes(20), start_automatically);
    let mut e = SessionEngine::new(State::new(settings));
    e.start();
    e
}

#[test]
fn engine_runs_on_loop_entry_and_only_quit_terminates() {
    let settings = Settings::default();
    let mut e = SessionEngine::new(State::new(settings));
    assert_eq!(e.status, EngineStatus::Idle);
    e.start();
    assert_eq!(e.status, EngineStatus::Running);

    let (quit, _) = e.handle_event(&Event::ToggleTimer);
    assert!(!quit);
    assert_eq!(e.status, EngineStatus::Running);

    let (quit, _) = e.handle_event(&Event::Quit);
    assert!(quit);
    assert_eq!(e.status, EngineStatus::Terminating);

    // there is no way back from the terminal state
    e.start();
    assert_eq!(e.status, EngineStatus::Terminating);
}

#[test]
fn commands_apply_identically_whatever_their_origin() {
    // the engine exposes one entry point for local and remote commands; a
    // skip fed through it matches a direct skip on the state machine
    let mut via_engine = engine(false);
    via_engine.handle_event(&Event::SkipActivity);
    let mut direct = State::new(Settings::new(minutes(25), minutes(5), minutes(20), false));
    direct.skip_activity();
    assert_eq!(via_engine.state, direct);
}

#[test]
fn waking_the_timer_restarts_the_tick_reference() {
    let mut e = engine(false);
    // toggling a stopped timer wakes it: the tick reference must restart
    let (_, restart) = e.handle_event(&Event::ToggleTimer);
    assert!(restart);
    // toggling a running timer stops it: nothing to restart
    let (_, restart) = e.handle_event(&Event::ToggleTimer);
    assert!(!restart);
    // commands that leave the timer stopped do not restart it
    let (_, restart) = e.handle_event(&Event::SkipActivity);
    assert!(!restart);
    // a skip that re-arms the timer automatically does
    let mut auto = engine(true);
    auto.handle_event(&Event::ToggleTimer);
    assert!(!auto.state.timer_is_active);
    let (_, restart) = auto.handle_event(&Event::SkipActivity);
    assert!(restart);
}

#[test]
fn extend_and_reduce_commands_adjust_the_duration() {
    let mut e = engine(false);
    e.handle_event(&Event::ExtendActivity(minutes(5)));
    assert_eq!(e.state.current_activity_duration().millis, minutes(30).millis);
    e.handle_event(&Event::ReduceActivity(minutes(10)));
    assert_eq!(e.state.current_activity_duration().millis, minutes(20).millis);
}

#[test]
fn reset_command_returns_the_session_to_its_start() {
    let mut e = engine(false);
    e.handle_event(&Event::ToggleTimer);
    e.on_tick(minutes(25));
    assert_eq!(e.state.completed_focus_sessions(), 1);
    e.handle_event(&Event::ResetTimer);
    assert_eq!(e.state, State::new(Settings::new(minutes(25), minutes(5), minutes(20), false)));
}

#[test]
fn ticks_advance_only_a_running_timer_and_report_transitions() {
    let mut e = engine(false);
    assert!(!e.on_tick(minutes(10)));
    assert_eq!(e.state.progress.millis, 0);

    e.handle_event(&Event::ToggleTimer);
    assert!(!e.on_tick(minutes(10)));
    assert_eq!(e.state.progress.millis, minutes(10).millis);

    // the tick that completes the activity reports the transition
    assert!(e.on_tick(minutes(15)));
    assert_eq!(e.state.current_activity(), Activity::ShortBreak);
}

#[test]
fn visuals_snapshot_matches_the_state() {
    let mut e = engine(false);
    e.handle_event(&Event::ToggleTimer);
    e.on_tick(minutes(5));
    let v = e.visuals();
    assert_eq!(v.time_remaining.millis, minutes(20).millis);
    assert!(!v.timer_is_paused);
    assert_eq!(v.activity, Activity::Focus);
    assert_eq!(v.progress_permille, 200);
    assert_eq!(v.completed_focus_sessions, 0);

    e.handle_event(&Event::ToggleTimer);
    let v = e.visuals();
    assert!(v.timer_is_paused);
}
