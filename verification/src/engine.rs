//! The session engine's decision logic. The surrounding event loop owns
//! the I/O: each iteration it renders a snapshot, broadcasts it when
//! hosting, then waits for one of the tick, a local input event, or an
//! inbound network message, and feeds whichever arrived into the engine.
//! Everything the loop decides — how a command changes the session, when
//! the tick reference must restart, when a transition must be announced —
//! is computed and proved here.

use vstd::prelude::*;

use crate::duration::SessionDuration;
use crate::pomodoro::State;
use crate::protocol::Event;
use crate::protocol::TimerVisuals;

verus! {

/// Where the engine's own life stands: it is promoted from `Idle` to
/// `Running` on loop entry, and only a `Quit` command moves it to
/// `Terminating`, from which there is no way back.
#[derive(Clone, Copy, PartialEq, Eq, Structural, Debug)]
pub enum EngineStatus {
    Idle,
    Running,
    Terminating,
}

/// The session engine: the authoritative session state plus the engine's
/// own lifecycle.
#[derive(Clone, Copy, PartialEq, Eq, Structural, Debug)]
pub struct SessionEngine {
    pub state: State,
    pub status: EngineStatus,
}

/// How one command changes the session: local input and remote `Event`
/// messages are applied identically.
pub open spec fn spec_apply_event(s: State, e: Event) -> State {
    match e {
        Event::Quit => s,
        Event::ToggleTimer => State {
            timer_is_active: !s.timer_is_active,
            activity: s.activity,
            progress: s.progress,
            completed_focus_sessions: s.completed_focus_sessions,
            settings: s.settings,
            current_activity_duration_override: s.current_activity_duration_override,
        },
        Event::ResetTimer => State::spec_new(s.settings),
        Event::SkipActivity => s.spec_skip(),
        Event::ExtendActivity(d) => s.spec_extend(d.millis),
        Event::ReduceActivity(d) => s.spec_reduce(d.millis),
    }
}

impl SessionEngine {
    /// A new engine is idle until its loop starts.
    pub fn new(state: State) -> (r: SessionEngine)
        ensures
            r.state == state,
            r.status is Idle,
    {
        SessionEngine { state, status: EngineStatus::Idle }
    }

    /// Loop entry: an idle engine starts running. A terminated engine
    /// never comes back.
    pub fn start(&mut self)
        ensures
            final(self).state == old(self).state,
            final(self).status == if old(self).status is Terminating {
                EngineStatus::Terminating
            } else {
                EngineStatus::Running
            },
    {
        if !matches!(self.status, EngineStatus::Terminating) {
            self.status = EngineStatus::Running;
        }
    }

    /// Applies one command, local or remote. Returns whether the loop must
    /// quit, and whether the tick reference must restart because the
    /// command woke a stopped timer (so the first elapsed span is not
    /// artificially large).
    pub fn handle_event(&mut self, event: &Event) -> (r: (bool, bool))
        requires
            old(self).status is Running,
        ensures
            final(self).state == spec_apply_event(old(self).state, *event),
            final(self).status == if *event is Quit {
                EngineStatus::Terminating
            } else {
                EngineStatus::Running
            },
            r.0 == (*event is Quit),
            r.1 == (!old(self).state.timer_is_active && final(self).state.timer_is_active),
    {
        let timer_was_stopped = !self.state.timer_is_active();

        match event {
            Event::ToggleTimer => {
                self.state.toggle_timer();
            },
            Event::ExtendActivity(duration) => {
                self.state.extend_activity(duration);
            },
            Event::ReduceActivity(duration) => {
                self.state.reduce_activity(duration);
            },
            Event::SkipActivity => {
                self.state.skip_activity();
            },
            Event::ResetTimer => {
                self.state.reset();
            },
            Event::Quit => {
                self.status = EngineStatus::Terminating;
                return (true, false);
            },
        }

        let restart_tick = timer_was_stopped && self.state.timer_is_active();
        (false, restart_tick)
    }

    /// One timer tick: runs the session forward by the time elapsed since
    /// the tick reference. Returns whether the activity changed, which is
    /// when the loop must announce the transition (a notification locally,
    /// a `Notify` broadcast when hosting).
    pub fn on_tick(&mut self, elapsed: SessionDuration) -> (changed: bool)
        requires
            old(self).status is Running,
        ensures
            final(self).state == old(self).state.spec_advance(elapsed.millis),
            final(self).status is Running,
            changed == (old(self).state.activity != final(self).state.activity),
    {
        let before = self.state.current_activity();
        self.state.increase_progress(elapsed);
        let after = self.state.current_activity();
        !(before == after)
    }

    /// The read-only snapshot the loop renders locally and broadcasts to
    /// every peer each iteration.
    pub fn visuals(&self) -> (r: TimerVisuals)
        ensures
            r.time_remaining.millis == self.state.spec_time_remaining(),
            r.timer_is_paused == !self.state.timer_is_active,
            r.activity == self.state.activity,
            r.progress_permille == self.state.spec_progress_permille(),
            r.completed_focus_sessions == self.state.completed_focus_sessions,
    {
        TimerVisuals {
            time_remaining: self.state.time_remaining(),
            timer_is_paused: !self.state.timer_is_active(),
            activity: self.state.current_activity(),
            progress_permille: self.state.progress_permille(),
            completed_focus_sessions: self.state.completed_focus_sessions(),
        }
    }
}

} // verus!
