//! The timer state machine: activities, settings, and the session state
//! with its transition rules.

use vstd::prelude::*;

use crate::duration::SessionDuration;

verus! {

/// One of the three phases a session alternates between.
#[derive(Clone, Copy, PartialEq, Eq, Structural, Debug)]
pub enum Activity {
    Focus,
    ShortBreak,
    LongBreak,
}

impl Activity {
    pub fn is_focus(&self) -> (r: bool)
        ensures
            r == (self is Focus),
    {
        matches!(self, Activity::Focus)
    }
}

/// The durations a session was started with; immutable for its lifetime.
#[derive(Clone, Copy, PartialEq, Eq, Structural, Debug)]
pub struct Settings {
    pub focus_duration: SessionDuration,
    pub short_break_duration: SessionDuration,
    pub long_break_duration: SessionDuration,
    pub start_automatically: bool,
}

impl Settings {
    pub fn new(
        focus: SessionDuration,
        short_break: SessionDuration,
        long_break: SessionDuration,
        start_automatically: bool,
    ) -> (r: Settings)
        ensures
            r.focus_duration == focus,
            r.short_break_duration == short_break,
            r.long_break_duration == long_break,
            r.start_automatically == start_automatically,
    {
        Settings {
            focus_duration: focus,
            short_break_duration: short_break,
            long_break_duration: long_break,
            start_automatically,
        }
    }
}

impl Default for Settings {
    /// Twenty-five focus minutes, five short-break minutes, fifteen
    /// long-break minutes, and the timer parked until started by hand.
    fn default() -> (r: Settings)
        ensures
            r.focus_duration.millis == 25 * 60 * 1000,
            r.short_break_duration.millis == 5 * 60 * 1000,
            r.long_break_duration.millis == 15 * 60 * 1000,
            !r.start_automatically,
    {
        Settings {
            focus_duration: SessionDuration { millis: 25 * 60 * 1000 },
            short_break_duration: SessionDuration { millis: 5 * 60 * 1000 },
            long_break_duration: SessionDuration { millis: 15 * 60 * 1000 },
            start_automatically: false,
        }
    }
}

/// The duration the settings assign to an activity.
pub open spec fn spec_settings_duration(settings: Settings, activity: Activity) -> u64 {
    match activity {
        Activity::Focus => settings.focus_duration.millis,
        Activity::ShortBreak => settings.short_break_duration.millis,
        Activity::LongBreak => settings.long_break_duration.millis,
    }
}

/// The activity that follows `activity`, deciding the break length from the
/// number of focus sessions completed so far (counted after the increment
/// for the focus session that just ended): every fourth one earns the long
/// break.
pub open spec fn spec_next_activity(activity: Activity, completed_focus_sessions: u32) -> Activity {
    match activity {
        Activity::Focus => if completed_focus_sessions % 4 == 0 {
            Activity::LongBreak
        } else {
            Activity::ShortBreak
        },
        Activity::ShortBreak => Activity::Focus,
        Activity::LongBreak => Activity::Focus,
    }
}

/// The focus counter after one more focus session ends; it sticks at the
/// largest representable count rather than wrapping.
pub open spec fn spec_bump_focus_count(count: u32) -> u32 {
    if count < u32::MAX {
        (count + 1) as u32
    } else {
        count
    }
}

/// The authoritative state of one running session.
#[derive(Clone, Copy, PartialEq, Eq, Structural, Debug)]
pub struct State {
    pub activity: Activity,
    pub progress: SessionDuration,
    pub completed_focus_sessions: u32,
    pub timer_is_active: bool,
    pub settings: Settings,
    pub current_activity_duration_override: Option<SessionDuration>,
}

impl State {
    /// The state a session begins in: a focus phase at zero progress, with
    /// the timer running only when the settings start it automatically.
    pub open spec fn spec_new(settings: Settings) -> State {
        State {
            activity: Activity::Focus,
            progress: SessionDuration { millis: 0 },
            completed_focus_sessions: 0,
            timer_is_active: settings.start_automatically,
            settings,
            current_activity_duration_override: None,
        }
    }

    /// The duration the current activity runs for: the ad-hoc override if
    /// one was set, else the matching settings field.
    pub open spec fn spec_effective_duration(self) -> u64 {
        match self.current_activity_duration_override {
            Some(d) => d.millis,
            None => spec_settings_duration(self.settings, self.activity),
        }
    }

    /// Time left in the current activity; zero once progress has caught up
    /// with the effective duration.
    pub open spec fn spec_time_remaining(self) -> u64 {
        if self.progress.millis <= self.spec_effective_duration() {
            (self.spec_effective_duration() - self.progress.millis) as u64
        } else {
            0
        }
    }

    /// The end-of-activity bookkeeping shared by expiry and skipping:
    /// count the activity if it was a focus session, clear the override,
    /// move to the next activity, and run or park the timer as the
    /// settings say. `leftover` is carried into the new activity's
    /// progress (zero for a skip or a parked timer).
    pub open spec fn spec_finish_activity(self, leftover: u64) -> State {
        let counted = if self.activity is Focus {
            spec_bump_focus_count(self.completed_focus_sessions)
        } else {
            self.completed_focus_sessions
        };
        State {
            activity: spec_next_activity(self.activity, counted),
            progress: SessionDuration { millis: leftover },
            completed_focus_sessions: counted,
            timer_is_active: self.settings.start_automatically,
            settings: self.settings,
            current_activity_duration_override: None,
        }
    }

    /// The state after the timer has run for `elapsed` milliseconds. A
    /// parked timer does not move. Progress saturates rather than wraps;
    /// when it reaches the effective duration the activity ends, carrying
    /// the overshoot into the next activity when the timer restarts
    /// automatically and parking at zero progress otherwise.
    pub open spec fn spec_advance(self, elapsed: u64) -> State {
        if !self.timer_is_active {
            self
        } else {
            let p = if self.progress.millis + elapsed <= u64::MAX {
                (self.progress.millis + elapsed) as u64
            } else {
                u64::MAX
            };
            let eff = self.spec_effective_duration();
            if p >= eff {
                let leftover = if self.settings.start_automatically {
                    (p - eff) as u64
                } else {
                    0
                };
                self.spec_finish_activity(leftover)
            } else {
                State {
                    activity: self.activity,
                    progress: SessionDuration { millis: p },
                    completed_focus_sessions: self.completed_focus_sessions,
                    timer_is_active: self.timer_is_active,
                    settings: self.settings,
                    current_activity_duration_override: self.current_activity_duration_override,
                }
            }
        }
    }

    /// The state after skipping the rest of the current activity.
    pub open spec fn spec_skip(self) -> State {
        self.spec_finish_activity(0)
    }

    /// The state after asking to extend the current activity by `delta`
    /// milliseconds; a request that would not fit in the duration type
    /// changes nothing.
    pub open spec fn spec_extend(self, delta: u64) -> State {
        if self.spec_effective_duration() + delta <= u64::MAX {
            State {
                activity: self.activity,
                progress: self.progress,
                completed_focus_sessions: self.completed_focus_sessions,
                timer_is_active: self.timer_is_active,
                settings: self.settings,
                current_activity_duration_override: Some(
                    SessionDuration { millis: (self.spec_effective_duration() + delta) as u64 },
                ),
            }
        } else {
            self
        }
    }

    /// The state after asking to shorten the current activity by `delta`
    /// milliseconds; the request is honoured only while strictly more than
    /// `delta` remains, so the remaining time never reaches zero this way.
    pub open spec fn spec_reduce(self, delta: u64) -> State {
        if self.spec_time_remaining() > delta {
            State {
                activity: self.activity,
                progress: self.progress,
                completed_focus_sessions: self.completed_focus_sessions,
                timer_is_active: self.timer_is_active,
                settings: self.settings,
                current_activity_duration_override: Some(
                    SessionDuration { millis: (self.spec_effective_duration() - delta) as u64 },
                ),
            }
        } else {
            self
        }
    }

    pub fn new(settings: Settings) -> (r: State)
        ensures
            r == State::spec_new(settings),
    {
        State {
            activity: Activity::Focus,
            progress: SessionDuration { millis: 0 },
            completed_focus_sessions: 0,
            timer_is_active: settings.start_automatically,
            settings,
            current_activity_duration_override: None,
        }
    }

    /// Runs the timer for `duration` more milliseconds, ending the current
    /// activity if its effective duration is reached.
    pub fn increase_progress(&mut self, duration: SessionDuration)
        ensures
            *final(self) == old(self).spec_advance(duration.millis),
    {
        if !self.timer_is_active {
            return;
        }

        let p: u64 = if self.progress.millis <= u64::MAX - duration.millis {
            self.progress.millis + duration.millis
        } else {
            u64::MAX
        };
        self.progress = SessionDuration { millis: p };

        let max_duration = self.current_activity_duration();

        if p >= max_duration.millis {
            if self.settings.start_automatically {
                self.progress = SessionDuration { millis: p - max_duration.millis };
                self.start_timer();
            } else {
                self.progress = SessionDuration { millis: 0 };
                self.stop_timer();
            }

            self.current_activity_duration_override = None;

            if self.activity.is_focus() {
                if self.completed_focus_sessions < u32::MAX {
                    self.completed_focus_sessions = self.completed_focus_sessions + 1;
                }
            }

            self.activity = self.next_activity();
        }
    }

    pub fn time_remaining(&self) -> (r: SessionDuration)
        ensures
            r.millis == self.spec_time_remaining(),
    {
        let eff = self.current_activity_duration();
        if self.progress.millis <= eff.millis {
            SessionDuration { millis: eff.millis - self.progress.millis }
        } else {
            SessionDuration { millis: 0 }
        }
    }

    pub fn start_timer(&mut self)
        ensures
            final(self).timer_is_active,
            final(self).activity == old(self).activity,
            final(self).progress == old(self).progress,
            final(self).completed_focus_sessions == old(self).completed_focus_sessions,
            final(self).settings == old(self).settings,
            final(self).current_activity_duration_override
                == old(self).current_activity_duration_override,
    {
        self.timer_is_active = true;
    }

    pub fn stop_timer(&mut self)
        ensures
            !final(self).timer_is_active,
            final(self).activity == old(self).activity,
            final(self).progress == old(self).progress,
            final(self).completed_focus_sessions == old(self).completed_focus_sessions,
            final(self).settings == old(self).settings,
            final(self).current_activity_duration_override
                == old(self).current_activity_duration_override,
    {
        self.timer_is_active = false;
    }

    pub fn toggle_timer(&mut self)
        ensures
            final(self).timer_is_active == !old(self).timer_is_active,
            final(self).activity == old(self).activity,
            final(self).progress == old(self).progress,
            final(self).completed_focus_sessions == old(self).completed_focus_sessions,
            final(self).settings == old(self).settings,
            final(self).current_activity_duration_override
                == old(self).current_activity_duration_override,
    {
        self.timer_is_active = !self.timer_is_active;
    }

    pub fn timer_is_active(&self) -> (r: bool)
        ensures
            r == self.timer_is_active,
    {
        self.timer_is_active
    }

    /// Ends the current activity immediately, with the same bookkeeping as
    /// letting it expire.
    pub fn skip_activity(&mut self)
        ensures
            *final(self) == old(self).spec_skip(),
    {
        self.progress = SessionDuration { millis: 0 };
        self.current_activity_duration_override = None;
        if self.activity.is_focus() {
            if self.completed_focus_sessions < u32::MAX {
                self.completed_focus_sessions = self.completed_focus_sessions + 1;
            }
        }

        if self.settings.start_automatically {
            self.start_timer();
        } else {
            self.stop_timer();
        }

        self.activity = self.next_activity();
    }

    /// Does nothing if the extension would overflow the duration type.
    pub fn extend_activity(&mut self, duration: &SessionDuration)
        ensures
            *final(self) == old(self).spec_extend(duration.millis),
    {
        let eff = self.current_activity_duration();
        if eff.millis <= u64::MAX - duration.millis {
            self.current_activity_duration_override = Some(
                SessionDuration { millis: eff.millis + duration.millis },
            );
        }
    }

    /// Does nothing unless strictly more than `duration` remains, so the
    /// remaining time never reaches zero or goes negative through this
    /// path.
    pub fn reduce_activity(&mut self, duration: &SessionDuration)
        ensures
            *final(self) == old(self).spec_reduce(duration.millis),
            old(self).spec_time_remaining() > duration.millis
                ==> final(self).spec_time_remaining() > 0,
            old(self).spec_time_remaining() > 0 ==> final(self).spec_time_remaining() > 0,
    {
        let remaining = self.time_remaining();
        if remaining.millis > duration.millis {
            let eff = self.current_activity_duration();
            self.current_activity_duration_override = Some(
                SessionDuration { millis: eff.millis - duration.millis },
            );
        }
    }

    /// Progress through the current activity in thousandths, clamped to
    /// 1000; an activity of zero duration counts as fully complete.
    pub fn progress_permille(&self) -> (r: u16)
        ensures
            r == self.spec_progress_permille(),
    {
        let eff = self.current_activity_duration();
        if self.progress.millis >= eff.millis {
            1000
        } else {
            let scaled: u128 = (self.progress.millis as u128) * 1000 / (eff.millis as u128);
            proof {
                lemma_scaled_progress_bound(
                    self.progress.millis as int,
                    eff.millis as int,
                );
            }
            scaled as u16
        }
    }

    /// Progress through the current activity in thousandths of its
    /// effective duration, clamped to 1000.
    pub open spec fn spec_progress_permille(self) -> u16 {
        if self.progress.millis >= self.spec_effective_duration() {
            1000
        } else {
            (self.progress.millis * 1000 / self.spec_effective_duration() as int) as u16
        }
    }

    pub fn current_activity(&self) -> (r: Activity)
        ensures
            r == self.activity,
    {
        self.activity
    }

    pub fn completed_focus_sessions(&self) -> (r: u32)
        ensures
            r == self.completed_focus_sessions,
    {
        self.completed_focus_sessions
    }

    pub fn current_activity_duration(&self) -> (r: SessionDuration)
        ensures
            r.millis == self.spec_effective_duration(),
    {
        match self.current_activity_duration_override {
            Some(duration) => duration,
            None => match self.activity {
                Activity::Focus => self.settings.focus_duration,
                Activity::ShortBreak => self.settings.short_break_duration,
                Activity::LongBreak => self.settings.long_break_duration,
            },
        }
    }

    pub fn next_activity(&self) -> (r: Activity)
        ensures
            r == spec_next_activity(self.activity, self.completed_focus_sessions),
    {
        match self.activity {
            Activity::Focus => {
                if self.completed_focus_sessions % 4 == 0 {
                    Activity::LongBreak
                } else {
                    Activity::ShortBreak
                }
            },
            Activity::ShortBreak => Activity::Focus,
            Activity::LongBreak => Activity::Focus,
        }
    }

    /// Returns to the state the session began in, keeping the settings.
    pub fn reset(&mut self)
        ensures
            *final(self) == State::spec_new(old(self).settings),
    {
        self.activity = Activity::Focus;
        self.progress = SessionDuration { millis: 0 };
        self.completed_focus_sessions = 0;
        self.timer_is_active = self.settings.start_automatically;
        self.current_activity_duration_override = None;
    }
}

/// The session state reached from a fresh session after `n` rounds of
/// finishing the focus activity and then finishing the break that follows
/// it.
pub open spec fn spec_run_focus_cycles(settings: Settings, n: nat) -> State
    decreases n,
{
    if n == 0 {
        State::spec_new(settings)
    } else {
        spec_run_focus_cycles(settings, (n - 1) as nat).spec_skip().spec_skip()
    }
}

/// After `n` completed focus activities (each followed by its completed
/// break), the session is back in a focus phase with the timer parked and
/// exactly `n` focus sessions counted; and the break granted after the
/// `n`-th focus session is the long one exactly when `n` is a multiple of
/// four.
pub proof fn lemma_focus_cycle_progression(settings: Settings, n: nat)
    requires
        !settings.start_automatically,
        n <= u32::MAX,
    ensures
        spec_run_focus_cycles(settings, n).activity is Focus,
        spec_run_focus_cycles(settings, n).completed_focus_sessions == n,
        !spec_run_focus_cycles(settings, n).timer_is_active,
        spec_run_focus_cycles(settings, n).progress.millis == 0,
        n >= 1 ==> spec_run_focus_cycles(settings, (n - 1) as nat).spec_skip().activity == (
        if n % 4 == 0 {
            Activity::LongBreak
        } else {
            Activity::ShortBreak
        }),
    decreases n,
{
    if n > 0 {
        lemma_focus_cycle_progression(settings, (n - 1) as nat);
    }
}

impl State {
    /// Letting an activity expire does exactly what skipping it does
    /// whenever the finished activity is not restarted automatically: the
    /// run of the timer that reaches the effective duration performs the
    /// same bookkeeping as an explicit skip.
    pub proof fn lemma_expiry_matches_skip(self, elapsed: u64)
        requires
            self.timer_is_active,
            !self.settings.start_automatically,
            self.progress.millis + elapsed >= self.spec_effective_duration(),
        ensures
            self.spec_advance(elapsed) == self.spec_skip(),
    {
    }

    /// Extending the current activity by `delta` and then immediately
    /// reducing it by the same `delta` restores the original effective
    /// duration, for any `delta` the duration type can absorb. The session
    /// must be strictly inside the activity, as it always is outside the
    /// instant of a transition.
    pub proof fn lemma_extend_then_reduce_restores(self, delta: u64)
        requires
            self.progress.millis < self.spec_effective_duration(),
            self.spec_effective_duration() + delta <= u64::MAX,
        ensures
            self.spec_extend(delta).spec_reduce(delta).spec_effective_duration()
                == self.spec_effective_duration(),
            self.spec_extend(delta).spec_reduce(delta).spec_time_remaining()
                == self.spec_time_remaining(),
    {
    }
}

proof fn lemma_scaled_progress_bound(p: int, e: int)
    requires
        0 <= p < e,
    ensures
        0 <= p * 1000 / e < 1000,
{
    assert(p * 1000 < e * 1000) by (nonlinear_arith)
        requires
            0 <= p < e,
    ;
    assert(p * 1000 / e < 1000) by (nonlinear_arith)
        requires
            0 < e,
            0 <= p * 1000 < e * 1000,
    ;
    assert(p * 1000 / e >= 0) by (nonlinear_arith)
        requires
            0 < e,
            0 <= p * 1000,
    ;
}

} // verus!
