//! The session shared by every widget, and the instants it is measured in.

use vstd::prelude::*;

verus! {

/// Length of one session, in milliseconds (25 minutes).
pub const SESSION_DURATION_MILLIS: i64 = 1_500_000;

/// Largest magnitude of a timestamp, in milliseconds either side of the Unix
/// epoch. Every instant that `chrono` can represent lies well inside it.
pub const TIMESTAMP_LIMIT_MILLIS: i64 = 2_000_000_000_000_000_000;

/// Whether four plain values describe an instant: the timestamp is within
/// the limit and the wall-clock reading is a time of day.
pub open spec fn valid_instant(timestamp_millis: int, hour: int, minute: int, second: int) -> bool {
    &&& -TIMESTAMP_LIMIT_MILLIS <= timestamp_millis <= TIMESTAMP_LIMIT_MILLIS
    &&& 0 <= hour < 24
    &&& 0 <= minute < 60
    &&& 0 <= second < 60
}

/// An instant of local time at millisecond resolution: its distance from the
/// Unix epoch, and the wall-clock reading (hour, minute, second) it has in the
/// local time zone.
#[derive(Clone, Copy, Debug)]
pub struct LocalDateTime {
    timestamp_millis: i64,
    hour: u32,
    minute: u32,
    second: u32,
}

impl LocalDateTime {
    /// Milliseconds since the Unix epoch.
    pub closed spec fn instant(self) -> int {
        self.timestamp_millis as int
    }

    /// Hour of the local day.
    pub closed spec fn wall_hour(self) -> int {
        self.hour as int
    }

    /// Minute of the local hour.
    pub closed spec fn wall_minute(self) -> int {
        self.minute as int
    }

    /// Second of the local minute.
    pub closed spec fn wall_second(self) -> int {
        self.second as int
    }

    /// Every value of the type is a valid instant.
    #[verifier::type_invariant]
    pub open spec fn wf(self) -> bool {
        valid_instant(self.instant(), self.wall_hour(), self.wall_minute(), self.wall_second())
    }

    /// Builds an instant from its timestamp and wall-clock reading, or `None`
    /// where they are out of range.
    pub fn new(timestamp_millis: i64, hour: u32, minute: u32, second: u32) -> (r: Option<Self>)
        ensures
            r is Some <==> valid_instant(
                timestamp_millis as int,
                hour as int,
                minute as int,
                second as int,
            ),
            r is Some ==> {
                &&& r->0.wf()
                &&& r->0.instant() == timestamp_millis
                &&& r->0.wall_hour() == hour
                &&& r->0.wall_minute() == minute
                &&& r->0.wall_second() == second
            },
    {
        if -TIMESTAMP_LIMIT_MILLIS <= timestamp_millis && timestamp_millis
            <= TIMESTAMP_LIMIT_MILLIS && hour < 24 && minute < 60 && second < 60 {
            Some(LocalDateTime { timestamp_millis, hour, minute, second })
        } else {
            None
        }
    }

    /// Milliseconds since the Unix epoch.
    pub fn timestamp_millis(&self) -> (r: i64)
        ensures
            r == self.instant(),
            -TIMESTAMP_LIMIT_MILLIS <= r <= TIMESTAMP_LIMIT_MILLIS,
    {
        proof {
            use_type_invariant(self);
        }
        self.timestamp_millis
    }

    /// Hour of the local day, 0 to 23.
    pub fn hour(&self) -> (r: u32)
        ensures
            r == self.wall_hour(),
            r < 24,
    {
        proof {
            use_type_invariant(self);
        }
        self.hour
    }

    /// Minute of the local hour, 0 to 59.
    pub fn minute(&self) -> (r: u32)
        ensures
            r == self.wall_minute(),
            r < 60,
    {
        proof {
            use_type_invariant(self);
        }
        self.minute
    }

    /// Second of the local minute, 0 to 59.
    pub fn second(&self) -> (r: u32)
        ensures
            r == self.wall_second(),
            r < 60,
    {
        proof {
            use_type_invariant(self);
        }
        self.second
    }

    /// Whether two values denote the same instant, whatever their wall-clock
    /// readings.
    pub fn same(&self, other: &Self) -> (r: bool)
        ensures
            r == (self.instant() == other.instant()),
    {
        self.timestamp_millis == other.timestamp_millis
    }
}

/// The three states a session can be in.
#[derive(Clone, Copy, Debug, PartialEq, Eq, Structural)]
pub enum Phase {
    Idle,
    Running,
    Finished,
}

/// The mathematical model of the shared state: two flags and the instant at
/// which the running session began.
pub struct Session {
    pub started: bool,
    pub ended: bool,
    pub start_time: Option<LocalDateTime>,
}

impl Session {
    /// The state at process start.
    pub open spec fn idle() -> Session {
        Session { started: false, ended: false, start_time: None }
    }

    /// The state right after a session began at `now`.
    pub open spec fn running_since(now: LocalDateTime) -> Session {
        Session { started: true, ended: false, start_time: Some(now) }
    }

    /// The state after the countdown reached zero.
    pub open spec fn finished() -> Session {
        Session { started: true, ended: true, start_time: None }
    }

    /// `ended` implies `started`, and a start time is held exactly while a
    /// session runs.
    pub open spec fn wf(self) -> bool {
        &&& self.ended ==> self.started
        &&& self.start_time is Some <==> self.started && !self.ended
        &&& self.start_time is Some ==> self.start_time->0.wf()
    }

    /// Which of the three states the flags denote.
    pub open spec fn phase(self) -> Phase {
        if !self.started {
            Phase::Idle
        } else if self.ended {
            Phase::Finished
        } else {
            Phase::Running
        }
    }

    /// The state after the button is pressed at `now`: a running session is
    /// stopped, any other state starts a fresh one.
    pub open spec fn press(self, now: LocalDateTime) -> Session {
        if self.phase() == Phase::Running {
            Session::idle()
        } else {
            Session::running_since(now)
        }
    }

    /// The instant at which the running session is over, in milliseconds.
    pub open spec fn deadline(self) -> int
        recommends
            self.start_time is Some,
    {
        self.start_time->0.instant() + SESSION_DURATION_MILLIS
    }

    /// Whether a check at `now` finds the session over: one is running and
    /// its deadline lies strictly before `now`.
    pub open spec fn expired(self, now: LocalDateTime) -> bool {
        &&& self.phase() == Phase::Running
        &&& self.start_time is Some
        &&& self.deadline() < now.instant()
    }

    /// The state after an expiry check at `now`.
    pub open spec fn tick(self, now: LocalDateTime) -> Session {
        if self.expired(now) {
            Session::finished()
        } else {
            self
        }
    }
}

/// The session state that every widget reads and the button and the timer
/// change.
#[derive(Clone, Copy, Debug)]
pub struct AppState {
    start_time: Option<LocalDateTime>,
    started: bool,
    ended: bool,
}

impl View for AppState {
    type V = Session;

    closed spec fn view(&self) -> Session {
        Session { started: self.started, ended: self.ended, start_time: self.start_time }
    }
}

impl AppState {
    /// Every value of the type is a well-formed session.
    #[verifier::type_invariant]
    pub open spec fn inv(self) -> bool {
        self@.wf()
    }

    /// The idle state, in which every run begins.
    pub fn new() -> (r: Self)
        ensures
            r@ == Session::idle(),
            r@.wf(),
    {
        AppState { start_time: None, started: false, ended: false }
    }

    /// Whether a session has been started.
    pub fn started(&self) -> (r: bool)
        ensures
            r == self@.started,
            self@.wf(),
    {
        proof {
            use_type_invariant(self);
        }
        self.started
    }

    /// Whether the countdown has reached zero.
    pub fn ended(&self) -> (r: bool)
        ensures
            r == self@.ended,
            self@.wf(),
    {
        proof {
            use_type_invariant(self);
        }
        self.ended
    }

    /// The instant at which the running session began.
    pub fn start_time(&self) -> (r: Option<LocalDateTime>)
        ensures
            r == self@.start_time,
            self@.wf(),
    {
        proof {
            use_type_invariant(self);
        }
        self.start_time
    }

    /// Which of the three states the session is in.
    pub fn phase(&self) -> (r: Phase)
        ensures
            r == self@.phase(),
            self@.wf(),
    {
        proof {
            use_type_invariant(self);
        }
        if !self.started {
            Phase::Idle
        } else if self.ended {
            Phase::Finished
        } else {
            Phase::Running
        }
    }

    /// The button was pressed at `now`.
    pub fn press_button(&mut self, now: LocalDateTime)
        ensures
            final(self)@ == old(self)@.press(now),
            final(self)@.wf(),
    {
        proof {
            use_type_invariant(&*self);
            use_type_invariant(now);
        }
        if self.started && !self.ended {
            *self = AppState { start_time: None, started: false, ended: false };
        } else {
            *self = AppState { start_time: Some(now), started: true, ended: false };
        }
    }

    /// The periodic expiry check, made at `now`. Returns whether the session
    /// was found over and has been finished.
    pub fn check_expiry(&mut self, now: LocalDateTime) -> (fired: bool)
        ensures
            fired == old(self)@.expired(now),
            final(self)@ == old(self)@.tick(now),
            final(self)@.wf(),
    {
        proof {
            use_type_invariant(&*self);
            use_type_invariant(now);
        }
        if self.started && !self.ended {
            if let Some(start) = self.start_time {
                proof {
                    use_type_invariant(start);
                }
                if start.timestamp_millis + SESSION_DURATION_MILLIS < now.timestamp_millis {
                    *self = AppState { start_time: None, started: true, ended: true };
                    return true;
                }
            }
        }
        false
    }

    /// The button's label in the current state.
    pub fn button_label(&self) -> (r: &'static str)
        ensures
            r@ == label_text(self@.phase()),
    {
        if !self.started {
            "Start"
        } else if self.ended {
            "Restart"
        } else {
            "Stop"
        }
    }
}

/// The button's label in each state.
pub open spec fn label_text(phase: Phase) -> Seq<char> {
    match phase {
        Phase::Idle => "Start"@,
        Phase::Running => "Stop"@,
        Phase::Finished => "Restart"@,
    }
}

/// What the toolkit tells a widget: the window appeared, a timer fired, an
/// animation frame is due, or anything else.
#[derive(Clone, Copy, Debug, PartialEq, Eq, Structural)]
pub enum WidgetEvent {
    WindowConnected,
    Timer,
    AnimFrame,
    Other,
}

/// A well-formed session is in exactly one of three flag combinations, and
/// never has `ended` without `started`.
pub proof fn lemma_three_states(s: Session)
    requires
        s.wf(),
    ensures
        !(!s.started && s.ended),
        s.phase() == Phase::Idle <==> s == Session::idle(),
        s.phase() == Phase::Finished <==> s == Session::finished(),
        s.phase() == Phase::Running <==> s.start_time is Some && s == Session::running_since(
            s.start_time->0,
        ),
{
}

/// Pressing the button and checking for expiry both keep a session
/// well-formed.
pub proof fn lemma_transitions_keep_wf(s: Session, now: LocalDateTime)
    requires
        s.wf(),
        now.wf(),
    ensures
        s.press(now).wf(),
        s.tick(now).wf(),
{
}

/// Pressing the button while idle always starts a session at the instant of
/// the press.
pub proof fn lemma_press_from_idle(s: Session, now: LocalDateTime)
    requires
        s.phase() == Phase::Idle,
    ensures
        s.press(now).started,
        !s.press(now).ended,
        s.press(now).start_time == Some(now),
        s.press(now).phase() == Phase::Running,
{
}

/// Pressing the button while a session runs stops it and forgets its start.
pub proof fn lemma_press_from_running(s: Session, now: LocalDateTime)
    requires
        s.phase() == Phase::Running,
    ensures
        s.press(now) == Session::idle(),
{
}

/// An expiry check on a running session changes nothing up to and at the
/// deadline, and finishes the session once the deadline has passed.
pub proof fn lemma_expiry_check(s: Session, now: LocalDateTime)
    requires
        s.wf(),
        s.phase() == Phase::Running,
    ensures
        now.instant() <= s.deadline() ==> s.tick(now) == s,
        now.instant() > s.deadline() ==> {
            &&& s.tick(now).started
            &&& s.tick(now).ended
            &&& s.tick(now).start_time is None
        },
{
}

/// No expiry check fires while idle or finished.
pub proof fn lemma_no_expiry_unless_running(s: Session, now: LocalDateTime)
    requires
        s.phase() != Phase::Running,
    ensures
        s.tick(now) == s,
{
}

/// Pressing the button on a finished session gives what pressing it on an
/// idle one gives: a restart is a fresh start.
pub proof fn lemma_restart_is_fresh_start(finished: Session, idle: Session, now: LocalDateTime)
    requires
        finished.phase() == Phase::Finished,
        idle.phase() == Phase::Idle,
    ensures
        finished.press(now) == idle.press(now),
        finished.press(now) == Session::running_since(now),
{
}

} // verus!
