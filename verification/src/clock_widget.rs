//! The digital clock: the wall-clock time while a session runs, the time that
//! is left of it, and the expiry check that ends it.

use crate::state::{AppState, LocalDateTime, Session, WidgetEvent, SESSION_DURATION_MILLIS};
use crate::text::{push_char, push_decimal, push_str, push_two_digits, decimal, two_digits};
use vstd::prelude::*;

verus! {

/// Width and height that the clock asks for, in pixels.
pub const CLOCK_SIZE: (u32, u32) = (400, 400);

/// Time between two expiry checks, in milliseconds.
pub const EXPIRY_CHECK_INTERVAL_MILLIS: u64 = 1_000;

/// What the clock shows once the session is over.
pub open spec fn celebration() -> Seq<char> {
    "WOOHOOOOOOO"@
}

/// Quotient of `a` by a positive `b`, rounded toward zero.
pub open spec fn trunc_div(a: int, b: int) -> int
    recommends
        b > 0,
{
    if a >= 0 {
        a / b
    } else {
        -((-a) / b)
    }
}

/// Remainder of `a` by a positive `b` that goes with `trunc_div`: it has the
/// sign of `a`.
pub open spec fn trunc_rem(a: int, b: int) -> int
    recommends
        b > 0,
{
    a - b * trunc_div(a, b)
}

/// Whole seconds in a span of milliseconds, rounded toward zero.
pub open spec fn whole_seconds(millis: int) -> int {
    trunc_div(millis, 1000)
}

/// A span of time as the display shows it.
#[derive(Clone, Copy, Debug, PartialEq, Eq, Structural)]
pub struct TimeLeft {
    pub hours: i64,
    pub minutes: i64,
    pub seconds: i64,
}

/// The hours of a span of milliseconds: its whole hours, rounded toward zero.
pub open spec fn hours_of(millis: int) -> int {
    trunc_div(whole_seconds(millis), 3600)
}

/// The minutes of a span of milliseconds: its whole minutes, rounded toward
/// zero, modulo 60.
pub open spec fn minutes_of(millis: int) -> int {
    trunc_rem(trunc_div(whole_seconds(millis), 60), 60)
}

/// The seconds of a span of milliseconds: its whole seconds modulo 60.
pub open spec fn seconds_of(millis: int) -> int {
    trunc_rem(whole_seconds(millis), 60)
}

/// Milliseconds from `now` to the end of a session begun at `start`; negative
/// once the end has passed.
pub open spec fn time_left_millis(start: LocalDateTime, now: LocalDateTime) -> int {
    start.instant() + SESSION_DURATION_MILLIS - now.instant()
}

/// The wall-clock reading of `now` as `HH:MM:SS`.
pub open spec fn clock_text(now: LocalDateTime) -> Seq<char> {
    two_digits(now.wall_hour()) + seq![':'] + two_digits(now.wall_minute()) + seq![':']
        + two_digits(now.wall_second())
}

/// The countdown line for a span of milliseconds.
pub open spec fn time_left_text(millis: int) -> Seq<char> {
    "Time left: "@ + decimal(hours_of(millis)) + " hours, "@ + decimal(minutes_of(millis))
        + " minutes, "@ + decimal(seconds_of(millis)) + " seconds"@
}

/// The large line: nothing before a session, the wall clock while one runs,
/// the celebration once it is over.
pub open spec fn primary_text(s: Session, now: LocalDateTime) -> Option<Seq<char>> {
    if !s.started {
        None
    } else if s.ended {
        Some(celebration())
    } else {
        Some(clock_text(now))
    }
}

/// The small line: the time left of the running session, and nothing
/// otherwise.
pub open spec fn countdown_text(s: Session, now: LocalDateTime) -> Option<Seq<char>> {
    if s.started && !s.ended && s.start_time is Some {
        Some(time_left_text(time_left_millis(s.start_time->0, now)))
    } else {
        None
    }
}

/// `chrono::TimeDelta::num_seconds` on a span given in milliseconds: the whole
/// seconds in it, rounded toward zero. `chrono::TimeDelta::milliseconds`
/// accepts every `i64` but the smallest.
#[verifier::external_body]
fn delta_num_seconds(millis: i64) -> (r: i64)
    requires
        millis > i64::MIN,
    ensures
        r == trunc_div(millis as int, 1000),
{
    chrono::TimeDelta::milliseconds(millis).num_seconds()
}

/// `chrono::TimeDelta::num_minutes` on a span given in milliseconds: its whole
/// seconds divided by 60, rounded toward zero.
#[verifier::external_body]
fn delta_num_minutes(millis: i64) -> (r: i64)
    requires
        millis > i64::MIN,
    ensures
        r == trunc_div(trunc_div(millis as int, 1000), 60),
{
    chrono::TimeDelta::milliseconds(millis).num_minutes()
}

/// `chrono::TimeDelta::num_hours` on a span given in milliseconds: its whole
/// seconds divided by 3600, rounded toward zero.
#[verifier::external_body]
fn delta_num_hours(millis: i64) -> (r: i64)
    requires
        millis > i64::MIN,
    ensures
        r == trunc_div(trunc_div(millis as int, 1000), 3600),
{
    chrono::TimeDelta::milliseconds(millis).num_hours()
}

impl TimeLeft {
    /// Splits a span of milliseconds into hours, minutes and seconds. The
    /// span is first cut to whole seconds, toward zero; minutes and seconds
    /// are then taken modulo 60 and carry the sign of the span.
    pub fn from_millis(millis: i64) -> (r: TimeLeft)
        requires
            millis > i64::MIN,
        ensures
            r.hours == hours_of(millis as int),
            r.minutes == minutes_of(millis as int),
            r.seconds == seconds_of(millis as int),
    {
        let total_seconds: i64 = delta_num_seconds(millis);
        let total_minutes: i64 = delta_num_minutes(millis);
        let hours: i64 = delta_num_hours(millis);
        proof {
            lemma_trunc_div_twice(whole_seconds(millis as int));
        }
        TimeLeft {
            hours,
            minutes: total_minutes - 60 * hours,
            seconds: total_seconds - 60 * total_minutes,
        }
    }
}

/// Dividing by 60 twice, each time toward zero, is dividing by 3600.
pub proof fn lemma_trunc_div_twice(a: int)
    ensures
        trunc_div(trunc_div(a, 60), 60) == trunc_div(a, 3600),
{
}

/// However long or short a span is, its hours, minutes and seconds add up to
/// its whole seconds. Of a span that is not negative, minutes and seconds lie
/// from 0 to 59 and hours are not negative; of a negative one they lie from
/// -59 to 0.
pub proof fn lemma_decomposition(millis: int)
    ensures
        hours_of(millis) * 3600 + minutes_of(millis) * 60 + seconds_of(millis) == whole_seconds(
            millis,
        ),
        millis >= 0 ==> {
            &&& whole_seconds(millis) == millis / 1000
            &&& 0 <= hours_of(millis)
            &&& 0 <= minutes_of(millis) < 60
            &&& 0 <= seconds_of(millis) < 60
        },
        millis < 0 ==> {
            &&& hours_of(millis) <= 0
            &&& -60 < minutes_of(millis) <= 0
            &&& -60 < seconds_of(millis) <= 0
        },
{
    lemma_trunc_div_twice(whole_seconds(millis));
}

/// The time that has passed since `start`, at any `now` that is not before
/// it, splits into hours, minutes and seconds that add up to its whole
/// seconds, with minutes and seconds from 0 to 59.
pub proof fn lemma_elapsed_decomposition(start: LocalDateTime, now: LocalDateTime)
    requires
        now.instant() >= start.instant(),
    ensures
        ({
            let elapsed = now.instant() - start.instant();
            &&& hours_of(elapsed) * 3600 + minutes_of(elapsed) * 60 + seconds_of(elapsed)
                == elapsed / 1000
            &&& 0 <= minutes_of(elapsed) < 60
            &&& 0 <= seconds_of(elapsed) < 60
            &&& 0 <= hours_of(elapsed)
        }),
{
    lemma_decomposition(now.instant() - start.instant());
}

/// While a session runs and its end has not passed, the time left splits into
/// hours, minutes and seconds that add up to its whole seconds, with minutes
/// and seconds from 0 to 59.
pub proof fn lemma_time_left_decomposition(start: LocalDateTime, now: LocalDateTime)
    requires
        start.instant() <= now.instant() <= start.instant() + SESSION_DURATION_MILLIS,
    ensures
        ({
            let left = time_left_millis(start, now);
            &&& 0 <= left <= SESSION_DURATION_MILLIS
            &&& hours_of(left) * 3600 + minutes_of(left) * 60 + seconds_of(left) == left / 1000
            &&& 0 <= minutes_of(left) < 60
            &&& 0 <= seconds_of(left) < 60
            &&& hours_of(left) == 0
        }),
{
    lemma_decomposition(time_left_millis(start, now));
}

/// The clock and countdown display.
#[derive(Clone, Copy, Debug)]
pub struct DigitalClock {}

/// The two lines that the clock draws; `None` is a line left blank.
#[derive(Debug)]
pub struct ClockFace {
    pub primary: Option<String>,
    pub countdown: Option<String>,
}

impl DigitalClock {
    pub fn new() -> (r: Self)
        ensures
            r == (DigitalClock {  }),
    {
        DigitalClock {  }
    }

    /// The wall-clock reading of `now` as `HH:MM:SS`, zero-padded.
    pub fn get_current_time(&self, now: LocalDateTime) -> (r: String)
        ensures
            r@ == clock_text(now),
    {
        let mut s = String::new();
        push_two_digits(&mut s, now.hour());
        push_char(&mut s, ':');
        push_two_digits(&mut s, now.minute());
        push_char(&mut s, ':');
        push_two_digits(&mut s, now.second());
        assert(s@ =~= clock_text(now));
        s
    }

    /// Milliseconds from `now` to the end of a session begun at `start_time`.
    pub fn get_time_left(&self, start_time: LocalDateTime, now: LocalDateTime) -> (r: i64)
        ensures
            r == time_left_millis(start_time, now),
            r > i64::MIN,
    {
        start_time.timestamp_millis() + SESSION_DURATION_MILLIS - now.timestamp_millis()
    }

    /// The countdown line for a session begun at `start_time`.
    pub fn get_time_left_str(&self, start_time: LocalDateTime, now: LocalDateTime) -> (r: String)
        ensures
            r@ == time_left_text(time_left_millis(start_time, now)),
    {
        let left = TimeLeft::from_millis(self.get_time_left(start_time, now));
        let mut s = "Time left: ".to_owned();
        push_decimal(&mut s, left.hours);
        push_str(&mut s, " hours, ");
        push_decimal(&mut s, left.minutes);
        push_str(&mut s, " minutes, ");
        push_decimal(&mut s, left.seconds);
        push_str(&mut s, " seconds");
        s
    }

    /// Handles one event at `now`: a timer tick makes the expiry check. The
    /// result says whether the timer is to be armed again, which it is when
    /// the window appears and after every tick.
    pub fn event(&mut self, event: WidgetEvent, data: &mut AppState, now: LocalDateTime) -> (rearm:
        bool)
        ensures
            rearm == (event == WidgetEvent::WindowConnected || event == WidgetEvent::Timer),
            final(data)@ == if event == WidgetEvent::Timer {
                old(data)@.tick(now)
            } else {
                old(data)@
            },
            final(data)@.wf(),
    {
        proof {
            use_type_invariant(&*data);
        }
        match event {
            WidgetEvent::WindowConnected => true,
            WidgetEvent::Timer => {
                data.check_expiry(now);
                true
            },
            _ => false,
        }
    }

    /// The size that the clock asks for, whatever it shows.
    pub fn layout(&self) -> (r: (u32, u32))
        ensures
            r == CLOCK_SIZE,
    {
        CLOCK_SIZE
    }

    /// The two lines to draw for `data` at `now`.
    pub fn paint(&self, data: &AppState, now: LocalDateTime) -> (r: ClockFace)
        ensures
            match r.primary {
                Some(line) => primary_text(data@, now) == Some(line@),
                None => primary_text(data@, now) is None,
            },
            match r.countdown {
                Some(line) => countdown_text(data@, now) == Some(line@),
                None => countdown_text(data@, now) is None,
            },
    {
        let primary = if !data.started() {
            None
        } else if data.ended() {
            Some("WOOHOOOOOOO".to_owned())
        } else {
            Some(self.get_current_time(now))
        };
        let countdown = match data.start_time() {
            Some(start) => Some(self.get_time_left_str(start, now)),
            None => None,
        };
        ClockFace { primary, countdown }
    }
}

} // verus!
