use pomodoro_timer::state::{SESSION_DURATION_MILLIS, TIMESTAMP_LIMIT_MILLIS};
use pomodoro_timer::{AppState, LocalDateTime, Phase};

fn at(timestamp_millis: i64) -> LocalDateTime {
    let seconds = timestamp_millis.div_euclid(1000);
    let second = seconds.rem_euclid(60) as u32;
    let minute = seconds.div_euclid(60).rem_euclid(60) as u32;
    let hour = seconds.div_euclid(3600).rem_euclid(24) as u32;
    LocalDateTime::new(timestamp_millis, hour, minute, second).unwrap()
}

const T0: i64 = 1_700_000_000_000;

#[test]
fn session_lasts_twenty_five_minutes() {
    assert_eq!(SESSION_DURATION_MILLIS, 25 * 60 * 1000);
}

#[test]
fn new_state_is_idle() {
    let state = AppState::new();
    assert!(!state.started());
    assert!(!state.ended());
    assert!(state.start_time().is_none());
    assert_eq!(state.phase(), Phase::Idle);
    assert_eq!(state.button_label(), "Start");
}

#[test]
fn press_from_idle_starts_at_the_press() {
    let mut state = AppState::new();
    state.press_button(at(T0));
    assert!(state.started());
    assert!(!state.ended());
    let start = state.start_time().unwrap();
    assert_eq!(start.timestamp_millis(), T0);
    assert!(start.same(&at(T0)));
    assert_eq!(state.phase(), Phase::Running);
    assert_eq!(state.button_label(), "Stop");
}

#[test]
fn press_while_running_stops_and_forgets_the_start() {
    let mut state = AppState::new();
    state.press_button(at(T0));
    state.press_button(at(T0 + 5_000));
    assert!(!state.started());
    assert!(!state.ended());
    assert!(state.start_time().is_none());
    assert_eq!(state.phase(), Phase::Idle);
    assert_eq!(state.button_label(), "Start");
}

#[test]
fn expiry_check_before_the_deadline_changes_nothing() {
    let mut state = AppState::new();
    state.press_button(at(T0));
    let fired = state.check_expiry(at(T0 + SESSION_DURATION_MILLIS - 1));
    assert!(!fired);
    assert_eq!(state.phase(), Phase::Running);
    assert_eq!(state.start_time().unwrap().timestamp_millis(), T0);
}

#[test]
fn expiry_check_at_the_deadline_changes_nothing() {
    let mut state = AppState::new();
    state.press_button(at(T0));
    let fired = state.check_expiry(at(T0 + SESSION_DURATION_MILLIS));
    assert!(!fired);
    assert_eq!(state.phase(), Phase::Running);
}

#[test]
fn expiry_check_after_the_deadline_finishes() {
    let mut state = AppState::new();
    state.press_button(at(T0));
    let fired = state.check_expiry(at(T0 + SESSION_DURATION_MILLIS + 1));
    assert!(fired);
    assert!(state.started());
    assert!(state.ended());
    assert!(state.start_time().is_none());
    assert_eq!(state.phase(), Phase::Finished);
    assert_eq!(state.button_label(), "Restart");
}

#[test]
fn no_expiry_while_idle_or_finished() {
    let mut state = AppState::new();
    assert!(!state.check_expiry(at(T0 + 10 * SESSION_DURATION_MILLIS)));
    assert_eq!(state.phase(), Phase::Idle);
    state.press_button(at(T0));
    assert!(state.check_expiry(at(T0 + 2 * SESSION_DURATION_MILLIS)));
    assert!(!state.check_expiry(at(T0 + 3 * SESSION_DURATION_MILLIS)));
    assert_eq!(state.phase(), Phase::Finished);
}

#[test]
fn restart_equals_fresh_start() {
    let mut finished = AppState::new();
    finished.press_button(at(T0));
    finished.check_expiry(at(T0 + SESSION_DURATION_MILLIS + 1_000));
    assert_eq!(finished.phase(), Phase::Finished);
    let mut idle = AppState::new();
    let again = at(T0 + SESSION_DURATION_MILLIS + 60_000);
    finished.press_button(again);
    idle.press_button(again);
    assert_eq!(finished.started(), idle.started());
    assert_eq!(finished.ended(), idle.ended());
    assert_eq!(
        finished.start_time().unwrap().timestamp_millis(),
        idle.start_time().unwrap().timestamp_millis()
    );
    assert_eq!(finished.phase(), Phase::Running);
    assert_eq!(finished.start_time().unwrap().timestamp_millis(), again.timestamp_millis());
}

#[test]
fn stop_then_start_runs_a_new_session() {
    let mut state = AppState::new();
    state.press_button(at(T0));
    state.press_button(at(T0 + 1_000));
    state.press_button(at(T0 + 2_000));
    assert_eq!(state.phase(), Phase::Running);
    assert_eq!(state.start_time().unwrap().timestamp_millis(), T0 + 2_000);
    assert!(!state.check_expiry(at(T0 + SESSION_DURATION_MILLIS + 1_500)));
    assert!(state.check_expiry(at(T0 + SESSION_DURATION_MILLIS + 2_001)));
}

#[test]
fn instant_keeps_its_readings() {
    let t = LocalDateTime::new(-1_500, 23, 59, 58).unwrap();
    assert_eq!(t.timestamp_millis(), -1_500);
    assert_eq!(t.hour(), 23);
    assert_eq!(t.minute(), 59);
    assert_eq!(t.second(), 58);
}

#[test]
fn instant_rejects_what_is_out_of_range() {
    assert!(LocalDateTime::new(0, 24, 0, 0).is_none());
    assert!(LocalDateTime::new(0, 0, 60, 0).is_none());
    assert!(LocalDateTime::new(0, 0, 0, 60).is_none());
    assert!(LocalDateTime::new(TIMESTAMP_LIMIT_MILLIS + 1, 0, 0, 0).is_none());
    assert!(LocalDateTime::new(-TIMESTAMP_LIMIT_MILLIS - 1, 0, 0, 0).is_none());
    assert!(LocalDateTime::new(i64::MIN, 0, 0, 0).is_none());
    assert!(LocalDateTime::new(TIMESTAMP_LIMIT_MILLIS, 23, 59, 59).is_some());
    assert!(LocalDateTime::new(-TIMESTAMP_LIMIT_MILLIS, 0, 0, 0).is_some());
}

#[test]
fn same_compares_the_instant_only() {
    let a = LocalDateTime::new(T0, 10, 0, 0).unwrap();
    let b = LocalDateTime::new(T0, 11, 0, 0).unwrap();
    let c = LocalDateTime::new(T0 + 1, 10, 0, 0).unwrap();
    assert!(a.same(&b));
    assert!(!a.same(&c));
}

#[test]
fn farthest_instants_do_not_overflow() {
    let first = LocalDateTime::new(-TIMESTAMP_LIMIT_MILLIS, 0, 0, 0).unwrap();
    let last = LocalDateTime::new(TIMESTAMP_LIMIT_MILLIS, 0, 0, 0).unwrap();
    let mut state = AppState::new();
    state.press_button(last);
    assert!(!state.check_expiry(first));
    let mut state = AppState::new();
    state.press_button(first);
    assert!(state.check_expiry(last));
}
