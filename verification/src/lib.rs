//! A pomodoro timer: the session state machine, the countdown display and the
//! frame timing of a looping animation, as pure functions on plain values.

pub mod clock_widget;
pub mod gif_widget;
pub mod state;
pub mod text;

pub use state::{AppState, LocalDateTime, Phase, Session, WidgetEvent};
