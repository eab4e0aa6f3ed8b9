//! A Pomodoro interval clock: a countdown that alternates between a working
//! interval and a break interval, can be paused, and signals a chime each time
//! an interval runs out.

pub mod clock;
pub mod display;
pub mod laws;

pub use clock::{phase_duration, ClockState, Phase, BREAK_DURATION, WORK_DURATION};
pub use display::format_clock;
