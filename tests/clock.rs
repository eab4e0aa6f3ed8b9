use pomodoro::{format_clock, phase_duration, ClockState, Phase, BREAK_DURATION, WORK_DURATION};

fn running(phase: Phase, seconds: u32) -> ClockState {
    ClockState { remaining_seconds: seconds, current_phase: phase, resume_phase: phase }
}

fn fraction(c: &ClockState) -> f64 {
    let (elapsed, length) = c.progress_ratio();
    elapsed as f64 / length as f64
}

#[test]
fn durations_are_fixed() {
    assert_eq!(WORK_DURATION, 1500);
    assert_eq!(BREAK_DURATION, 300);
    assert_eq!(phase_duration(Phase::Working), 1500);
    assert_eq!(phase_duration(Phase::Break), 300);
    assert_eq!(phase_duration(Phase::Paused), 1500);
}

#[test]
fn new_clock_is_paused_before_work() {
    let c = ClockState::new();
    assert_eq!(c.current_phase, Phase::Paused);
    assert_eq!(c.resume_phase, Phase::Working);
    assert_eq!(c.remaining_seconds, WORK_DURATION);
    assert_eq!(c.display_string(), "25:00");
    assert_eq!(c.phase_label(), "Paused");
}

#[test]
fn tick_counts_down_one_second() {
    let mut c = running(Phase::Working, 1500);
    assert!(!c.tick());
    assert_eq!(c, running(Phase::Working, 1499));
}

#[test]
fn countdown_never_increases_until_transition() {
    let mut c = running(Phase::Break, 120);
    let mut last = c.remaining_seconds;
    for _ in 0..119 {
        assert!(!c.tick());
        assert!(c.remaining_seconds <= last);
        assert_eq!(c.remaining_seconds, last - 1);
        last = c.remaining_seconds;
    }
    assert_eq!(c.remaining_seconds, 1);
    assert!(c.tick());
    assert_eq!(c.current_phase, Phase::Working);
    assert_eq!(c.remaining_seconds, WORK_DURATION);
}

#[test]
fn remaining_stays_in_range_over_many_ticks() {
    let mut c = ClockState::new();
    c.toggle_pause();
    for i in 0..5000u32 {
        if i % 777 == 0 {
            c.toggle_pause();
        }
        c.tick();
        assert!(c.remaining_seconds <= WORK_DURATION);
        assert_ne!(c.resume_phase, Phase::Paused);
    }
}

#[test]
fn clock_at_zero_moves_on() {
    let mut c = running(Phase::Working, 0);
    assert!(c.tick());
    assert_eq!(c.current_phase, Phase::Break);
    assert_eq!(c.remaining_seconds, BREAK_DURATION);
}

#[test]
fn toggle_twice_restores_phase() {
    let start = ClockState {
        remaining_seconds: 200,
        current_phase: Phase::Break,
        resume_phase: Phase::Working,
    };
    let mut c = start;
    c.toggle_pause();
    assert_eq!(c.current_phase, Phase::Paused);
    assert_eq!(c.resume_phase, Phase::Break);
    c.toggle_pause();
    assert_eq!(c.current_phase, Phase::Break);
    assert_eq!(c.remaining_seconds, 200);
}

#[test]
fn toggles_collapse_to_parity() {
    let start = ClockState::new();
    let mut c = start;
    for _ in 0..7 {
        c.toggle_pause();
    }
    let mut once = start;
    once.toggle_pause();
    assert_eq!(c, once);
    c.toggle_pause();
    assert_eq!(c, start);
}

#[test]
fn paused_tick_changes_nothing() {
    let start = ClockState {
        remaining_seconds: 1,
        current_phase: Phase::Paused,
        resume_phase: Phase::Break,
    };
    let mut c = start;
    for _ in 0..10 {
        assert!(!c.tick());
        assert_eq!(c, start);
    }
}

#[test]
fn full_work_interval_chimes_once() {
    let mut c = running(Phase::Working, 1500);
    let mut chimes: u32 = 0;
    for _ in 0..1500 {
        if c.tick() {
            chimes += 1;
        }
    }
    assert_eq!(c.current_phase, Phase::Break);
    assert_eq!(c.remaining_seconds, 300);
    assert_eq!(chimes, 1);
}

#[test]
fn pause_holds_the_countdown() {
    let mut c = running(Phase::Working, 10);
    c.toggle_pause();
    for _ in 0..5 {
        c.tick();
    }
    assert_eq!(c.remaining_seconds, 10);
    assert_eq!(c.current_phase, Phase::Paused);
    c.toggle_pause();
    assert_eq!(c.current_phase, Phase::Working);
    assert_eq!(c.remaining_seconds, 10);
}

#[test]
fn progress_at_start_and_end_of_work() {
    assert_eq!(fraction(&running(Phase::Working, 1500)), 0.0);
    assert_eq!(fraction(&running(Phase::Working, 0)), 1.0);
    assert_eq!(running(Phase::Working, 0).progress_ratio(), (1500, 1500));
}

#[test]
fn progress_while_paused_uses_resumed_interval() {
    let c = ClockState {
        remaining_seconds: 150,
        current_phase: Phase::Paused,
        resume_phase: Phase::Break,
    };
    assert_eq!(c.progress_ratio(), (150, 300));
    assert_eq!(fraction(&c), 0.5);
}

#[test]
fn full_break_interval_chimes_once() {
    let mut c = running(Phase::Break, 300);
    let mut chimes: u32 = 0;
    for _ in 0..300 {
        if c.tick() {
            chimes += 1;
        }
    }
    assert_eq!(c.current_phase, Phase::Working);
    assert_eq!(c.remaining_seconds, 1500);
    assert_eq!(chimes, 1);
}

#[test]
fn display_pads_minutes_and_seconds() {
    assert_eq!(format_clock(0), "00:00");
    assert_eq!(format_clock(61), "01:01");
    assert_eq!(format_clock(599), "09:59");
    assert_eq!(format_clock(1500), "25:00");
    assert_eq!(format_clock(5999), "99:59");
    assert_eq!(running(Phase::Break, 125).display_string(), "02:05");
}

#[test]
fn labels_name_each_phase() {
    assert_eq!(running(Phase::Working, 5).phase_label(), "Working");
    assert_eq!(running(Phase::Break, 5).phase_label(), "Break");
    assert_eq!(ClockState::new().phase_label(), "Paused");
}

#[test]
fn validity_of_states() {
    assert!(ClockState::new().is_valid());
    assert!(running(Phase::Working, 0).is_valid());
    assert!(!running(Phase::Break, 301).is_valid());
    assert!(!running(Phase::Paused, 10).is_valid());
    let paused_break = ClockState {
        remaining_seconds: 1000,
        current_phase: Phase::Paused,
        resume_phase: Phase::Break,
    };
    assert!(!paused_break.is_valid());
}
