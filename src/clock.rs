//! The interval clock: its phases, its state and the transitions between them.

use vstd::prelude::*;

verus! {

/// Length of a working interval, in seconds (25 minutes).
pub const WORK_DURATION: u32 = 1500;

/// Length of a break interval, in seconds (5 minutes).
pub const BREAK_DURATION: u32 = 300;

/// The mode the countdown is in. `Paused` suspends whichever of the two
/// intervals was running when the pause was requested.
#[derive(Clone, Copy, Debug, PartialEq, Eq, Structural)]
pub enum Phase {
    Working,
    Break,
    Paused,
}

/// The length of an interval of the given phase. Only a break is short; any
/// other phase counts as a working interval.
pub open spec fn duration_of(phase: Phase) -> nat {
    match phase {
        Phase::Break => BREAK_DURATION as nat,
        _ => WORK_DURATION as nat,
    }
}

/// The interval that follows the given one when its countdown runs out.
pub open spec fn following(phase: Phase) -> Phase {
    match phase {
        Phase::Working => Phase::Break,
        _ => Phase::Working,
    }
}

/// Length, in seconds, of an interval of the given phase.
pub fn phase_duration(phase: Phase) -> (r: u32)
    ensures
        r == duration_of(phase),
{
    if phase == Phase::Break {
        return BREAK_DURATION;
    }
    WORK_DURATION
}

/// The countdown's state.
///
/// `resume_phase` is the interval to return to when a pause ends; while the
/// clock runs it keeps the phase that was active before the latest pause (or
/// the initial one if the clock was never paused).
#[derive(Clone, Copy, Debug, PartialEq, Eq, Structural)]
pub struct ClockState {
    pub remaining_seconds: u32,
    pub current_phase: Phase,
    pub resume_phase: Phase,
}

impl ClockState {
    /// The interval the countdown belongs to: the current one, or while
    /// paused the one that resumes.
    pub open spec fn active_phase(self) -> Phase {
        if self.current_phase == Phase::Paused {
            self.resume_phase
        } else {
            self.current_phase
        }
    }

    /// The clock's invariant: the phase to resume is an interval, and the
    /// remaining time fits in the active interval.
    pub open spec fn wf(self) -> bool {
        &&& self.resume_phase != Phase::Paused
        &&& self.remaining_seconds <= duration_of(self.active_phase())
    }

    /// Whether a tick from this state runs the countdown out, which is when
    /// the chime sounds.
    pub open spec fn expires_on_tick(self) -> bool {
        self.current_phase != Phase::Paused && self.remaining_seconds <= 1
    }

    /// The state after one tick. A paused clock stays as it is. A running one
    /// counts down by a second; when that reaches zero (a clock already at
    /// zero stays there) it switches to the following interval, at its full
    /// length.
    pub open spec fn ticked(self) -> ClockState {
        if self.current_phase == Phase::Paused {
            self
        } else if self.expires_on_tick() {
            ClockState {
                remaining_seconds: duration_of(following(self.current_phase)) as u32,
                current_phase: following(self.current_phase),
                resume_phase: self.resume_phase,
            }
        } else {
            ClockState {
                remaining_seconds: (self.remaining_seconds - 1) as u32,
                current_phase: self.current_phase,
                resume_phase: self.resume_phase,
            }
        }
    }

    /// The state after the start/pause button: a paused clock resumes its
    /// interval, a running one is paused and remembers its interval. The
    /// remaining time is kept either way.
    pub open spec fn toggled(self) -> ClockState {
        if self.current_phase == Phase::Paused {
            ClockState {
                remaining_seconds: self.remaining_seconds,
                current_phase: self.resume_phase,
                resume_phase: self.resume_phase,
            }
        } else {
            ClockState {
                remaining_seconds: self.remaining_seconds,
                current_phase: Phase::Paused,
                resume_phase: self.current_phase,
            }
        }
    }

    /// The state at start-up: paused, ready for a full working interval.
    pub open spec fn initial() -> ClockState {
        ClockState {
            remaining_seconds: WORK_DURATION,
            current_phase: Phase::Paused,
            resume_phase: Phase::Working,
        }
    }

    /// A clock at start-up: paused, with a full working interval ahead.
    pub fn new() -> (r: ClockState)
        ensures
            r == ClockState::initial(),
            r.wf(),
    {
        ClockState {
            remaining_seconds: WORK_DURATION,
            current_phase: Phase::Paused,
            resume_phase: Phase::Working,
        }
    }

    /// Whether the state meets the clock's invariant, for states built from
    /// their fields.
    pub fn is_valid(&self) -> (r: bool)
        ensures
            r == self.wf(),
    {
        let phase = if self.current_phase == Phase::Paused {
            self.resume_phase
        } else {
            self.current_phase
        };
        self.resume_phase != Phase::Paused && self.remaining_seconds <= phase_duration(phase)
    }

    /// Switches to the given phase with its full interval ahead.
    fn change_phase(&mut self, phase: Phase)
        ensures
            final(self).current_phase == phase,
            final(self).remaining_seconds == duration_of(phase),
            final(self).resume_phase == old(self).resume_phase,
    {
        self.current_phase = phase;
        self.remaining_seconds = phase_duration(phase);
    }

    /// Advances the clock by one second. Returns whether the countdown ran
    /// out on this tick, in which case the caller plays the chime; the clock
    /// has then moved on to the following interval.
    pub fn tick(&mut self) -> (chime: bool)
        requires
            old(self).wf(),
        ensures
            *final(self) == old(self).ticked(),
            chime == old(self).expires_on_tick(),
            final(self).wf(),
    {
        if self.current_phase == Phase::Paused {
            return false;
        }
        if self.remaining_seconds > 0 {
            self.remaining_seconds = self.remaining_seconds - 1;
        }
        if self.remaining_seconds == 0 {
            if self.current_phase == Phase::Working {
                self.change_phase(Phase::Break);
            } else {
                self.change_phase(Phase::Working);
            }
            return true;
        }
        false
    }

    /// Progress through the active interval as a fraction: the seconds
    /// elapsed over the interval's length. The length is never zero, and the
    /// elapsed time never exceeds it.
    pub fn progress_ratio(&self) -> (r: (u32, u32))
        requires
            self.wf(),
        ensures
            r.1 == duration_of(self.active_phase()),
            r.0 == r.1 - self.remaining_seconds,
            0 < r.1,
            r.0 <= r.1,
    {
        let phase = if self.current_phase == Phase::Paused {
            self.resume_phase
        } else {
            self.current_phase
        };
        let duration = phase_duration(phase);
        (duration - self.remaining_seconds, duration)
    }

    /// The start/pause button: resumes a paused clock, pauses a running one.
    pub fn toggle_pause(&mut self)
        requires
            old(self).wf(),
        ensures
            *final(self) == old(self).toggled(),
            final(self).wf(),
    {
        if self.current_phase == Phase::Paused {
            self.current_phase = self.resume_phase;
        } else {
            self.resume_phase = self.current_phase;
            self.current_phase = Phase::Paused;
        }
    }
}

} // verus!
