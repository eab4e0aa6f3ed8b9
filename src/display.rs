//! Text shown for the clock: the remaining time as `MM:SS` and the phase's
//! name.

use vstd::prelude::*;

use crate::clock::{ClockState, Phase};

verus! {

/// The decimal digit for a value below ten.
pub open spec fn digit_char(d: nat) -> char {
    if d == 0 {
        '0'
    } else if d == 1 {
        '1'
    } else if d == 2 {
        '2'
    } else if d == 3 {
        '3'
    } else if d == 4 {
        '4'
    } else if d == 5 {
        '5'
    } else if d == 6 {
        '6'
    } else if d == 7 {
        '7'
    } else if d == 8 {
        '8'
    } else {
        '9'
    }
}

/// A value below one hundred as two decimal digits, zero-padded.
pub open spec fn two_digits(n: nat) -> Seq<char> {
    seq![digit_char(n / 10), digit_char(n % 10)]
}

/// A number of seconds as minutes and seconds, `MM:SS`.
pub open spec fn clock_text(seconds: nat) -> Seq<char> {
    two_digits(seconds / 60) + seq![':'] + two_digits(seconds % 60)
}

/// The name shown for a phase.
pub open spec fn label_of(phase: Phase) -> Seq<char> {
    match phase {
        Phase::Working => "Working"@,
        Phase::Break => "Break"@,
        Phase::Paused => "Paused"@,
    }
}

/// The one-character text of a decimal digit.
fn digit_text(d: u32) -> (r: &'static str)
    requires
        d < 10,
    ensures
        r@ == seq![digit_char(d as nat)],
{
    proof {
        reveal_strlit("0");
        reveal_strlit("1");
        reveal_strlit("2");
        reveal_strlit("3");
        reveal_strlit("4");
        reveal_strlit("5");
        reveal_strlit("6");
        reveal_strlit("7");
        reveal_strlit("8");
        reveal_strlit("9");
    }
    match d {
        0 => "0",
        1 => "1",
        2 => "2",
        3 => "3",
        4 => "4",
        5 => "5",
        6 => "6",
        7 => "7",
        8 => "8",
        _ => "9",
    }
}

/// Appends a value below one hundred as two digits.
fn push_two_digits(out: &mut String, n: u32)
    requires
        n < 100,
    ensures
        final(out)@ == old(out)@ + two_digits(n as nat),
{
    out.append(digit_text(n / 10));
    out.append(digit_text(n % 10));
    assert(final(out)@ =~= old(out)@ + two_digits(n as nat));
}

/// Formats a number of seconds as `MM:SS`, for up to 99 minutes.
pub fn format_clock(seconds: u32) -> (r: String)
    requires
        seconds < 6000,
    ensures
        r@ == clock_text(seconds as nat),
{
    let mut out = String::new();
    push_two_digits(&mut out, seconds / 60);
    proof {
        reveal_strlit(":");
    }
    out.append(":");
    push_two_digits(&mut out, seconds % 60);
    assert(out@ =~= clock_text(seconds as nat));
    out
}

impl ClockState {
    /// The remaining time as `MM:SS`.
    pub fn display_string(&self) -> (r: String)
        requires
            self.wf(),
        ensures
            r@ == clock_text(self.remaining_seconds as nat),
    {
        format_clock(self.remaining_seconds)
    }

    /// The name of the current phase: `Working`, `Break` or `Paused`.
    pub fn phase_label(&self) -> (r: String)
        ensures
            r@ == label_of(self.current_phase),
    {
        match self.current_phase {
            Phase::Working => String::from_str("Working"),
            Phase::Break => String::from_str("Break"),
            Phase::Paused => String::from_str("Paused"),
        }
    }
}

} // verus!
