//! Laws of the clock over runs of ticks and button presses.

use vstd::prelude::*;

use crate::clock::{duration_of, following, ClockState, Phase, BREAK_DURATION, WORK_DURATION};

verus! {

/// The state after `n` ticks.
pub open spec fn after_ticks(s: ClockState, n: nat) -> ClockState
    decreases n,
{
    if n == 0 {
        s
    } else {
        after_ticks(s.ticked(), (n - 1) as nat)
    }
}

/// The number of chimes signalled over `n` ticks.
pub open spec fn chimes_over(s: ClockState, n: nat) -> nat
    decreases n,
{
    if n == 0 {
        0
    } else {
        (if s.expires_on_tick() { 1nat } else { 0nat }) + chimes_over(s.ticked(), (n - 1) as nat)
    }
}

/// The state after `n` presses of the start/pause button.
pub open spec fn after_toggles(s: ClockState, n: nat) -> ClockState
    decreases n,
{
    if n == 0 {
        s
    } else {
        after_toggles(s.toggled(), (n - 1) as nat)
    }
}

/// A tick and a button press keep the clock's invariant.
pub proof fn lemma_step_wf(s: ClockState)
    requires
        s.wf(),
    ensures
        s.ticked().wf(),
        s.toggled().wf(),
{
}

/// Over any run of ticks the invariant holds, so the remaining time stays
/// between zero and the longer of the two interval lengths.
pub proof fn lemma_ticks_wf(s: ClockState, n: nat)
    requires
        s.wf(),
    ensures
        after_ticks(s, n).wf(),
        0 <= after_ticks(s, n).remaining_seconds <= WORK_DURATION,
        BREAK_DURATION <= WORK_DURATION,
    decreases n,
{
    if n > 0 {
        lemma_ticks_wf(s.ticked(), (n - 1) as nat);
    }
}

/// While a running interval has time left, each tick takes exactly one
/// second off and nothing else changes: after `k` ticks, with `k` below the
/// remaining time, the countdown stands at `k` seconds less, in the same
/// phase, and no chime has sounded.
pub proof fn lemma_countdown(s: ClockState, k: nat)
    requires
        s.wf(),
        s.current_phase != Phase::Paused,
        k < s.remaining_seconds,
    ensures
        after_ticks(s, k).remaining_seconds == s.remaining_seconds - k,
        after_ticks(s, k).current_phase == s.current_phase,
        after_ticks(s, k).resume_phase == s.resume_phase,
        chimes_over(s, k) == 0,
    decreases k,
{
    if k > 0 {
        lemma_countdown(s.ticked(), (k - 1) as nat);
    }
}

/// The remaining time never goes up while an interval runs: of two points
/// before it runs out, the later one has no more time left.
pub proof fn lemma_countdown_monotone(s: ClockState, j: nat, k: nat)
    requires
        s.wf(),
        s.current_phase != Phase::Paused,
        j <= k,
        k < s.remaining_seconds,
    ensures
        after_ticks(s, k).remaining_seconds <= after_ticks(s, j).remaining_seconds,
{
    lemma_countdown(s, j);
    lemma_countdown(s, k);
}

/// When a running interval's time is used up, the tick that brings it to
/// zero switches to the following interval at its full length, with one
/// chime over the whole interval.
pub proof fn lemma_interval_completes(s: ClockState)
    requires
        s.wf(),
        s.current_phase != Phase::Paused,
        s.remaining_seconds >= 1,
    ensures
        after_ticks(s, s.remaining_seconds as nat).current_phase == following(s.current_phase),
        after_ticks(s, s.remaining_seconds as nat).remaining_seconds == duration_of(
            following(s.current_phase),
        ),
        after_ticks(s, s.remaining_seconds as nat).resume_phase == s.resume_phase,
        chimes_over(s, s.remaining_seconds as nat) == 1,
{
    let n = s.remaining_seconds as nat;
    let k = (n - 1) as nat;
    lemma_countdown(s, k);
    lemma_ticks_split(s, k);
    lemma_chimes_split(s, k);
    let last = after_ticks(s, k);
    assert(last.expires_on_tick());
    assert(chimes_over(last, 1) == 1 + chimes_over(last.ticked(), 0));
    assert(after_ticks(last, 1) == after_ticks(last.ticked(), 0));
}

/// Ticking `k + 1` times is ticking `k` times and then once more.
proof fn lemma_ticks_split(s: ClockState, k: nat)
    ensures
        after_ticks(s, k + 1) == after_ticks(after_ticks(s, k), 1),
    decreases k,
{
    if k > 0 {
        lemma_ticks_split(s.ticked(), (k - 1) as nat);
    }
}

/// The chimes of `k + 1` ticks are those of the first `k` and of the last.
proof fn lemma_chimes_split(s: ClockState, k: nat)
    ensures
        chimes_over(s, k + 1) == chimes_over(s, k) + chimes_over(after_ticks(s, k), 1),
    decreases k,
{
    if k > 0 {
        lemma_chimes_split(s.ticked(), (k - 1) as nat);
    }
}

/// A paused clock ignores ticks: any number of them leaves the state as it
/// is, and none sounds the chime.
pub proof fn lemma_paused_ticks(s: ClockState, n: nat)
    requires
        s.current_phase == Phase::Paused,
    ensures
        after_ticks(s, n) == s,
        chimes_over(s, n) == 0,
    decreases n,
{
    if n > 0 {
        lemma_paused_ticks(s.ticked(), (n - 1) as nat);
    }
}

/// Two presses of the start/pause button return to the phase and the
/// remaining time that the clock had; from a paused clock they return to the
/// very same state.
pub proof fn lemma_toggle_twice(s: ClockState)
    requires
        s.wf(),
    ensures
        s.toggled().toggled().current_phase == s.current_phase,
        s.toggled().toggled().remaining_seconds == s.remaining_seconds,
        s.toggled().toggled().active_phase() == s.active_phase(),
        s.current_phase == Phase::Paused ==> s.toggled().toggled() == s,
{
}

/// Any run of presses of the start/pause button amounts to at most one
/// change: an odd number acts as one press, an even number gives back the
/// phase and the remaining time the clock had.
pub proof fn lemma_toggles_collapse(s: ClockState, n: nat)
    requires
        s.wf(),
    ensures
        n % 2 == 1 ==> after_toggles(s, n) == s.toggled(),
        n % 2 == 0 ==> after_toggles(s, n).current_phase == s.current_phase,
        n % 2 == 0 ==> after_toggles(s, n).remaining_seconds == s.remaining_seconds,
        n % 2 == 0 && s.current_phase == Phase::Paused ==> after_toggles(s, n) == s,
    decreases n,
{
    if n >= 2 {
        lemma_toggles_collapse(s.toggled().toggled(), (n - 2) as nat);
        assert(after_toggles(s, n) == after_toggles(s.toggled().toggled(), (n - 2) as nat)) by {
            assert(after_toggles(s, n) == after_toggles(s.toggled(), (n - 1) as nat));
        }
        let t = s.toggled().toggled();
        assert(t.toggled() == s.toggled());
    } else if n == 1 {
        assert(after_toggles(s, 1) == after_toggles(s.toggled(), 0));
    }
}

} // verus!
