//! The tick loop's decisions: progress percentage and the
//! running/done state machine.
//!
//! The loop itself lives in the driving binary, because it reads a
//! wall clock and sleeps; each iteration it hands the elapsed seconds
//! to [`tick`], which decides whether the run is over and, if not,
//! what percentage to render.

use vstd::arithmetic::div_mod::{lemma_div_is_ordered, lemma_multiply_divide_lt};
use vstd::prelude::*;

verus! {

/// The two states of a run: the timer is still counting, or the
/// configured duration has elapsed.
#[derive(Clone, Copy, Debug, PartialEq, Eq, Structural)]
pub enum TimerState {
    Running,
    Done,
}

/// The state a run is in once `elapsed` seconds have passed out of
/// `duration`: `Done` exactly when `elapsed >= duration`.
pub open spec fn spec_state(elapsed: u64, duration: u64) -> TimerState {
    if elapsed >= duration {
        TimerState::Done
    } else {
        TimerState::Running
    }
}

/// The completion percentage after `elapsed` of `duration` seconds:
/// `floor(elapsed / duration * 100)`, clamped to at most 100.
/// A zero duration counts as already complete.
pub open spec fn spec_progress(elapsed: u64, duration: u64) -> int {
    if elapsed >= duration {
        100
    } else {
        elapsed * 100 / (duration as int)
    }
}

/// What one tick decides: the state the run is now in, and the
/// percentage to render, present exactly while the run still counts.
pub struct TickOutcome {
    pub state: TimerState,
    pub render: Option<u16>,
}

/// Computes the completion percentage for one tick, clamped to
/// [0, 100] however far the clock has drifted past the duration.
pub fn progress_percent(elapsed: u64, duration: u64) -> (p: u16)
    ensures
        p == spec_progress(elapsed, duration),
        p <= 100,
{
    if elapsed >= duration {
        100
    } else {
        let wide: u128 = (elapsed as u128) * 100 / (duration as u128);
        proof {
            lemma_multiply_divide_lt(elapsed * 100, duration as int, 100);
        }
        wide as u16
    }
}

/// Decides one tick of the loop: done exactly when `elapsed >=
/// duration`, and a frame is rendered exactly while still running.
pub fn tick(elapsed: u64, duration: u64) -> (t: TickOutcome)
    ensures
        t.state == spec_state(elapsed, duration),
        t.state is Done <==> elapsed >= duration,
        t.render is Some <==> elapsed < duration,
        t.render is Some ==> t.render->0 == spec_progress(elapsed, duration),
        t.render is Some ==> t.render->0 <= 100,
{
    if elapsed >= duration {
        TickOutcome { state: TimerState::Done, render: None }
    } else {
        TickOutcome { state: TimerState::Running, render: Some(progress_percent(elapsed, duration)) }
    }
}

/// The progress percentage never decreases as time passes within one
/// run, and always stays within [0, 100], whatever the drift.
pub proof fn lemma_progress_monotonic(e1: u64, e2: u64, duration: u64)
    requires
        e1 <= e2,
    ensures
        spec_progress(e1, duration) <= spec_progress(e2, duration),
        0 <= spec_progress(e1, duration) <= 100,
{
    if e1 >= duration {
        // both sides are 100
    } else {
        lemma_multiply_divide_lt(e1 * 100, duration as int, 100);
        if e2 < duration {
            lemma_div_is_ordered(e1 * 100, e2 * 100, duration as int);
        }
    }
}

/// Once a run is done, every later tick finds it done as well: the
/// state machine has no way back from `Done`.
pub proof fn lemma_done_is_final(e1: u64, e2: u64, duration: u64)
    requires
        e1 <= e2,
        spec_state(e1, duration) is Done,
    ensures
        spec_state(e2, duration) is Done,
{
}

} // verus!
