//! The cycle scheduler: one cycle per elapsed timer period, and periods that
//! elapse while a cycle is still running are dropped, not made up for.

use vstd::prelude::*;

verus! {

/// Number of status indicators in the ring.
pub const LED_COUNT: usize = 8;

/// What the scheduler tells the loop to do.
#[derive(Clone, Copy, Debug, PartialEq, Eq, Structural)]
pub enum CycleStep {
    /// A period has elapsed: run one cycle now.
    Run,
    /// No period has elapsed since the last cycle started: wait for a tick.
    Wait,
}

/// What the scheduler knows of the tick source: how many periods have elapsed
/// since a cycle was last started. The count stops at the greatest `u32`.
#[derive(Clone, Copy, Debug, PartialEq, Eq, Structural)]
pub struct CycleTimer {
    pub elapsed: u32,
}

/// The timer after one more period has elapsed.
pub open spec fn ticked(timer: CycleTimer) -> CycleTimer {
    CycleTimer {
        elapsed: if timer.elapsed < u32::MAX {
            (timer.elapsed + 1) as u32
        } else {
            u32::MAX
        },
    }
}

/// The timer after `ticks` more periods have elapsed.
pub open spec fn ticked_times(timer: CycleTimer, ticks: nat) -> CycleTimer
    decreases ticks,
{
    if ticks == 0 {
        timer
    } else {
        ticked(ticked_times(timer, (ticks - 1) as nat))
    }
}

/// What the scheduler decides and what it leaves of the timer: with at least
/// one period elapsed a cycle runs and every elapsed period is used up with
/// it.
pub open spec fn adjusted(timer: CycleTimer) -> (CycleStep, CycleTimer) {
    if timer.elapsed > 0 {
        (CycleStep::Run, CycleTimer { elapsed: 0 })
    } else {
        (CycleStep::Wait, timer)
    }
}

/// However many periods have elapsed before the scheduler is asked, once
/// they are at least one, it lets exactly one cycle run: asked again with no
/// tick in between, it says to wait.
pub proof fn lemma_missed_ticks_are_dropped(timer: CycleTimer, ticks: nat)
    requires
        ticks >= 1,
    ensures
        adjusted(ticked_times(timer, ticks)).0 == CycleStep::Run,
        adjusted(adjusted(ticked_times(timer, ticks)).1).0 == CycleStep::Wait,
{
}

impl CycleTimer {
    /// A timer on which no period has elapsed yet.
    pub fn new() -> (timer: Self)
        ensures
            timer.elapsed == 0,
    {
        CycleTimer { elapsed: 0 }
    }

    /// Records that one more period has elapsed.
    pub fn tick(&mut self)
        ensures
            *final(self) == ticked(*old(self)),
    {
        if self.elapsed < u32::MAX {
            self.elapsed = self.elapsed + 1;
        }
    }
}

/// Holds the loop to the timer's cadence. Where a period has elapsed the
/// answer is to run a cycle, and the timer is cleared, so that periods missed
/// during a long cycle start no cycles of their own. Otherwise the answer is
/// to wait, and the timer is left as it is.
pub fn adjust_cycle(timer: &mut CycleTimer) -> (step: CycleStep)
    ensures
        (step, *final(timer)) == adjusted(*old(timer)),
{
    if timer.elapsed > 0 {
        timer.elapsed = 0;
        CycleStep::Run
    } else {
        CycleStep::Wait
    }
}

/// The indicator to light after `index`: the next one round the ring.
pub fn next_led(index: usize) -> (next: usize)
    ensures
        next == (index + 1) % (LED_COUNT as int),
{
    (index % LED_COUNT + 1) % LED_COUNT
}

} // verus!
