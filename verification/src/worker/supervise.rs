//! Decisions of the loop that supervises a Worker process: when to beat
//! the attempt's heartbeat, when the budget is spent, and what is recorded
//! once the child has ended. The loop itself (spawning, polling the child,
//! sleeping, killing its process group) runs outside the library and asks
//! these functions at each turn.
use vstd::prelude::*;

use crate::control::error::AppError;
use crate::control::ports::ProcessEvent;
use crate::worker::stub::ChildWait;

verus! {

/// Time between two heartbeats of a running attempt.
pub const HEARTBEAT_INTERVAL_MS: u64 = 1000;

/// Time the loop sleeps when the child is still running.
pub const POLL_INTERVAL_MS: u64 = 5;

/// `a + b`, or `u64::MAX` when the sum does not fit.
pub open spec fn saturating_sum(a: u64, b: u64) -> u64 {
    if a + b > u64::MAX {
        u64::MAX
    } else {
        (a + b) as u64
    }
}

/// The loop's clock: when the budget ends and when the next heartbeat is
/// due, both in milliseconds of the same monotonic clock.
#[derive(Clone, Copy, Debug, PartialEq, Eq, Structural)]
pub struct WaitClock {
    pub deadline_ms: u64,
    pub next_heartbeat_ms: u64,
}

impl WaitClock {
    /// The clock of a child started at `start_ms` with a budget of
    /// `budget_ms`: the first heartbeat is due one interval after the start.
    pub fn start(start_ms: u64, budget_ms: u64) -> (r: WaitClock)
        ensures
            r.deadline_ms == saturating_sum(start_ms, budget_ms),
            r.next_heartbeat_ms == saturating_sum(start_ms, HEARTBEAT_INTERVAL_MS),
    {
        WaitClock {
            deadline_ms: start_ms.saturating_add(budget_ms),
            next_heartbeat_ms: start_ms.saturating_add(HEARTBEAT_INTERVAL_MS),
        }
    }

    /// Whether a heartbeat is due at `now_ms`.
    pub fn heartbeat_due(&self, now_ms: u64) -> (r: bool)
        ensures
            r == (now_ms >= self.next_heartbeat_ms),
    {
        now_ms >= self.next_heartbeat_ms
    }

    /// The clock after a heartbeat beaten at `now_ms`: the next one is due
    /// one interval later; the deadline does not move.
    pub fn after_heartbeat(&self, now_ms: u64) -> (r: WaitClock)
        ensures
            r.deadline_ms == self.deadline_ms,
            r.next_heartbeat_ms == saturating_sum(now_ms, HEARTBEAT_INTERVAL_MS),
    {
        WaitClock {
            deadline_ms: self.deadline_ms,
            next_heartbeat_ms: now_ms.saturating_add(HEARTBEAT_INTERVAL_MS),
        }
    }
}

/// What a poll of the child showed.
#[derive(Clone, Copy, Debug, PartialEq, Eq, Structural)]
pub enum ChildState {
    Running,
    Exited { success: bool },
}

/// What the loop does after a poll.
#[derive(Clone, Copy, Debug, PartialEq, Eq, Structural)]
pub enum WaitVerdict {
    /// The child ended: stop waiting with this result.
    Done(ChildWait),
    /// The budget is spent: kill the process group, reap the child, and
    /// stop waiting with `BudgetExceeded`.
    KillOverBudget,
    /// Sleep for the poll interval and poll again.
    Sleep,
}

/// The verdict of one poll at `now_ms`. A child that has exited is done,
/// even past the deadline; a running one past the deadline is killed.
pub fn wait_verdict(clock: &WaitClock, now_ms: u64, child: ChildState) -> (r: WaitVerdict)
    ensures
        child matches ChildState::Exited { success } ==> r == WaitVerdict::Done(
            ChildWait::Exited { success },
        ),
        child is Running && now_ms >= clock.deadline_ms ==> r == WaitVerdict::KillOverBudget,
        child is Running && now_ms < clock.deadline_ms ==> r == WaitVerdict::Sleep,
{
    match child {
        ChildState::Exited { success } => WaitVerdict::Done(ChildWait::Exited { success }),
        ChildState::Running => {
            if now_ms >= clock.deadline_ms {
                WaitVerdict::KillOverBudget
            } else {
                WaitVerdict::Sleep
            }
        },
    }
}

/// The process event recorded once the wait has ended: `killed` for a
/// spent budget, `exited` for an exit, and none when the wait failed or
/// was ended by a control request.
pub fn closing_event(wait: &Result<ChildWait, AppError>) -> (r: Option<ProcessEvent>)
    ensures
        wait matches Ok(ChildWait::BudgetExceeded) ==> r == Some(ProcessEvent::Killed),
        wait matches Ok(ChildWait::Exited { .. }) ==> r == Some(ProcessEvent::Exited),
        !(wait matches Ok(ChildWait::BudgetExceeded)) && !(wait matches Ok(ChildWait::Exited { .. }))
            ==> r is None,
{
    match wait {
        Ok(ChildWait::BudgetExceeded) => Some(ProcessEvent::Killed),
        Ok(ChildWait::Exited { .. }) => Some(ProcessEvent::Exited),
        _ => None,
    }
}

/// Whether the whole process group is killed after the wait: a Worker is
/// its process group, so a child that exited may leave descendants that
/// still write; a failed wait kills too. A spent budget was already killed
/// inside the loop.
pub fn kills_group_after_wait(wait: &Result<ChildWait, AppError>) -> (r: bool)
    ensures
        r == !(wait matches Ok(ChildWait::BudgetExceeded)),
{
    !matches!(wait, Ok(ChildWait::BudgetExceeded))
}

} // verus!
