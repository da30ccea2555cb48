//! The status of a task and the moves between statuses.

use vstd::prelude::*;

verus! {

/// The status of the task - used for scheduling
#[derive(Copy, Clone, Debug, Eq, PartialEq, Structural)]
pub enum TaskStatus {
    /// Not set up yet.
    TaskInvalid,
    /// Waits for the processor.
    TaskReady,
    /// Has the processor.
    TaskRunning,
    /// Waits for an event.
    TaskBlocked,
    /// Has run to its end.
    TaskFinished,
    /// The status of the idle task, from its start on and for good.
    TaskIdle,
}

impl TaskStatus {
    /// Whether a task in this status may move to `next`. A task is made
    /// ready, runs, and from running goes back to ready, blocks or finishes;
    /// a blocked task becomes ready again. Nothing follows on finished, and
    /// the idle status is neither entered nor left by a move.
    pub open spec fn allows(self, next: TaskStatus) -> bool {
        match (self, next) {
            (TaskStatus::TaskInvalid, TaskStatus::TaskReady) => true,
            (TaskStatus::TaskReady, TaskStatus::TaskRunning) => true,
            (TaskStatus::TaskRunning, TaskStatus::TaskReady) => true,
            (TaskStatus::TaskRunning, TaskStatus::TaskBlocked) => true,
            (TaskStatus::TaskRunning, TaskStatus::TaskFinished) => true,
            (TaskStatus::TaskBlocked, TaskStatus::TaskReady) => true,
            _ => false,
        }
    }

    /// Whether a task in this status may move to `next`.
    pub fn can_become(self, next: TaskStatus) -> (ok: bool)
        ensures
            ok == self.allows(next),
    {
        match (self, next) {
            (TaskStatus::TaskInvalid, TaskStatus::TaskReady) => true,
            (TaskStatus::TaskReady, TaskStatus::TaskRunning) => true,
            (TaskStatus::TaskRunning, TaskStatus::TaskReady) => true,
            (TaskStatus::TaskRunning, TaskStatus::TaskBlocked) => true,
            (TaskStatus::TaskRunning, TaskStatus::TaskFinished) => true,
            (TaskStatus::TaskBlocked, TaskStatus::TaskReady) => true,
            _ => false,
        }
    }

    /// Finished is final and idle is steady: no move leaves either, and no
    /// move enters idle or goes back to invalid.
    pub proof fn lemma_steady_statuses(from: TaskStatus, to: TaskStatus)
        requires
            from.allows(to),
        ensures
            from != TaskStatus::TaskFinished,
            from != TaskStatus::TaskIdle,
            to != TaskStatus::TaskIdle,
            to != TaskStatus::TaskInvalid,
            from != to,
    {
    }
}

} // verus!
