//! One run of a command: the state of each action, cancellation, and the
//! exit code that the outcomes add up to.

use vstd::prelude::*;

use crate::error::ActionError;

verus! {

/// Why an action was skipped.
#[derive(Debug, Clone, Copy, PartialEq, Eq, Structural)]
pub enum SkipReason {
    /// The location needed no work.
    UpToDate,
    /// The run was interrupted before the action started.
    Cancelled,
}

/// How one action ended.
#[derive(Debug, Clone, PartialEq, Eq)]
pub enum Outcome {
    Succeeded,
    Failed(ActionError),
    Skipped(SkipReason),
}

/// Where one action of a run stands.
#[derive(Debug, Clone, PartialEq, Eq)]
pub enum TaskState {
    Planned,
    Running,
    Done(Outcome),
}

/// The actions of one run, one per declared plugin, and whether the run was
/// interrupted. Each action goes Planned, then Running, then Done; one that
/// has not started when the run is interrupted goes from Planned to
/// Done(Skipped(Cancelled)) and never runs.
pub struct Run {
    tasks: Vec<TaskState>,
    cancelled: bool,
}

/// A run as the sequence of its task states and its interruption flag.
pub struct RunSpec {
    pub tasks: Seq<TaskState>,
    pub cancelled: bool,
}

impl View for Run {
    type V = RunSpec;

    closed spec fn view(&self) -> RunSpec {
        RunSpec { tasks: self.tasks@, cancelled: self.cancelled }
    }
}

/// Every task of `tasks` is done.
pub open spec fn all_done(tasks: Seq<TaskState>) -> bool {
    forall|i: int| 0 <= i < tasks.len() ==> (#[trigger] tasks[i]) is Done
}

/// Some task of `tasks` failed.
pub open spec fn any_failed(tasks: Seq<TaskState>) -> bool {
    exists|i: int| 0 <= i < tasks.len() && is_failure(#[trigger] tasks[i])
}

/// A task that ended in failure.
pub open spec fn is_failure(t: TaskState) -> bool {
    match t {
        TaskState::Done(Outcome::Failed(_)) => true,
        _ => false,
    }
}

/// The exit code of a finished run: 130 when interrupted, 1 when an action
/// failed, 0 otherwise.
pub open spec fn run_exit_code(r: RunSpec) -> i32 {
    if r.cancelled {
        130
    } else if any_failed(r.tasks) {
        1
    } else {
        0
    }
}

impl Run {
    /// A run of `n` planned actions.
    pub fn new(n: usize) -> (r: Run)
        ensures
            r@.tasks.len() == n,
            forall|i: int| 0 <= i < n ==> (#[trigger] r@.tasks[i]) == TaskState::Planned,
            !r@.cancelled,
    {
        let mut tasks: Vec<TaskState> = Vec::new();
        let mut i: usize = 0;
        while i < n
            invariant
                i <= n,
                tasks@.len() == i,
                forall|k: int| 0 <= k < i ==> (#[trigger] tasks@[k]) == TaskState::Planned,
            decreases n - i,
        {
            tasks.push(TaskState::Planned);
            i = i + 1;
        }
        Run { tasks, cancelled: false }
    }

    /// The number of actions.
    pub fn len(&self) -> (r: usize)
        ensures
            r == self@.tasks.len(),
    {
        self.tasks.len()
    }

    /// Where action `i` stands.
    pub fn task(&self, i: usize) -> (r: &TaskState)
        requires
            i < self@.tasks.len(),
        ensures
            *r == self@.tasks[i as int],
    {
        &self.tasks[i]
    }

    /// Whether the run was interrupted.
    pub fn is_cancelled(&self) -> (r: bool)
        ensures
            r == self@.cancelled,
    {
        self.cancelled
    }

    /// Asks to start action `i`. It starts, and `true` comes back, only when
    /// it is planned and the run is not interrupted; a planned action of an
    /// interrupted run is skipped instead.
    pub fn begin(&mut self, i: usize) -> (r: bool)
        requires
            i < old(self)@.tasks.len(),
        ensures
            r == (old(self)@.tasks[i as int] == TaskState::Planned && !old(self)@.cancelled),
            final(self)@.cancelled == old(self)@.cancelled,
            final(self)@.tasks == (if r {
                old(self)@.tasks.update(i as int, TaskState::Running)
            } else if old(self)@.tasks[i as int] == TaskState::Planned {
                old(self)@.tasks.update(i as int, TaskState::Done(Outcome::Skipped(SkipReason::Cancelled)))
            } else {
                old(self)@.tasks
            }),
    {
        match self.tasks[i] {
            TaskState::Planned => {
                if self.cancelled {
                    self.tasks[i] = TaskState::Done(Outcome::Skipped(SkipReason::Cancelled));
                    false
                } else {
                    self.tasks[i] = TaskState::Running;
                    true
                }
            },
            _ => false,
        }
    }

    /// Records how the running action `i` ended.
    pub fn finish(&mut self, i: usize, outcome: Outcome)
        requires
            i < old(self)@.tasks.len(),
            old(self)@.tasks[i as int] == TaskState::Running,
        ensures
            final(self)@.cancelled == old(self)@.cancelled,
            final(self)@.tasks == old(self)@.tasks.update(i as int, TaskState::Done(outcome)),
    {
        self.tasks[i] = TaskState::Done(outcome);
    }

    /// Interrupts the run: every action that has not started is skipped as
    /// cancelled; running actions are left to finish.
    pub fn cancel(&mut self)
        ensures
            final(self)@.cancelled,
            final(self)@.tasks.len() == old(self)@.tasks.len(),
            forall|i: int| 0 <= i < old(self)@.tasks.len() ==> #[trigger] final(self)@.tasks[i] == (
            if old(self)@.tasks[i] == TaskState::Planned {
                TaskState::Done(Outcome::Skipped(SkipReason::Cancelled))
            } else {
                old(self)@.tasks[i]
            }),
    {
        self.cancelled = true;
        let n = self.tasks.len();
        let mut i: usize = 0;
        while i < n
            invariant
                n == self.tasks@.len(),
                n == old(self).tasks@.len(),
                self.cancelled,
                i <= n,
                forall|k: int| 0 <= k < i ==> #[trigger] self.tasks@[k] == (
                if old(self).tasks@[k] == TaskState::Planned {
                    TaskState::Done(Outcome::Skipped(SkipReason::Cancelled))
                } else {
                    old(self).tasks@[k]
                }),
                forall|k: int| i <= k < n ==> #[trigger] self.tasks@[k] == old(self).tasks@[k],
            decreases n - i,
        {
            match self.tasks[i] {
                TaskState::Planned => {
                    self.tasks[i] = TaskState::Done(Outcome::Skipped(SkipReason::Cancelled));
                },
                _ => {},
            }
            i = i + 1;
        }
    }

    /// Whether every action is done.
    pub fn is_finished(&self) -> (r: bool)
        ensures
            r == all_done(self@.tasks),
    {
        let n = self.tasks.len();
        let mut i: usize = 0;
        while i < n
            invariant
                n == self@.tasks.len(),
                i <= n,
                forall|k: int| 0 <= k < i ==> (#[trigger] self@.tasks[k]) is Done,
            decreases n - i,
        {
            match self.tasks[i] {
                TaskState::Done(_) => {},
                _ => {
                    return false;
                },
            }
            i = i + 1;
        }
        true
    }

    /// The exit code of the run: 130 when interrupted, 1 when an action
    /// failed, 0 otherwise.
    pub fn exit_code(&self) -> (r: i32)
        ensures
            r == run_exit_code(self@),
    {
        if self.cancelled {
            return 130;
        }
        let n = self.tasks.len();
        let mut i: usize = 0;
        while i < n
            invariant
                n == self@.tasks.len(),
                !self@.cancelled,
                i <= n,
                forall|k: int| 0 <= k < i ==> !is_failure(#[trigger] self@.tasks[k]),
            decreases n - i,
        {
            match &self.tasks[i] {
                TaskState::Done(Outcome::Failed(_)) => {
                    assert(is_failure(self@.tasks[i as int]));

                    return 1;
                },
                _ => {},
            }
            i = i + 1;
        }
        0
    }
}

} // verus!
