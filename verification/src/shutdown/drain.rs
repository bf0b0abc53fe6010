//! The second phase of shutdown: each registered task in turn gets the grace
//! period to end, and is ended by force if it does not.

use crate::log::{say_all, LogLevel, LogLine};
use crate::shutdown::manager::{
    entry_views, CancelToken, TaskEntry, TaskStatus, TaskView, GRACE_PERIOD_SECS,
};
use vstd::prelude::*;
use vstd::string::StringExecFns;

verus! {

/// What made shutdown begin.
#[derive(Debug, Clone, Copy, PartialEq, Eq, Structural, Hash)]
pub enum Trigger {
    /// The cancellation signal had fired.
    Cancelled,
    /// The operator interrupted the process before the signal fired.
    Interrupted,
}

/// How waiting for one task ended.
#[derive(Debug, Clone, Copy, PartialEq, Eq, Structural, Hash)]
pub enum WaitOutcome {
    /// The task ended within the grace period.
    Finished,
    /// The grace period passed and the task had not ended.
    TimedOut,
}

/// The mathematical value of a shutdown in progress.
pub struct DrainView {
    /// Whether the cancellation signal has fired. In a shutdown it has.
    pub cancelled: bool,
    /// What made shutdown begin.
    pub trigger: Trigger,
    /// The tasks that are still to be waited for, next one first.
    pub pending: Seq<TaskView>,
    /// The tasks that are done with, each in its final state.
    pub reports: Seq<TaskView>,
}

impl DrainView {
    /// What a handle observes during this shutdown: the signal.
    pub open spec fn answers(self, handle: CancelToken) -> bool {
        self.cancelled
    }

    /// The state in which a task ends that was in state `status` when
    /// waiting for it ended with `outcome`. A task that had returned keeps
    /// the state in which it returned.
    pub open spec fn final_status(status: TaskStatus, outcome: WaitOutcome) -> TaskStatus {
        match (status, outcome) {
            (TaskStatus::Running, WaitOutcome::Finished) => TaskStatus::CancelledGracefully,
            (TaskStatus::Running, WaitOutcome::TimedOut) => TaskStatus::ForciblyAborted,
            (ended, _) => ended,
        }
    }

    /// Waiting for the next task has ended with `outcome`: the task moves
    /// from `pending` to `reports`, in its final state. With nothing pending
    /// nothing changes.
    pub open spec fn settle(self, outcome: WaitOutcome) -> DrainView {
        if self.pending.len() == 0 {
            self
        } else {
            DrainView {
                pending: self.pending.skip(1),
                reports: self.reports.push(
                    TaskView {
                        status: Self::final_status(self.pending[0].status, outcome),
                        ..self.pending[0]
                    },
                ),
                ..self
            }
        }
    }

    /// One wait after another, with these outcomes.
    pub open spec fn run(self, outcomes: Seq<WaitOutcome>) -> DrainView
        decreases outcomes.len(),
    {
        if outcomes.len() == 0 {
            self
        } else {
            self.settle(outcomes[0]).run(outcomes.skip(1))
        }
    }

    /// The lines that settling the task `name` leaves in the log: that it
    /// did not end in time and is ended by force, or that it has ended.
    pub open spec fn notes(name: Seq<char>, abort: bool) -> Seq<(LogLevel, Seq<char>)> {
        if abort {
            seq![
                (LogLevel::Debug, "Task "@ + name + " failed to complete in time: Elapsed(())"@),
                (LogLevel::Debug, "Forcefully aborting task "@ + name + "."@),
            ]
        } else {
            seq![(LogLevel::Trace, "Task "@ + name + " completed successfully."@)]
        }
    }

    /// The longest that the rest of shutdown can take, in seconds: the grace
    /// period once for every pending task that is still running. A task
    /// that has returned is not waited for.
    pub open spec fn longest_wait(self) -> nat {
        running(self.pending) * (GRACE_PERIOD_SECS as nat)
    }
}

/// How many of the tasks are running.
pub open spec fn running(tasks: Seq<TaskView>) -> nat
    decreases tasks.len(),
{
    if tasks.len() == 0 {
        0
    } else if tasks[0].status == TaskStatus::Running {
        1 + running(tasks.skip(1))
    } else {
        running(tasks.skip(1))
    }
}

/// What settling one task brought.
#[derive(Debug, Clone, PartialEq, Eq)]
pub struct Settled {
    /// The task in its final state.
    pub report: TaskEntry,
    /// Whether the caller must now end the task by force.
    pub abort: bool,
    /// The lines for the log on how the task ended: one where it ended by
    /// itself, two where it ran out of time and is ended by force.
    pub notes: Vec<LogLine>,
}

/// A shutdown in progress.
#[derive(Debug)]
pub struct Drain {
    cancelled: bool,
    trigger: Trigger,
    tasks: Vec<TaskEntry>,
    next: usize,
    reports: Vec<TaskEntry>,
}

impl View for Drain {
    type V = DrainView;

    closed spec fn view(&self) -> DrainView {
        DrainView {
            cancelled: self.cancelled,
            trigger: self.trigger,
            pending: entry_views(self.tasks@).skip(self.next as int),
            reports: entry_views(self.reports@),
        }
    }
}

impl Drain {
    #[verifier::type_invariant]
    spec fn sound(self) -> bool {
        self.cancelled && self.next <= self.tasks@.len()
    }

    /// The shutdown that `trigger` began, with these tasks to wait for.
    pub(crate) fn begin(trigger: Trigger, tasks: Vec<TaskEntry>) -> (r: Self)
        ensures
            r@ == (DrainView {
                cancelled: true,
                trigger,
                pending: entry_views(tasks@),
                reports: Seq::<TaskView>::empty(),
            }),
    {
        let r = Drain { cancelled: true, trigger, tasks, next: 0, reports: Vec::new() };
        assert(entry_views(r.tasks@).skip(0) =~= entry_views(r.tasks@));
        assert(entry_views(r.reports@) =~= Seq::<TaskView>::empty());
        r
    }

    /// What made shutdown begin.
    pub fn trigger(&self) -> (r: Trigger)
        ensures
            r == self@.trigger,
    {
        self.trigger
    }

    /// Whether the signal has fired, as the handle observes it now. During
    /// shutdown it has, whatever began the shutdown: a task that asks in its
    /// grace period is told to stop.
    pub fn is_cancelled(&self, handle: &CancelToken) -> (r: bool)
        ensures
            r == self@.answers(*handle),
            r,
    {
        proof {
            use_type_invariant(self);
        }
        self.cancelled
    }

    /// Whether every task is done with, so that shutdown can return.
    pub fn is_done(&self) -> (r: bool)
        ensures
            r == (self@.pending.len() == 0),
    {
        proof {
            use_type_invariant(self);
        }
        self.next == self.tasks.len()
    }

    /// The task that the caller waits for next, for at most the grace
    /// period; nothing where every task is done with.
    pub fn next_task(&self) -> (r: Option<TaskEntry>)
        ensures
            match r {
                Some(task) => self@.pending.len() > 0 && task@ == self@.pending[0],
                None => self@.pending.len() == 0,
            },
    {
        proof {
            use_type_invariant(self);
        }
        if self.next < self.tasks.len() {
            Some(self.tasks[self.next].duplicate())
        } else {
            None
        }
    }

    /// Takes note of how waiting for the next task ended, and says what
    /// became of the task and whether it must now be ended by force: it must
    /// where it was running and did not end in time, and only there. With
    /// nothing pending nothing happens.
    pub fn settle(&mut self, outcome: WaitOutcome) -> (r: Option<Settled>)
        ensures
            final(self)@ == old(self)@.settle(outcome),
            match r {
                None => old(self)@.pending.len() == 0,
                Some(settled) => {
                    &&& old(self)@.pending.len() > 0
                    &&& settled.report@ == final(self)@.reports.last()
                    &&& settled.abort == (settled.report.status == TaskStatus::ForciblyAborted)
                    &&& say_all(
                        settled.notes@,
                        DrainView::notes(settled.report.name@, settled.abort),
                    )
                },
            },
    {
        proof {
            use_type_invariant(&*self);
        }
        if self.next >= self.tasks.len() {
            return None;
        }
        let ghost before = self@;
        let task = &self.tasks[self.next];
        let status = match (task.status, outcome) {
            (TaskStatus::Running, WaitOutcome::Finished) => TaskStatus::CancelledGracefully,
            (TaskStatus::Running, WaitOutcome::TimedOut) => TaskStatus::ForciblyAborted,
            (ended, _) => ended,
        };
        let abort = match status {
            TaskStatus::ForciblyAborted => true,
            _ => false,
        };
        let report = TaskEntry { name: task.name.clone(), id: task.id, status };
        let mut notes: Vec<LogLine> = Vec::new();
        if abort {
            notes.push(
                LogLine::new(
                    LogLevel::Debug,
                    String::from_str("Task ").concat(report.name.as_str()).concat(
                        " failed to complete in time: Elapsed(())",
                    ),
                ),
            );
            notes.push(
                LogLine::new(
                    LogLevel::Debug,
                    String::from_str("Forcefully aborting task ").concat(
                        report.name.as_str(),
                    ).concat("."),
                ),
            );
        } else {
            notes.push(
                LogLine::new(
                    LogLevel::Trace,
                    String::from_str("Task ").concat(report.name.as_str()).concat(
                        " completed successfully.",
                    ),
                ),
            );
        }
        let ghost earlier = self.reports@;
        let mut reports: Vec<TaskEntry> = Vec::new();
        std::mem::swap(&mut self.reports, &mut reports);
        reports.push(report.duplicate());
        self.reports = reports;
        self.next = self.next + 1;
        proof {
            assert(entry_views(self.reports@) =~= entry_views(earlier).push(report@));
            assert(entry_views(self.tasks@).skip(self.next as int) =~= before.pending.skip(1));
            assert(before.pending[0] == task@);
        }
        Some(Settled { report, abort, notes })
    }

    /// The tasks that are done with, each in its final state, in the order
    /// in which they were waited for.
    pub fn reports(self) -> (r: Vec<TaskEntry>)
        ensures
            entry_views(r@) == self@.reports,
    {
        self.reports
    }
}

/// A task that ends within the grace period is never reported as ended by
/// force: one that was running is reported as gracefully cancelled, and one
/// that had returned keeps the state in which it returned.
pub proof fn law_graceful_exit_is_never_an_abort(status: TaskStatus)
    requires
        status != TaskStatus::ForciblyAborted,
    ensures
        DrainView::final_status(status, WaitOutcome::Finished) != TaskStatus::ForciblyAborted,
        status == TaskStatus::Running ==> DrainView::final_status(status, WaitOutcome::Finished)
            == TaskStatus::CancelledGracefully,
        status != TaskStatus::Running ==> DrainView::final_status(status, WaitOutcome::Finished)
            == status,
{
}

/// A task that does not end within the grace period is ended by force, and
/// shutdown ends all the same: after one wait for each pending task,
/// whatever the outcomes, nothing is pending and every task has its report.
/// Settling a running task shortens the longest time that is left by the
/// grace period, and settling a task that has returned takes no time.
pub proof fn law_shutdown_ends(drain: DrainView, outcomes: Seq<WaitOutcome>)
    requires
        outcomes.len() == drain.pending.len(),
    ensures
        DrainView::final_status(TaskStatus::Running, WaitOutcome::TimedOut)
            == TaskStatus::ForciblyAborted,
        drain.run(outcomes).pending.len() == 0,
        drain.run(outcomes).longest_wait() == 0,
        drain.run(outcomes).reports.len() == drain.reports.len() + drain.pending.len(),
        forall|i: int|
            #![trigger drain.pending[i]]
            0 <= i < drain.pending.len() ==> {
                let report = drain.run(outcomes).reports[drain.reports.len() + i];
                &&& report.name == drain.pending[i].name
                &&& report.id == drain.pending[i].id
                &&& report.status == DrainView::final_status(drain.pending[i].status, outcomes[i])
            },
        drain.pending.len() > 0 ==> drain.longest_wait() == drain.settle(outcomes[0]).longest_wait()
            + if drain.pending[0].status == TaskStatus::Running {
            GRACE_PERIOD_SECS as nat
        } else {
            0
        },
    decreases outcomes.len(),
{
    if outcomes.len() > 0 {
        let step = drain.settle(outcomes[0]);
        let rest = outcomes.skip(1);
        law_shutdown_ends(step, rest);
        assert forall|i: int|
            #![trigger drain.pending[i]]
            0 <= i < drain.pending.len() implies {
            let report = drain.run(outcomes).reports[drain.reports.len() + i];
            &&& report.name == drain.pending[i].name
            &&& report.id == drain.pending[i].id
            &&& report.status == DrainView::final_status(drain.pending[i].status, outcomes[i])
        } by {
            if i > 0 {
                assert(step.pending[i - 1] == drain.pending[i]);
                assert(rest[i - 1] == outcomes[i]);
            } else {
                lemma_run_keeps_reports(step, rest, drain.reports.len() as int);
            }
        }
    }
}

/// Where every pending task has returned, shutdown takes no time: nothing is
/// waited for, and every task is reported in the state in which it returned.
pub proof fn law_returned_tasks_need_no_wait(drain: DrainView, outcome: WaitOutcome)
    requires
        forall|i: int|
            0 <= i < drain.pending.len() ==> (#[trigger] drain.pending[i]).status
                != TaskStatus::Running,
    ensures
        drain.longest_wait() == 0,
        drain.pending.len() > 0 ==> drain.settle(outcome).reports.last() == drain.pending[0],
    decreases drain.pending.len(),
{
    if drain.pending.len() > 0 {
        let rest = DrainView { pending: drain.pending.skip(1), ..drain };
        assert forall|i: int| 0 <= i < rest.pending.len() implies (#[trigger] rest.pending[i]).status
            != TaskStatus::Running by {
            assert(rest.pending[i] == drain.pending[i + 1]);
        }
        law_returned_tasks_need_no_wait(rest, outcome);
    }
}

/// Waiting never changes a report that has been made.
pub proof fn lemma_run_keeps_reports(drain: DrainView, outcomes: Seq<WaitOutcome>, i: int)
    requires
        0 <= i < drain.reports.len(),
    ensures
        drain.run(outcomes).reports.len() >= drain.reports.len(),
        drain.run(outcomes).reports[i] == drain.reports[i],
    decreases outcomes.len(),
{
    if outcomes.len() > 0 {
        lemma_run_keeps_reports(drain.settle(outcomes[0]), outcomes.skip(1), i);
    }
}

} // verus!
