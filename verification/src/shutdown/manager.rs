//! The task supervisor: one cancellation signal, a registry of running
//! tasks, and a shutdown in two phases, graceful first and forced after.
//!
//! The supervisor decides and its caller acts: the caller starts and joins
//! the tasks, fires and watches the real signal, and tells the supervisor
//! what has happened.

use crate::log::{LogLevel, LogLine};
use crate::shutdown::container::ShutdownContainer;
use crate::shutdown::drain::{Drain, DrainView, Trigger};
use vstd::prelude::*;
use vstd::string::StringExecFns;

verus! {

/// How long a task may take to end after shutdown has begun, in seconds.
pub const GRACE_PERIOD_SECS: u64 = 5;

/// Where a supervised task stands. All states but `Running` are final.
#[derive(Debug, Clone, Copy, PartialEq, Eq, Structural, Hash)]
pub enum TaskStatus {
    /// The task was started and has not ended.
    Running,
    /// The task returned success before the signal fired.
    Completed,
    /// The task returned failure, which fires the signal.
    Failed,
    /// The task ended after the signal fired, within the grace period.
    CancelledGracefully,
    /// The task outlived the grace period and was ended by force.
    ForciblyAborted,
}

/// One entry of the registry.
#[derive(Debug, Clone, PartialEq, Eq)]
pub struct TaskEntry {
    pub name: String,
    pub id: u64,
    pub status: TaskStatus,
}

/// The mathematical value of a registry entry.
pub struct TaskView {
    pub name: Seq<char>,
    pub id: u64,
    pub status: TaskStatus,
}

impl View for TaskEntry {
    type V = TaskView;

    open spec fn view(&self) -> TaskView {
        TaskView { name: self.name@, id: self.id, status: self.status }
    }
}

impl TaskEntry {
    /// A copy of the entry.
    pub fn duplicate(&self) -> (r: Self)
        ensures
            r == *self,
    {
        TaskEntry { name: self.name.clone(), id: self.id, status: self.status }
    }
}

/// The values of a sequence of entries.
pub open spec fn entry_views(entries: Seq<TaskEntry>) -> Seq<TaskView> {
    entries.map_values(|entry: TaskEntry| entry@)
}

/// A handle on the cancellation signal. It holds no answer of its own:
/// whoever owns the signal, the supervisor or the shutdown that took over
/// from it, answers for it, with the signal as it stands when it is asked.
/// Handles are cheap to copy and none of them owns the signal.
#[derive(Debug, Clone, Copy, PartialEq, Eq, Structural, Hash)]
pub struct CancelToken {}

/// What a guarded task is started with.
#[derive(Debug)]
pub struct GuardedTask {
    /// The number under which the supervisor knows the task.
    pub id: u64,
    /// The name under which the task is registered.
    pub name: String,
    /// A handle on the supervisor's signal.
    pub cancel_token: CancelToken,
    /// The task's own copy of the shared context.
    pub container: ShutdownContainer,
}

/// The mathematical value of a supervisor.
pub struct ManagerView {
    /// Whether the cancellation signal has fired.
    pub cancelled: bool,
    /// The registry, in the order of registration.
    pub tasks: Seq<TaskView>,
    /// How many tasks were ever started.
    pub spawned: nat,
}

impl ManagerView {
    /// A supervisor that has started nothing and whose signal has not fired.
    pub open spec fn fresh() -> ManagerView {
        ManagerView { cancelled: false, tasks: Seq::empty(), spawned: 0 }
    }

    /// The registry is sound: no name occurs twice, the entries stand in the
    /// order in which their tasks were started, every number has been given
    /// out, and no entry has been ended by force.
    pub open spec fn wf(self) -> bool {
        &&& forall|i: int, j: int|
            0 <= i < j < self.tasks.len() ==> (#[trigger] self.tasks[i]).name != (
            #[trigger] self.tasks[j]).name
        &&& forall|i: int, j: int|
            0 <= i < j < self.tasks.len() ==> (#[trigger] self.tasks[i]).id < (
            #[trigger] self.tasks[j]).id
        &&& forall|i: int| 0 <= i < self.tasks.len() ==> (#[trigger] self.tasks[i]).id < self.spawned
        &&& forall|i: int|
            0 <= i < self.tasks.len() ==> (#[trigger] self.tasks[i]).status
                != TaskStatus::ForciblyAborted
    }

    /// Where the entry with the given name stands in the registry.
    pub open spec fn position(self, name: Seq<char>) -> Option<int> {
        if exists|i: int| 0 <= i < self.tasks.len() && self.tasks[i].name == name {
            Some(choose|i: int| 0 <= i < self.tasks.len() && self.tasks[i].name == name)
        } else {
            None
        }
    }

    /// The registry without the entry of the given name.
    pub open spec fn without(self, name: Seq<char>) -> Seq<TaskView> {
        match self.position(name) {
            Some(i) => self.tasks.remove(i),
            None => self.tasks,
        }
    }

    /// What a handle observes in this state: the signal. Every handle
    /// observes the same, whenever and by whom it was taken.
    pub open spec fn answers(self, handle: CancelToken) -> bool {
        self.cancelled
    }

    /// The signal fires. It stays fired, and nothing else changes.
    pub open spec fn cancel(self) -> ManagerView {
        ManagerView { cancelled: true, ..self }
    }

    /// A task is started under `name`. It takes the next number and the last
    /// place in the registry. An earlier entry of that name leaves the
    /// registry; its task goes on unsupervised.
    pub open spec fn spawn(self, name: Seq<char>) -> ManagerView {
        ManagerView {
            tasks: self.without(name).push(
                TaskView { name, id: self.spawned as u64, status: TaskStatus::Running },
            ),
            spawned: self.spawned + 1,
            ..self
        }
    }

    /// The state in which a task that returns now ends.
    pub open spec fn status_on_return(self, failed: bool) -> TaskStatus {
        if failed {
            TaskStatus::Failed
        } else if self.cancelled {
            TaskStatus::CancelledGracefully
        } else {
            TaskStatus::Completed
        }
    }

    /// The task with number `id` returns. Its entry, if it is registered and
    /// running, takes its final state; a failure fires the signal, whether
    /// or not the task is still registered.
    pub open spec fn task_returned(self, id: u64, failed: bool) -> ManagerView {
        ManagerView {
            cancelled: self.cancelled || failed,
            tasks: self.tasks.map_values(
                |task: TaskView|
                    if task.id == id && task.status == TaskStatus::Running {
                        TaskView { status: self.status_on_return(failed), ..task }
                    } else {
                        task
                    },
            ),
            ..self
        }
    }
}

/// The task supervisor.
#[derive(Debug)]
pub struct ShutdownManager {
    cancelled: bool,
    tasks: Vec<TaskEntry>,
    spawned: u64,
}

impl View for ShutdownManager {
    type V = ManagerView;

    closed spec fn view(&self) -> ManagerView {
        ManagerView {
            cancelled: self.cancelled,
            tasks: entry_views(self.tasks@),
            spawned: self.spawned as nat,
        }
    }
}

/// Removing the entry of a name from a sound registry leaves a sound
/// registry that has no entry of that name.
pub proof fn lemma_without_is_sound(m: ManagerView, name: Seq<char>)
    requires
        m.wf(),
    ensures
        (ManagerView { tasks: m.without(name), ..m }).wf(),
        forall|i: int| 0 <= i < m.without(name).len() ==> (#[trigger] m.without(name)[i]).name != name,
{
    let rest = m.without(name);
    match m.position(name) {
        Some(p) => {
            assert forall|i: int| 0 <= i < rest.len() implies (#[trigger] rest[i]).name != name by {
                if i < p {
                    assert(rest[i] == m.tasks[i]);
                } else {
                    assert(rest[i] == m.tasks[i + 1]);
                }
            }
        },
        None => {},
    }
}

impl ShutdownManager {
    #[verifier::type_invariant]
    spec fn sound(self) -> bool {
        self@.wf()
    }

    /// A supervisor with a signal that has not fired and an empty registry.
    pub fn new() -> (r: Self)
        ensures
            r@ == ManagerView::fresh(),
            r@.wf(),
    {
        let r = ShutdownManager { cancelled: false, tasks: Vec::new(), spawned: 0 };
        assert(entry_views(r.tasks@) =~= Seq::<TaskView>::empty());
        r
    }

    /// How many tasks were started so far; the next task takes this number.
    pub fn spawned(&self) -> (r: u64)
        ensures
            r == self@.spawned,
    {
        self.spawned
    }

    /// A handle that observes the supervisor's signal: in whatever state
    /// the supervisor is when the handle is asked about, the answer is the
    /// signal of that state. Taking a handle changes nothing.
    pub fn cancel_token(&self) -> (r: CancelToken)
        ensures
            forall|later: ManagerView| #[trigger] later.answers(r) == later.cancelled,
    {
        CancelToken {  }
    }

    /// Whether the signal has fired, as the handle observes it now. A
    /// handle that was taken before the signal fired observes the firing.
    pub fn is_cancelled(&self, handle: &CancelToken) -> (r: bool)
        ensures
            r == self@.answers(*handle),
    {
        self.cancelled
    }

    /// Fires the signal, for every handle, whenever it was taken. Firing
    /// again changes nothing.
    pub fn cancel(&mut self)
        ensures
            final(self)@ == old(self)@.cancel(),
            final(self)@.wf(),
            forall|handle: CancelToken| #[trigger] final(self)@.answers(handle),
    {
        proof {
            use_type_invariant(&*self);
        }
        self.cancelled = true;
    }

    /// Registers a task that the caller starts under `name`, and gives the
    /// number by which the supervisor knows it. An entry of the same name is
    /// overwritten: its task goes on, but shutdown will not wait for it.
    pub fn spawn(&mut self, name: &str) -> (id: u64)
        requires
            old(self)@.spawned < u64::MAX,
        ensures
            final(self)@ == old(self)@.spawn(name@),
            final(self)@.wf(),
            id == old(self)@.spawned,
    {
        proof {
            use_type_invariant(&*self);
        }
        let ghost before = self@;
        let id = self.spawned;
        let owned = String::from_str(name);
        let mut tasks: Vec<TaskEntry> = Vec::new();
        std::mem::swap(&mut self.tasks, &mut tasks);
        assert(entry_views(tasks@) == before.tasks);
        match find_by_name(&tasks, &owned) {
            Some(p) => {
                proof {
                    let chosen = before.position(name@)->0;
                    assert(before.tasks[p as int].name == name@);
                    assert(chosen == p);
                    assert(entry_views(tasks@.remove(p as int)) =~= before.tasks.remove(p as int));
                }
                tasks.remove(p);
            },
            None => {
                proof {
                    assert forall|i: int| 0 <= i < before.tasks.len() implies before.tasks[i].name
                        != name@ by {
                        assert(before.tasks[i] == tasks@[i]@);
                    }
                }
            },
        }
        assert(entry_views(tasks@) == before.without(name@));
        let ghost rest = tasks@;
        tasks.push(TaskEntry { name: owned, id, status: TaskStatus::Running });
        proof {
            lemma_without_is_sound(before, name@);
            assert(entry_views(tasks@) =~= before.spawn(name@).tasks);
            lemma_spawn_is_sound(before, name@);
        }
        self.spawned = id + 1;
        self.tasks = tasks;
        id
    }

    /// Registers a guarded task that the caller starts under `name`, and
    /// gives what the task is started with: a handle that observes the
    /// supervisor's signal and its own copy of the shared context. The
    /// caller reports the task's result with `task_returned`, which is where
    /// a failure fires the signal.
    pub fn spawn_guarded(&mut self, name: &'static str, container: &ShutdownContainer) -> (r:
        GuardedTask)
        requires
            old(self)@.spawned < u64::MAX,
        ensures
            final(self)@ == old(self)@.spawn(name@),
            final(self)@.wf(),
            r.id == old(self)@.spawned,
            r.name@ == name@,
            forall|later: ManagerView| #[trigger]
                later.answers(r.cancel_token) == later.cancelled,
            r.container == *container,
    {
        let cancel_token = self.cancel_token();
        let id = self.spawn(name);
        GuardedTask { id, name: String::from_str(name), cancel_token, container: container.clone() }
    }

    /// Takes note that the task with number `id`, started under `name`, has
    /// returned. A failure is for the log and fires the signal, for every
    /// handle: one failing task stops all the others. The failure goes no
    /// further than the log.
    pub fn task_returned(&mut self, id: u64, name: &str, result: Result<(), String>) -> (r: Option<
        LogLine,
    >)
        ensures
            final(self)@ == old(self)@.task_returned(id, result is Err),
            final(self)@.wf(),
            result is Err ==> forall|handle: CancelToken| #[trigger] final(self)@.answers(handle),
            match result {
                Ok(_) => r is None,
                Err(error) => r matches Some(line) && line.says(
                    LogLevel::Error,
                    name@ + " failed: "@ + error@,
                ),
            },
    {
        proof {
            use_type_invariant(&*self);
        }
        let ghost before = self@;
        let failed = result.is_err();
        let status = if failed {
            TaskStatus::Failed
        } else if self.cancelled {
            TaskStatus::CancelledGracefully
        } else {
            TaskStatus::Completed
        };
        let mut tasks: Vec<TaskEntry> = Vec::new();
        std::mem::swap(&mut self.tasks, &mut tasks);
        let ghost entries = tasks@;
        let mut i: usize = 0;
        while i < tasks.len()
            invariant
                i <= tasks@.len() == entries.len(),
                forall|j: int|
                    0 <= j < i ==> (#[trigger] tasks@[j])@ == before.task_returned(
                        id,
                        failed,
                    ).tasks[j],
                forall|j: int| i <= j < entries.len() ==> #[trigger] tasks@[j] == entries[j],
                entry_views(entries) == before.tasks,
                status == before.status_on_return(failed),
            decreases tasks@.len() - i,
        {
            if tasks[i].id == id && tasks[i].status == TaskStatus::Running {
                let updated = TaskEntry { name: tasks[i].name.clone(), id, status };
                tasks.set(i, updated);
            }
            i += 1;
        }
        proof {
            assert(entry_views(tasks@) =~= before.task_returned(id, failed).tasks);
            lemma_task_returned_is_sound(before, id, failed);
        }
        if failed {
            self.cancelled = true;
        }
        self.tasks = tasks;
        match result {
            Ok(_) => None,
            Err(error) => Some(
                LogLine::new(
                    LogLevel::Error,
                    String::from_str(name).concat(" failed: ").concat(error.as_str()),
                ),
            ),
        }
    }

    /// Shutdown, as far as it can go now. It begins once the signal has
    /// fired or the operator has interrupted the process, whichever the
    /// caller saw first; until then the supervisor stays as it is and the
    /// caller goes on waiting. Once begun, the registry is emptied into the
    /// shutdown in progress, which says whom to wait for and owns the signal
    /// from then on. An interrupt is a source of cancellation like any
    /// other: in the shutdown that it begins the signal has fired, for
    /// every handle.
    pub fn shutdown(self, interrupted: bool) -> (r: Shutdown)
        ensures
            match r {
                Shutdown::Waiting(manager) => !self@.cancelled && !interrupted && manager@
                    == self@,
                Shutdown::Draining(drain) => (self@.cancelled || interrupted) && drain@
                    == ManagerView::drain(self@) && forall|handle: CancelToken| #[trigger]
                    drain@.answers(handle),
            },
    {
        if !self.cancelled && !interrupted {
            return Shutdown::Waiting(self);
        }
        let trigger = if self.cancelled {
            Trigger::Cancelled
        } else {
            Trigger::Interrupted
        };
        Shutdown::Draining(Drain::begin(trigger, self.tasks))
    }
}

/// What a call of `shutdown` found.
#[derive(Debug)]
pub enum Shutdown {
    /// Nothing has asked for shutdown yet: here is the supervisor again.
    Waiting(ShutdownManager),
    /// Shutdown has begun.
    Draining(Drain),
}

/// An event in the life of a supervisor.
pub enum ManagerOp {
    /// A task, guarded or not, is started under this name.
    Spawn(Seq<char>),
    /// The task with this number returns; `failed` where it returns failure.
    TaskReturned { id: u64, failed: bool },
    /// The signal is fired directly.
    Cancel,
}

impl ManagerView {
    /// The shutdown that begins in this state: every registered task is
    /// pending, in the order of registration, and the signal has fired,
    /// whether it had fired before or an interrupt fires it now.
    pub open spec fn drain(self) -> DrainView {
        DrainView {
            cancelled: true,
            trigger: if self.cancelled {
                Trigger::Cancelled
            } else {
                Trigger::Interrupted
            },
            pending: self.tasks,
            reports: Seq::empty(),
        }
    }

    /// The supervisor after one event.
    pub open spec fn apply(self, op: ManagerOp) -> ManagerView {
        match op {
            ManagerOp::Spawn(name) => self.spawn(name),
            ManagerOp::TaskReturned { id, failed } => self.task_returned(id, failed),
            ManagerOp::Cancel => self.cancel(),
        }
    }

    /// The supervisor after a sequence of events.
    pub open spec fn run(self, ops: Seq<ManagerOp>) -> ManagerView
        decreases ops.len(),
    {
        if ops.len() == 0 {
            self
        } else {
            self.apply(ops[0]).run(ops.skip(1))
        }
    }

    /// The signal fired `n` times in a row.
    pub open spec fn cancel_times(self, n: nat) -> ManagerView
        decreases n,
    {
        if n == 0 {
            self
        } else {
            self.cancel().cancel_times((n - 1) as nat)
        }
    }
}

/// Firing the signal is idempotent: firing it any number of times, once at
/// least, leaves the supervisor as firing it once does, and every handle
/// answered as fired.
pub proof fn law_cancel_is_idempotent(m: ManagerView, n: nat)
    requires
        n >= 1,
    ensures
        m.cancel().cancel() == m.cancel(),
        m.cancel_times(n) == m.cancel(),
        forall|handle: CancelToken| #[trigger] m.cancel_times(n).answers(handle),
    decreases n,
{
    if n > 1 {
        law_cancel_is_idempotent(m.cancel(), (n - 1) as nat);
    } else {
        assert(m.cancel().cancel_times(0) == m.cancel());
    }
}

/// The signal is monotonic: once fired it stays fired, whatever happens.
pub proof fn law_signal_stays_fired(m: ManagerView, ops: Seq<ManagerOp>)
    requires
        m.cancelled,
    ensures
        m.run(ops).cancelled,
    decreases ops.len(),
{
    if ops.len() > 0 {
        law_signal_stays_fired(m.apply(ops[0]), ops.skip(1));
    }
}

/// One failing task stops all: if, in any sequence of events, any task
/// returns failure, then at the end of the sequence every handle, whenever
/// and for whichever task it was taken, is answered as fired, and shutdown
/// begins without an interrupt, with every task that is still registered
/// pending.
pub proof fn law_failure_fires_signal(m: ManagerView, ops: Seq<ManagerOp>, i: int)
    requires
        0 <= i < ops.len(),
        ops[i] matches ManagerOp::TaskReturned { failed, .. } && failed,
    ensures
        forall|handle: CancelToken| #[trigger] m.run(ops).answers(handle),
        m.run(ops).drain().trigger == Trigger::Cancelled,
        m.run(ops).drain().pending == m.run(ops).tasks,
    decreases ops.len(),
{
    if i == 0 {
        law_signal_stays_fired(m.apply(ops[0]), ops.skip(1));
    } else {
        law_failure_fires_signal(m.apply(ops[0]), ops.skip(1), i - 1);
    }
}

/// A handle follows the signal: one that is taken in any state answers, in
/// the state after any further events, as a handle does that is taken then.
/// So a handle that was taken before the signal fired observes the firing.
pub proof fn law_handles_follow_the_signal(
    m: ManagerView,
    ops: Seq<ManagerOp>,
    early: CancelToken,
    late: CancelToken,
)
    ensures
        m.run(ops).answers(early) == m.run(ops).answers(late),
        m.run(ops).answers(early) == m.run(ops).cancelled,
        m.cancel().answers(early),
        m.cancel().run(ops).answers(early),
{
    law_signal_stays_fired(m.cancel(), ops);
}

/// The registry stays sound: from a fresh supervisor, no sequence of events
/// that gives out fewer than 2^64 numbers leads to a registry with a name
/// twice, with entries out of order, or with an entry ended by force.
pub proof fn law_registry_stays_sound(m: ManagerView, ops: Seq<ManagerOp>)
    requires
        m.wf(),
        m.spawned + ops.len() <= u64::MAX,
    ensures
        ManagerView::fresh().wf(),
        m.run(ops).wf(),
        m.run(ops).spawned <= m.spawned + ops.len(),
    decreases ops.len(),
{
    if ops.len() > 0 {
        match ops[0] {
            ManagerOp::Spawn(name) => lemma_spawn_is_sound(m, name),
            ManagerOp::TaskReturned { id, failed } => lemma_task_returned_is_sound(m, id, failed),
            ManagerOp::Cancel => {},
        }
        law_registry_stays_sound(m.apply(ops[0]), ops.skip(1));
    }
}

/// The place of the entry with the given name, if there is one.
fn find_by_name(tasks: &Vec<TaskEntry>, name: &String) -> (r: Option<usize>)
    ensures
        match r {
            Some(p) => p < tasks@.len() && tasks@[p as int].name@ == name@,
            None => forall|i: int| 0 <= i < tasks@.len() ==> (#[trigger] tasks@[i]).name@ != name@,
        },
{
    let mut i: usize = 0;
    while i < tasks.len()
        invariant
            i <= tasks@.len(),
            forall|j: int| 0 <= j < i ==> (#[trigger] tasks@[j]).name@ != name@,
        decreases tasks@.len() - i,
    {
        if tasks[i].name == *name {
            return Some(i);
        }
        i += 1;
    }
    None
}

/// Starting a task leaves a sound registry sound.
pub proof fn lemma_spawn_is_sound(m: ManagerView, name: Seq<char>)
    requires
        m.wf(),
        m.spawned < u64::MAX,
    ensures
        m.spawn(name).wf(),
{
    lemma_without_is_sound(m, name);
    let rest = m.without(name);
    let after = m.spawn(name);
    assert forall|i: int| 0 <= i < after.tasks.len() implies (#[trigger] after.tasks[i]).id
        < after.spawned && after.tasks[i].status != TaskStatus::ForciblyAborted by {
        if i < rest.len() {
            assert(after.tasks[i] == rest[i]);
        }
    }
    assert forall|i: int, j: int| 0 <= i < j < after.tasks.len() implies (
    #[trigger] after.tasks[i]).name != (#[trigger] after.tasks[j]).name && after.tasks[i].id
        < after.tasks[j].id by {
        assert(after.tasks[i] == rest[i]);
        if j < rest.len() {
            assert(after.tasks[j] == rest[j]);
        }
    }
}

/// The return of a task leaves a sound registry sound.
pub proof fn lemma_task_returned_is_sound(m: ManagerView, id: u64, failed: bool)
    requires
        m.wf(),
    ensures
        m.task_returned(id, failed).wf(),
{
}

} // verus!
