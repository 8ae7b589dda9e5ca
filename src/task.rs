//! Task management: the task table, round-robin scheduling and per-task
//! accounting of kernel and user time.
//!
//! The manager decides; it does not switch. An operation that picks another
//! task returns a [`Schedule`] that the caller carries out with the context
//! switch primitive, then reports back through `do_cal_task_switch_cost`.

use vstd::prelude::*;

verus! {

/// Lifecycle of a task. `Exited` is final.
#[derive(Clone, Copy, Debug, PartialEq, Eq, Structural)]
pub enum TaskStatus {
    UnInit,
    Ready,
    Running,
    Exited,
}

/// Control block of one statically loaded program. Its saved register
/// context is held beside the switch primitive, indexed by the same task id.
#[derive(Clone, Copy, Debug)]
pub struct TaskControlBlock {
    pub task_status: TaskStatus,
    /// kernel time charged to the task, in milliseconds
    pub kernel_time: usize,
    /// user time charged to the task, in milliseconds
    pub user_time: usize,
}

/// What the caller must do after a scheduling decision.
#[derive(Clone, Copy, Debug, PartialEq, Eq, Structural)]
pub enum Schedule {
    /// Save the running flow into task `from`'s context and resume task `to`.
    Switch { from: usize, to: usize },
    /// No task is ready: every program has finished; power down.
    Shutdown,
}

/// State of the manager, mutated only through `TaskManager`'s methods.
pub struct TaskManagerInner {
    /// task table, indexed by task id
    pub tasks: Vec<TaskControlBlock>,
    /// id of the task that runs, or ran last
    pub current_task: usize,
    /// clock reading (ms) up to which time has been attributed to some task
    pub system_time_stamp: usize,
    /// clock reading (us) taken when the last switch began
    pub task_switch_timestamp: usize,
    /// microseconds spent in switches, summed
    pub task_switch_total_time: usize,
    /// a timer interrupt has arrived while the kernel itself was executing
    pub kernel_interrupt_triggered: bool,
    /// the first task has been started
    pub started: bool,
    /// the power-down decision has been taken
    pub halted: bool,
    /// clock reading (ms) at which the first task started
    pub boot_time: Ghost<int>,
}

/// The task manager: the single owner of every task control block.
pub struct TaskManager {
    /// total number of tasks
    pub num_app: usize,
    pub inner: TaskManagerInner,
}

/// Kernel plus user time of every task in `tasks`, summed.
pub open spec fn total_time(tasks: Seq<TaskControlBlock>) -> int
    decreases tasks.len(),
{
    if tasks.len() == 0 {
        0
    } else {
        total_time(tasks.drop_last()) + tasks.last().kernel_time + tasks.last().user_time
    }
}

/// Id of the task `k` places after `cur` in circular order of `n` tasks.
pub open spec fn circular(cur: int, k: int, n: int) -> int {
    (cur + k) % n
}

/// The first task in circular order after `cur`, looking at the places
/// `k..=tasks.len()` after it, that is `Ready`.
pub open spec fn first_ready_from(tasks: Seq<TaskControlBlock>, cur: int, k: int) -> Option<int>
    decreases tasks.len() + 1 - k,
{
    if k < 1 || k > tasks.len() {
        None
    } else if tasks[circular(cur, k, tasks.len() as int)].task_status == TaskStatus::Ready {
        Some(circular(cur, k, tasks.len() as int))
    } else {
        first_ready_from(tasks, cur, k + 1)
    }
}

/// Round-robin choice: the first `Ready` task strictly after `cur`, wrapping
/// around, with `cur` itself considered last.
pub open spec fn next_ready(tasks: Seq<TaskControlBlock>, cur: int) -> Option<int> {
    first_ready_from(tasks, cur, 1)
}

/// `tasks` with task `i` in status `s`, its times kept.
pub open spec fn with_status(tasks: Seq<TaskControlBlock>, i: int, s: TaskStatus) -> Seq<
    TaskControlBlock,
> {
    tasks.update(i, TaskControlBlock { task_status: s, ..tasks[i] })
}

/// `tasks` with `gap` more milliseconds of kernel time charged to task `i`.
pub open spec fn add_kernel_time(tasks: Seq<TaskControlBlock>, i: int, gap: int) -> Seq<TaskControlBlock> {
    tasks.update(i, TaskControlBlock { kernel_time: (tasks[i].kernel_time + gap) as usize, ..tasks[i] })
}

/// `tasks` with `gap` more milliseconds of user time charged to task `i`.
pub open spec fn add_user_time(tasks: Seq<TaskControlBlock>, i: int, gap: int) -> Seq<TaskControlBlock> {
    tasks.update(i, TaskControlBlock { user_time: (tasks[i].user_time + gap) as usize, ..tasks[i] })
}

/// The decision taken from `tasks` when task `cur` has stopped running.
pub open spec fn schedule_after(tasks: Seq<TaskControlBlock>, cur: int) -> Schedule {
    match next_ready(tasks, cur) {
        Some(next) => Schedule::Switch { from: cur as usize, to: next as usize },
        None => Schedule::Shutdown,
    }
}

/// The table once that decision is carried out: the chosen task runs.
pub open spec fn tasks_after(tasks: Seq<TaskControlBlock>, cur: int) -> Seq<TaskControlBlock> {
    match next_ready(tasks, cur) {
        Some(next) => with_status(tasks, next, TaskStatus::Running),
        None => tasks,
    }
}

/// Every task that was `Exited` in `a` is `Exited` in `b`.
pub open spec fn exits_kept(a: Seq<TaskControlBlock>, b: Seq<TaskControlBlock>) -> bool {
    a.len() == b.len() && forall|i: int|
        0 <= i < a.len() && #[trigger] a[i].task_status == TaskStatus::Exited ==> b[i].task_status
            == TaskStatus::Exited
}


/// Two managers agree on everything but the task table.
pub open spec fn same_but_tasks(a: TaskManager, b: TaskManager) -> bool {
    &&& a.num_app == b.num_app
    &&& a.inner.current_task == b.inner.current_task
    &&& a.inner.system_time_stamp == b.inner.system_time_stamp
    &&& a.inner.task_switch_timestamp == b.inner.task_switch_timestamp
    &&& a.inner.task_switch_total_time == b.inner.task_switch_total_time
    &&& a.inner.kernel_interrupt_triggered == b.inner.kernel_interrupt_triggered
    &&& a.inner.started == b.inner.started
    &&& a.inner.halted == b.inner.halted
    &&& a.inner.boot_time@ == b.inner.boot_time@
}

/// Two managers agree on everything but the kernel-interrupt flag.
pub open spec fn same_but_flag(a: TaskManager, b: TaskManager) -> bool {
    &&& a.tasks() == b.tasks()
    &&& a.num_app == b.num_app
    &&& a.inner.current_task == b.inner.current_task
    &&& a.inner.system_time_stamp == b.inner.system_time_stamp
    &&& a.inner.task_switch_timestamp == b.inner.task_switch_timestamp
    &&& a.inner.task_switch_total_time == b.inner.task_switch_total_time
    &&& a.inner.started == b.inner.started
    &&& a.inner.halted == b.inner.halted
    &&& a.inner.boot_time@ == b.inner.boot_time@
}

proof fn lemma_total_update(tasks: Seq<TaskControlBlock>, i: int, t: TaskControlBlock)
    requires
        0 <= i < tasks.len(),
    ensures
        total_time(tasks.update(i, t)) == total_time(tasks) - tasks[i].kernel_time
            - tasks[i].user_time + t.kernel_time + t.user_time,
    decreases tasks.len(),
{
    let u = tasks.update(i, t);
    if i == tasks.len() - 1 {
        assert(u.drop_last() =~= tasks.drop_last());
    } else {
        assert(u.drop_last() =~= tasks.drop_last().update(i, t));
        lemma_total_update(tasks.drop_last(), i, t);
    }
}

proof fn lemma_total_bounds(tasks: Seq<TaskControlBlock>, i: int)
    requires
        0 <= i < tasks.len(),
    ensures
        tasks[i].kernel_time + tasks[i].user_time <= total_time(tasks),
    decreases tasks.len(),
{
    lemma_total_nonneg(tasks.drop_last());
    if i < tasks.len() - 1 {
        lemma_total_bounds(tasks.drop_last(), i);
    }
}

proof fn lemma_total_nonneg(tasks: Seq<TaskControlBlock>)
    ensures
        0 <= total_time(tasks),
    decreases tasks.len(),
{
    if tasks.len() > 0 {
        lemma_total_nonneg(tasks.drop_last());
    }
}

proof fn lemma_first_ready_some(tasks: Seq<TaskControlBlock>, cur: int, k: int)
    requires
        tasks.len() > 0,
        first_ready_from(tasks, cur, k) is Some,
        0 <= cur,
    ensures
        0 <= first_ready_from(tasks, cur, k)->0 < tasks.len(),
        tasks[first_ready_from(tasks, cur, k)->0].task_status == TaskStatus::Ready,
    decreases tasks.len() + 1 - k,
{
    if !(k < 1 || k > tasks.len()) && tasks[circular(cur, k, tasks.len() as int)].task_status
        != TaskStatus::Ready {
        lemma_first_ready_some(tasks, cur, k + 1);
    }
}

proof fn lemma_first_ready_none(tasks: Seq<TaskControlBlock>, cur: int, k: int, j: int)
    requires
        tasks.len() > 0,
        first_ready_from(tasks, cur, k) is None,
        1 <= k <= j <= tasks.len(),
    ensures
        tasks[circular(cur, j, tasks.len() as int)].task_status != TaskStatus::Ready,
    decreases j - k,
{
    if k < j {
        lemma_first_ready_none(tasks, cur, k + 1, j);
    }
}

/// One more step in circular order moves to the next id, wrapping to 0.
proof fn lemma_circular_step(cur: int, k: int, n: int)
    requires
        0 <= cur,
        0 <= k,
        0 < n,
    ensures
        0 <= circular(cur, k, n) < n,
        circular(cur, k + 1, n) == if circular(cur, k, n) + 1 == n {
            0
        } else {
            circular(cur, k, n) + 1
        },
{
    let q = (cur + k) / n;
    let r = (cur + k) % n;
    vstd::arithmetic::div_mod::lemma_fundamental_div_mod(cur + k, n);
    vstd::arithmetic::div_mod::lemma_mod_pos_bound(cur + k, n);
    assert(cur + k + 1 == n * q + (r + 1));
    vstd::arithmetic::div_mod::lemma_mod_multiples_vanish(q, r + 1, n);
    if r + 1 == n {
        vstd::arithmetic::div_mod::lemma_mod_self_0(n);
    } else {
        vstd::arithmetic::div_mod::lemma_small_mod((r + 1) as nat, n as nat);
    }
}

/// Statuses of a table after one task's status is set.
proof fn lemma_with_status(tasks: Seq<TaskControlBlock>, j: int, s: TaskStatus)
    requires
        0 <= j < tasks.len(),
    ensures
        with_status(tasks, j, s).len() == tasks.len(),
        forall|i: int|
            0 <= i < tasks.len() ==> (#[trigger] with_status(tasks, j, s)[i]).task_status == (if i
                == j {
                s
            } else {
                tasks[i].task_status
            }),
        forall|i: int|
            0 <= i < tasks.len() ==> (#[trigger] with_status(tasks, j, s)[i]).kernel_time
                == tasks[i].kernel_time && with_status(tasks, j, s)[i].user_time == tasks[i].user_time,
{
}

/// Every id is reached from `cur` within one sweep of circular order.
proof fn lemma_circular_covers(cur: int, n: int, i: int) -> (k: int)
    requires
        0 <= cur < n,
        0 <= i < n,
    ensures
        1 <= k <= n,
        circular(cur, k, n) == i,
{
    let k = if i > cur { i - cur } else { i - cur + n };
    assert(cur + k == i || cur + k == i + n);
    if cur + k == i + n {
        vstd::arithmetic::div_mod::lemma_mod_add_multiples_vanish(i, n);
        vstd::arithmetic::div_mod::lemma_small_mod(i as nat, n as nat);
    } else {
        vstd::arithmetic::div_mod::lemma_small_mod(i as nat, n as nat);
    }
    k
}

/// With no `Ready` task, the round-robin choice finds nothing.
proof fn lemma_none_ready(tasks: Seq<TaskControlBlock>, cur: int)
    requires
        0 <= cur < tasks.len(),
        next_ready(tasks, cur) is None,
    ensures
        forall|i: int| 0 <= i < tasks.len() ==> #[trigger] tasks[i].task_status != TaskStatus::Ready,
{
    assert forall|i: int| 0 <= i < tasks.len() implies #[trigger] tasks[i].task_status
        != TaskStatus::Ready by {
        let k = lemma_circular_covers(cur, tasks.len() as int, i);
        lemma_first_ready_none(tasks, cur, 1, k);
    }
}


impl TaskManager {
    pub open spec fn tasks(&self) -> Seq<TaskControlBlock> {
        self.inner.tasks@
    }

    pub open spec fn current(&self) -> int {
        self.inner.current_task as int
    }

    pub open spec fn status(&self, i: int) -> TaskStatus {
        self.tasks()[i].task_status
    }

    /// Time the manager has attributed since the first task started.
    pub open spec fn elapsed(&self) -> int {
        self.inner.system_time_stamp - self.inner.boot_time@
    }

    /// Invariant of the task table.
    pub open spec fn wf(&self) -> bool {
        &&& self.num_app > 0
        &&& self.tasks().len() == self.num_app
        &&& self.inner.current_task < self.num_app
        &&& !self.inner.started ==> self.inner.current_task == 0
        &&& 0 <= self.inner.boot_time@
        // kernel and user time of all tasks partition the elapsed time
        &&& total_time(self.tasks()) == self.elapsed()
        &&& forall|i: int| 0 <= i < self.tasks().len() ==> (#[trigger] self.tasks()[i]).task_status != TaskStatus::UnInit
        // only the current task can be running
        &&& forall|i: int|
            0 <= i < self.tasks().len() && (#[trigger] self.tasks()[i]).task_status == TaskStatus::Running ==> i
                == self.current()
        &&& !self.inner.started ==> {
            &&& self.inner.system_time_stamp == 0
            &&& self.inner.boot_time@ == 0
            &&& forall|i: int| 0 <= i < self.tasks().len() ==> (#[trigger] self.tasks()[i]).task_status == TaskStatus::Ready
        }
        &&& self.inner.halted ==> {
            &&& self.inner.started
            &&& forall|i: int| 0 <= i < self.tasks().len() ==> (#[trigger] self.tasks()[i]).task_status == TaskStatus::Exited
        }
    }

    /// Scheduling has begun and not ended, and the current task is the one running.
    pub open spec fn is_running(&self) -> bool {
        &&& self.inner.started
        &&& !self.inner.halted
        &&& self.status(self.current()) == TaskStatus::Running
    }

    /// Scheduling has begun and not ended, and no task is running: the state
    /// between marking the current task and choosing the next.
    pub open spec fn is_between(&self) -> bool {
        &&& self.inner.started
        &&& !self.inner.halted
        &&& forall|i: int| 0 <= i < self.tasks().len() ==> (#[trigger] self.tasks()[i]).task_status != TaskStatus::Running
    }

    /// Builds the table of `num_app` tasks, each `Ready` at its entry point.
    pub fn new(num_app: usize) -> (r: Self)
        requires
            num_app > 0,
        ensures
            r.wf(),
            r.num_app == num_app,
            r.current() == 0,
            !r.inner.started,
            !r.inner.halted,
            !r.inner.kernel_interrupt_triggered,
            forall|i: int|
                0 <= i < num_app ==> (#[trigger] r.tasks()[i]) == (TaskControlBlock {
                    task_status: TaskStatus::Ready,
                    kernel_time: 0,
                    user_time: 0,
                }),
    {
        let mut tasks: Vec<TaskControlBlock> = Vec::new();
        let mut i: usize = 0;
        while i < num_app
            invariant
                i <= num_app,
                tasks@.len() == i,
                forall|j: int|
                    0 <= j < i ==> (#[trigger] tasks@[j]) == (TaskControlBlock {
                        task_status: TaskStatus::Ready,
                        kernel_time: 0,
                        user_time: 0,
                    }),
                total_time(tasks@) == 0,
            decreases num_app - i,
        {
            let tcb = TaskControlBlock { task_status: TaskStatus::Ready, kernel_time: 0, user_time: 0 };
            proof {
                assert(tasks@.push(tcb).drop_last() =~= tasks@);
            }
            tasks.push(tcb);
            i += 1;
        }
        TaskManager {
            num_app,
            inner: TaskManagerInner {
                tasks,
                current_task: 0,
                system_time_stamp: 0,
                task_switch_timestamp: 0,
                task_switch_total_time: 0,
                kernel_interrupt_triggered: false,
                started: false,
                halted: false,
                boot_time: Ghost(0),
            },
        }
    }

    /// Sets task `i`'s status, keeping its times and every other field.
    fn set_status(&mut self, i: usize, s: TaskStatus)
        requires
            i < old(self).tasks().len(),
        ensures
            final(self).tasks() == with_status(old(self).tasks(), i as int, s),
            forall|j: int|
                0 <= j < final(self).tasks().len() ==> (#[trigger] final(self).tasks()[j]).task_status == (if j
                    == i {
                    s
                } else {
                    old(self).status(j)
                }),
            final(self).tasks().len() == old(self).tasks().len(),
            same_but_tasks(*old(self), *final(self)),
            total_time(final(self).tasks()) == total_time(old(self).tasks()),
    {
        let mut tcb = self.inner.tasks[i];
        tcb.task_status = s;
        proof {
            lemma_total_update(self.tasks(), i as int, tcb);
            lemma_with_status(self.tasks(), i as int, s);
        }
        self.inner.tasks.set(i, tcb);
        assert(self.tasks() =~= with_status(old(self).tasks(), i as int, s));
    }

    /// Starts scheduling: task 0 becomes the running task and both clocks
    /// are stamped. The caller then resumes task 0's context.
    pub fn run_first_task(&mut self, now_ms: usize, now_us: usize)
        requires
            old(self).wf(),
            !old(self).inner.started,
        ensures
            final(self).wf(),
            final(self).is_running(),
            final(self).current() == 0,
            final(self).num_app == old(self).num_app,
            final(self).tasks() == with_status(old(self).tasks(), 0, TaskStatus::Running),
            forall|i: int|
                0 <= i < final(self).tasks().len() ==> ((#[trigger] final(self).tasks()[i]).task_status
                    == TaskStatus::Running) == (i == 0),
            final(self).inner.system_time_stamp == now_ms,
            final(self).inner.task_switch_timestamp == now_us,
            final(self).inner.kernel_interrupt_triggered == old(self).inner.kernel_interrupt_triggered,
            final(self).inner.task_switch_total_time == old(self).inner.task_switch_total_time,
            final(self).inner.current_task == old(self).inner.current_task,
    {
        self.set_status(0, TaskStatus::Running);
        self.inner.system_time_stamp = now_ms;
        self.inner.boot_time = Ghost(now_ms as int);
        self.do_update_task_switch_timestamp(now_us);
        self.inner.started = true;
    }

    /// Marks the running task `Ready`.
    pub fn mark_current_suspended(&mut self)
        requires
            old(self).wf(),
            old(self).is_running(),
        ensures
            final(self).wf(),
            final(self).is_between(),
            final(self).tasks() == with_status(old(self).tasks(), old(self).current(), TaskStatus::Ready),
            same_but_tasks(*old(self), *final(self)),
    {
        let current = self.inner.current_task;
        self.set_status(current, TaskStatus::Ready);
    }

    /// Marks the running task `Exited`, for good.
    pub fn mark_current_exited(&mut self)
        requires
            old(self).wf(),
            old(self).is_running(),
        ensures
            final(self).wf(),
            final(self).is_between(),
            final(self).tasks() == with_status(old(self).tasks(), old(self).current(), TaskStatus::Exited),
            same_but_tasks(*old(self), *final(self)),
    {
        let current = self.inner.current_task;
        self.set_status(current, TaskStatus::Exited);
    }

    /// The round-robin choice: the first `Ready` task after the current one.
    pub fn find_next_task(&self) -> (r: Option<usize>)
        requires
            self.wf(),
        ensures
            r is Some <==> next_ready(self.tasks(), self.current()) is Some,
            r is Some ==> r->0 as int == next_ready(self.tasks(), self.current())->0,
    {
        let n = self.num_app;
        let current = self.inner.current_task;
        let mut id: usize = if current + 1 == n { 0 } else { current + 1 };
        let mut k: usize = 0;
        proof {
            lemma_circular_step(current as int, 0, n as int);
            vstd::arithmetic::div_mod::lemma_small_mod(current as nat, n as nat);
        }
        while k < n
            invariant
                self.wf(),
                n == self.num_app,
                current == self.inner.current_task,
                k <= n,
                id < n,
                id as int == circular(current as int, k + 1, n as int),
                first_ready_from(self.tasks(), current as int, k + 1) == next_ready(
                    self.tasks(),
                    current as int,
                ),
            decreases n - k,
        {
            if self.inner.tasks[id].task_status == TaskStatus::Ready {
                return Some(id);
            }
            proof {
                lemma_circular_step(current as int, k + 1, n as int);
            }
            id = if id + 1 == n { 0 } else { id + 1 };
            k += 1;
        }
        None
    }

    /// Hands the processor to the next `Ready` task, or takes the decision to
    /// power down when none is left. Called with no task running.
    pub fn run_next_task(&mut self, now_us: usize) -> (r: Schedule)
        requires
            old(self).wf(),
            old(self).is_between(),
        ensures
            final(self).wf(),
            final(self).num_app == old(self).num_app,
            exits_kept(old(self).tasks(), final(self).tasks()),
            final(self).inner.system_time_stamp == old(self).inner.system_time_stamp,
            final(self).inner.task_switch_total_time == old(self).inner.task_switch_total_time,
            final(self).inner.kernel_interrupt_triggered == old(self).inner.kernel_interrupt_triggered,
            match next_ready(old(self).tasks(), old(self).current()) {
                Some(next) => {
                    &&& r == Schedule::Switch { from: old(self).inner.current_task, to: next as usize }
                    &&& final(self).tasks() == with_status(old(self).tasks(), next, TaskStatus::Running)
                    &&& final(self).current() == next
                    &&& final(self).is_running()
                    &&& final(self).inner.task_switch_timestamp == now_us
                },
                None => {
                    &&& r == Schedule::Shutdown
                    &&& final(self).inner.halted
                    &&& final(self).tasks() == old(self).tasks()
                    &&& final(self).inner.current_task == old(self).inner.current_task
                    &&& final(self).inner.task_switch_timestamp == old(self).inner.task_switch_timestamp
                    &&& forall|i: int|
                        0 <= i < final(self).tasks().len() ==> (#[trigger] final(self).tasks()[i]).task_status
                            == TaskStatus::Exited
                },
            },
    {
        let found = self.find_next_task();
        match found {
            Some(next) => {
                proof {
                    lemma_first_ready_some(self.tasks(), self.current(), 1);
                }
                let current = self.inner.current_task;
                self.set_status(next, TaskStatus::Running);
                self.inner.current_task = next;
                self.do_update_task_switch_timestamp(now_us);
                Schedule::Switch { from: current, to: next }
            },
            None => {
                proof {
                    lemma_none_ready(self.tasks(), self.current());
                }
                self.inner.halted = true;
                Schedule::Shutdown
            },
        }
    }

    /// Attributes the time since the last stamp to the current task's kernel
    /// bucket and moves the stamp to `now_ms`.
    pub fn do_update_current_task_kernel_time(&mut self, now_ms: usize)
        requires
            old(self).wf(),
            old(self).inner.started,
            now_ms >= old(self).inner.system_time_stamp,
        ensures
            final(self).wf(),
            final(self).tasks() == add_kernel_time(
                old(self).tasks(),
                old(self).current(),
                now_ms - old(self).inner.system_time_stamp,
            ),
            final(self).inner.system_time_stamp == now_ms,
            final(self).inner.current_task == old(self).inner.current_task,
            final(self).inner.task_switch_timestamp == old(self).inner.task_switch_timestamp,
            final(self).inner.task_switch_total_time == old(self).inner.task_switch_total_time,
            final(self).inner.kernel_interrupt_triggered == old(self).inner.kernel_interrupt_triggered,
            final(self).inner.started == old(self).inner.started,
            final(self).inner.halted == old(self).inner.halted,
            final(self).num_app == old(self).num_app,
    {
        let current = self.inner.current_task;
        let gap = now_ms - self.inner.system_time_stamp;
        let mut tcb = self.inner.tasks[current];
        proof {
            lemma_total_bounds(self.tasks(), current as int);
        }
        tcb.kernel_time = tcb.kernel_time + gap;
        proof {
            lemma_total_update(self.tasks(), current as int, tcb);
        }
        self.inner.tasks.set(current, tcb);
        self.inner.system_time_stamp = now_ms;
    }

    /// Attributes the time since the last stamp to the current task's user
    /// bucket and moves the stamp to `now_ms`.
    pub fn do_update_current_task_user_time(&mut self, now_ms: usize)
        requires
            old(self).wf(),
            old(self).inner.started,
            now_ms >= old(self).inner.system_time_stamp,
        ensures
            final(self).wf(),
            final(self).tasks() == add_user_time(
                old(self).tasks(),
                old(self).current(),
                now_ms - old(self).inner.system_time_stamp,
            ),
            final(self).inner.system_time_stamp == now_ms,
            final(self).inner.current_task == old(self).inner.current_task,
            final(self).inner.task_switch_timestamp == old(self).inner.task_switch_timestamp,
            final(self).inner.task_switch_total_time == old(self).inner.task_switch_total_time,
            final(self).inner.kernel_interrupt_triggered == old(self).inner.kernel_interrupt_triggered,
            final(self).inner.started == old(self).inner.started,
            final(self).inner.halted == old(self).inner.halted,
            final(self).num_app == old(self).num_app,
    {
        let current = self.inner.current_task;
        let gap = now_ms - self.inner.system_time_stamp;
        let mut tcb = self.inner.tasks[current];
        proof {
            lemma_total_bounds(self.tasks(), current as int);
        }
        tcb.user_time = tcb.user_time + gap;
        proof {
            lemma_total_update(self.tasks(), current as int, tcb);
        }
        self.inner.tasks.set(current, tcb);
        self.inner.system_time_stamp = now_ms;
    }

    /// Stamps the start of a switch with the microsecond clock.
    pub fn do_update_task_switch_timestamp(&mut self, now_us: usize)
        ensures
            final(self).inner.task_switch_timestamp == now_us,
            final(self).inner.tasks == old(self).inner.tasks,
            final(self).inner.current_task == old(self).inner.current_task,
            final(self).inner.system_time_stamp == old(self).inner.system_time_stamp,
            final(self).inner.task_switch_total_time == old(self).inner.task_switch_total_time,
            final(self).inner.kernel_interrupt_triggered == old(self).inner.kernel_interrupt_triggered,
            final(self).inner.started == old(self).inner.started,
            final(self).inner.halted == old(self).inner.halted,
            final(self).inner.boot_time == old(self).inner.boot_time,
            final(self).num_app == old(self).num_app,
    {
        self.inner.task_switch_timestamp = now_us;
    }

    /// Called when a switch has come back to the flow that started it: the
    /// microseconds since the switch began, added to the running total.
    pub fn do_cal_task_switch_cost(&mut self, now_us: usize) -> (gap: usize)
        requires
            now_us >= old(self).inner.task_switch_timestamp,
            old(self).inner.task_switch_total_time + (now_us - old(self).inner.task_switch_timestamp)
                <= usize::MAX,
        ensures
            gap == now_us - old(self).inner.task_switch_timestamp,
            final(self).inner.task_switch_total_time == old(self).inner.task_switch_total_time + gap,
            final(self).inner.tasks == old(self).inner.tasks,
            final(self).inner.current_task == old(self).inner.current_task,
            final(self).inner.system_time_stamp == old(self).inner.system_time_stamp,
            final(self).inner.task_switch_timestamp == old(self).inner.task_switch_timestamp,
            final(self).inner.kernel_interrupt_triggered == old(self).inner.kernel_interrupt_triggered,
            final(self).inner.started == old(self).inner.started,
            final(self).inner.halted == old(self).inner.halted,
            final(self).inner.boot_time == old(self).inner.boot_time,
            final(self).num_app == old(self).num_app,
    {
        let gap = now_us - self.inner.task_switch_timestamp;
        self.inner.task_switch_total_time = self.inner.task_switch_total_time + gap;
        gap
    }
}

/// Starts scheduling with task 0; the caller then resumes task 0's context.
pub fn run_first_task(tm: &mut TaskManager, now_ms: usize, now_us: usize)
    requires
        old(tm).wf(),
        !old(tm).inner.started,
    ensures
        final(tm).wf(),
        final(tm).is_running(),
        final(tm).current() == 0,
        final(tm).tasks() == with_status(old(tm).tasks(), 0, TaskStatus::Running),
        forall|i: int|
            0 <= i < final(tm).tasks().len() ==> ((#[trigger] final(tm).tasks()[i]).task_status
                == TaskStatus::Running) == (i == 0),
        final(tm).inner.system_time_stamp == now_ms,
        final(tm).inner.task_switch_timestamp == now_us,
        final(tm).inner.task_switch_total_time == old(tm).inner.task_switch_total_time,
        final(tm).inner.kernel_interrupt_triggered == old(tm).inner.kernel_interrupt_triggered,
        final(tm).inner.current_task == old(tm).inner.current_task,
{
    tm.run_first_task(now_ms, now_us);
}

/// Suspends the running task and hands the processor to the next `Ready`
/// one in round-robin order; the suspended task itself is considered last,
/// so a switch always follows.
pub fn suspend_current_and_run_next(tm: &mut TaskManager, now_us: usize) -> (r: Schedule)
    requires
        old(tm).wf(),
        old(tm).is_running(),
    ensures
        final(tm).wf(),
        final(tm).is_running(),
        exits_kept(old(tm).tasks(), final(tm).tasks()),
        ({
            let t = with_status(old(tm).tasks(), old(tm).current(), TaskStatus::Ready);
            &&& next_ready(t, old(tm).current()) is Some
            &&& r == schedule_after(t, old(tm).current())
            &&& final(tm).tasks() == tasks_after(t, old(tm).current())
            &&& r == Schedule::Switch {
                from: old(tm).inner.current_task,
                to: next_ready(t, old(tm).current())->0 as usize,
            }
            &&& final(tm).current() == next_ready(t, old(tm).current())->0
            &&& final(tm).tasks() == with_status(t, final(tm).current(), TaskStatus::Running)
        }),
        final(tm).inner.task_switch_timestamp == now_us,
        final(tm).inner.system_time_stamp == old(tm).inner.system_time_stamp,
        final(tm).inner.task_switch_total_time == old(tm).inner.task_switch_total_time,
        final(tm).inner.kernel_interrupt_triggered == old(tm).inner.kernel_interrupt_triggered,
{
    tm.mark_current_suspended();
    proof {
        let c = old(tm).current();
        let t = tm.tasks();
        let n = t.len() as int;
        let k = lemma_circular_covers(c, n, c);
        if first_ready_from(t, c, 1) is None {
            lemma_first_ready_none(t, c, 1, k);
        }
    }
    tm.run_next_task(now_us)
}

/// Ends the running task for good and hands the processor to the next
/// `Ready` task, or decides to power down when none is left.
pub fn exit_current_and_run_next(tm: &mut TaskManager, now_us: usize) -> (r: Schedule)
    requires
        old(tm).wf(),
        old(tm).is_running(),
    ensures
        final(tm).wf(),
        exits_kept(old(tm).tasks(), final(tm).tasks()),
        final(tm).tasks()[old(tm).current()].task_status == TaskStatus::Exited,
        ({
            let t = with_status(old(tm).tasks(), old(tm).current(), TaskStatus::Exited);
            &&& r == schedule_after(t, old(tm).current())
            &&& final(tm).tasks() == tasks_after(t, old(tm).current())
            &&& match next_ready(t, old(tm).current()) {
                Some(next) => {
                    &&& r == Schedule::Switch { from: old(tm).inner.current_task, to: next as usize }
                    &&& final(tm).current() == next
                    &&& final(tm).tasks() == with_status(t, next, TaskStatus::Running)
                    &&& final(tm).is_running()
                    &&& final(tm).inner.task_switch_timestamp == now_us
                },
                None => {
                    &&& r == Schedule::Shutdown
                    &&& final(tm).inner.halted
                    &&& final(tm).tasks() == t
                    &&& final(tm).inner.current_task == old(tm).inner.current_task
                    &&& final(tm).inner.task_switch_timestamp == old(tm).inner.task_switch_timestamp
                },
            }
        }),
        final(tm).inner.system_time_stamp == old(tm).inner.system_time_stamp,
        final(tm).inner.task_switch_total_time == old(tm).inner.task_switch_total_time,
        final(tm).inner.kernel_interrupt_triggered == old(tm).inner.kernel_interrupt_triggered,
{
    tm.mark_current_exited();
    let r = tm.run_next_task(now_us);
    proof {
        let c = old(tm).current();
        let t = with_status(old(tm).tasks(), c, TaskStatus::Exited);
        lemma_with_status(old(tm).tasks(), c, TaskStatus::Exited);
        if let Some(next) = next_ready(t, c) {
            lemma_first_ready_some(t, c, 1);
            lemma_with_status(t, next, TaskStatus::Running);
        }
    }
    r
}

/// Attributes the time since the last stamp to the current task's kernel bucket.
pub fn update_current_task_kernel_time(tm: &mut TaskManager, now_ms: usize)
    requires
        old(tm).wf(),
        old(tm).inner.started,
        now_ms >= old(tm).inner.system_time_stamp,
    ensures
        final(tm).wf(),
        final(tm).tasks() == add_kernel_time(
            old(tm).tasks(),
            old(tm).current(),
            now_ms - old(tm).inner.system_time_stamp,
        ),
        final(tm).inner.system_time_stamp == now_ms,
        final(tm).current() == old(tm).current(),
        final(tm).is_running() == old(tm).is_running(),
        final(tm).inner.halted == old(tm).inner.halted,
        final(tm).inner.task_switch_timestamp == old(tm).inner.task_switch_timestamp,
        final(tm).inner.kernel_interrupt_triggered == old(tm).inner.kernel_interrupt_triggered,
        final(tm).inner.task_switch_total_time == old(tm).inner.task_switch_total_time,
        final(tm).inner.started == old(tm).inner.started,
        final(tm).num_app == old(tm).num_app,
{
    tm.do_update_current_task_kernel_time(now_ms);
}

/// Attributes the time since the last stamp to the current task's user bucket.
pub fn update_current_task_user_time(tm: &mut TaskManager, now_ms: usize)
    requires
        old(tm).wf(),
        old(tm).inner.started,
        now_ms >= old(tm).inner.system_time_stamp,
    ensures
        final(tm).wf(),
        final(tm).tasks() == add_user_time(
            old(tm).tasks(),
            old(tm).current(),
            now_ms - old(tm).inner.system_time_stamp,
        ),
        final(tm).inner.system_time_stamp == now_ms,
        final(tm).current() == old(tm).current(),
        final(tm).is_running() == old(tm).is_running(),
        final(tm).inner.halted == old(tm).inner.halted,
        final(tm).inner.task_switch_timestamp == old(tm).inner.task_switch_timestamp,
        final(tm).inner.kernel_interrupt_triggered == old(tm).inner.kernel_interrupt_triggered,
        final(tm).inner.task_switch_total_time == old(tm).inner.task_switch_total_time,
        final(tm).inner.started == old(tm).inner.started,
        final(tm).num_app == old(tm).num_app,
{
    tm.do_update_current_task_user_time(now_ms);
}

/// No task has exited or is unstarted: each is `Ready`, or `Running` as `cur`.
pub open spec fn all_alive(tasks: Seq<TaskControlBlock>, cur: int) -> bool {
    forall|i: int|
        0 <= i < tasks.len() ==> (#[trigger] tasks[i]).task_status == TaskStatus::Ready || (i == cur
            && tasks[i].task_status == TaskStatus::Running)
}

/// Round robin, one step: while no task has exited, suspending the running
/// task `cur` hands the processor to task `cur + 1` (modulo the task count),
/// and afterwards still no task has exited.
pub proof fn lemma_round_robin_step(tasks: Seq<TaskControlBlock>, cur: int)
    requires
        0 <= cur < tasks.len(),
        all_alive(tasks, cur),
    ensures
        next_ready(with_status(tasks, cur, TaskStatus::Ready), cur) == Some(
            circular(cur, 1, tasks.len() as int),
        ),
        all_alive(
            with_status(
                with_status(tasks, cur, TaskStatus::Ready),
                circular(cur, 1, tasks.len() as int),
                TaskStatus::Running,
            ),
            circular(cur, 1, tasks.len() as int),
        ),
{
    let n = tasks.len() as int;
    let t = with_status(tasks, cur, TaskStatus::Ready);
    lemma_circular_step(cur, 0, n);
    lemma_circular_step(cur, 1, n);
    lemma_with_status(tasks, cur, TaskStatus::Ready);
    lemma_with_status(t, circular(cur, 1, n), TaskStatus::Running);
}

/// Task `i` is picked at one of the `n` suspensions that follow `cur`.
pub open spec fn sweep_reaches(cur: int, n: int, i: int) -> bool {
    exists|k: int| 1 <= k <= n && #[trigger] circular(cur, k, n) == i
}

/// Round robin, a whole sweep: while no task exits, the task picked at the
/// `k`-th suspension after `cur` is `cur + k` modulo `n`, so the `n`
/// suspensions of a sweep pick every task exactly once, in increasing id
/// order modulo `n`.
pub proof fn lemma_round_robin_sweep(cur: int, n: int)
    requires
        0 <= cur < n,
    ensures
        forall|k: int| 0 <= k ==> circular(#[trigger] circular(cur, k, n), 1, n) == circular(cur, k + 1, n),
        forall|i: int| 0 <= i < n ==> #[trigger] sweep_reaches(cur, n, i),
        forall|k1: int, k2: int|
            1 <= k1 < k2 <= n ==> #[trigger] circular(cur, k1, n) != #[trigger] circular(cur, k2, n),
{
    assert forall|k: int| 0 <= k implies circular(#[trigger] circular(cur, k, n), 1, n) == circular(
        cur,
        k + 1,
        n,
    ) by {
        let c = circular(cur, k, n);
        lemma_circular_step(cur, k, n);
        lemma_circular_step(c, 0, n);
        vstd::arithmetic::div_mod::lemma_small_mod(c as nat, n as nat);
    }
    assert forall|i: int| 0 <= i < n implies #[trigger] sweep_reaches(cur, n, i) by {
        let k = lemma_circular_covers(cur, n, i);
    }
    assert forall|k1: int, k2: int| 1 <= k1 < k2 <= n implies #[trigger] circular(cur, k1, n)
        != #[trigger] circular(cur, k2, n) by {
        vstd::arithmetic::div_mod::lemma_fundamental_div_mod(cur + k1, n);
        vstd::arithmetic::div_mod::lemma_fundamental_div_mod(cur + k2, n);
        let q1 = (cur + k1) / n;
        let q2 = (cur + k2) / n;
        if circular(cur, k1, n) == circular(cur, k2, n) {
            assert(k2 - k1 == n * (q2 - q1)) by (nonlinear_arith)
                requires
                    cur + k1 == n * q1 + circular(cur, k1, n),
                    cur + k2 == n * q2 + circular(cur, k1, n),
            ;
            assert(false) by (nonlinear_arith)
                requires
                    k2 - k1 == n * (q2 - q1),
                    0 < k2 - k1 < n,
            ;
        }
    }
}

/// Time conservation: the kernel and user time of all tasks add up to the
/// time elapsed since the first task started, so no task's share exceeds it,
/// and a task that runs alone is charged exactly the elapsed time.
pub proof fn lemma_time_partition(tm: &TaskManager)
    requires
        tm.wf(),
    ensures
        total_time(tm.tasks()) == tm.inner.system_time_stamp - tm.inner.boot_time@,
        forall|i: int|
            0 <= i < tm.tasks().len() ==> (#[trigger] tm.tasks()[i]).kernel_time + tm.tasks()[i].user_time
                <= tm.elapsed(),
        tm.tasks().len() == 1 ==> tm.tasks()[0].kernel_time + tm.tasks()[0].user_time == tm.elapsed(),
{
    if tm.tasks().len() == 1 {
        let t = tm.tasks();
        assert(total_time(t.drop_last()) == 0);
        assert(t.last() == t[0]);
        assert(total_time(t) == total_time(t.drop_last()) + t.last().kernel_time + t.last().user_time);
    }
    assert forall|i: int| 0 <= i < tm.tasks().len() implies (#[trigger] tm.tasks()[i]).kernel_time
        + tm.tasks()[i].user_time <= tm.elapsed() by {
        lemma_total_bounds(tm.tasks(), i);
    }
}

/// `Exited` is absorbing: the round-robin choice never picks an exited task.
pub proof fn lemma_exited_never_selected(tasks: Seq<TaskControlBlock>, cur: int, i: int)
    requires
        0 <= cur,
        0 <= i < tasks.len(),
        tasks[i].task_status == TaskStatus::Exited,
    ensures
        next_ready(tasks, cur) != Some(i),
{
    if next_ready(tasks, cur) is Some {
        lemma_first_ready_some(tasks, cur, 1);
    }
}

/// After the power-down decision every task has exited, nothing is left to
/// pick, and the manager is neither running a task nor between two: no
/// scheduling operation, which all need one of those states, can follow.
pub proof fn lemma_shutdown_is_final(tm: &TaskManager)
    requires
        tm.wf(),
        tm.inner.halted,
    ensures
        forall|i: int|
            0 <= i < tm.tasks().len() ==> (#[trigger] tm.tasks()[i]).task_status == TaskStatus::Exited,
        next_ready(tm.tasks(), tm.current()) is None,
        !tm.is_running(),
        !tm.is_between(),
{
    if next_ready(tm.tasks(), tm.current()) is Some {
        lemma_first_ready_some(tm.tasks(), tm.current(), 1);
    }
    assert(tm.tasks()[tm.current()].task_status == TaskStatus::Exited);
}

/// Kernel plus user time charged to task `i`.
pub open spec fn share(tasks: Seq<TaskControlBlock>, i: int) -> int {
    tasks[i].kernel_time + tasks[i].user_time
}

/// Time conservation per task: charging `gap` milliseconds to the current
/// task `c`, as the kernel- and user-time updates do, grows `c`'s share by
/// exactly `gap` and leaves every other share as it was; a status change, as
/// scheduling makes, leaves every share as it was. So a task's share at exit
/// is the time during which it was the current task.
pub proof fn lemma_share_per_task(
    tasks: Seq<TaskControlBlock>,
    c: int,
    gap: int,
    i: int,
    s: TaskStatus,
)
    requires
        0 <= c < tasks.len(),
        0 <= i < tasks.len(),
        0 <= gap,
        tasks[c].kernel_time + gap <= usize::MAX,
        tasks[c].user_time + gap <= usize::MAX,
    ensures
        share(add_kernel_time(tasks, c, gap), i) == share(tasks, i) + (if i == c { gap } else { 0 }),
        share(add_user_time(tasks, c, gap), i) == share(tasks, i) + (if i == c { gap } else { 0 }),
        share(with_status(tasks, c, s), i) == share(tasks, i),
{
}

} // verus!
