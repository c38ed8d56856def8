use std::collections::HashSet;
use vstd::prelude::*;

use crate::tasks::{Task, TaskId, TasksQueue, TasksTable};

verus! {

/// How a callback is to be timed.
#[derive(Debug, Clone, Copy, PartialEq, Eq)]
pub enum SchedulingTrategy {
    /// Once, after the given number of milliseconds.
    Once(u32),
    /// Every given number of milliseconds, until cancelled.
    Periodic(u32),
}

/// What the host must do next on the execution thread.
#[derive(Debug, Clone, PartialEq, Eq)]
pub enum Step<V> {
    /// An identifier was taken from the ready queue and needs no work from the host.
    Skip,
    /// A periodic timer fired: start a timer for `id` that expires after `delay` milliseconds.
    Arm { id: TaskId, delay: u32 },
    /// Apply `value` to `args` in order; the callback has left the table.
    Call { value: V, args: Vec<V> },
    /// Apply the callback registered under `id`, which stays registered for its periodic timer.
    CallRegistered { id: TaskId },
    /// Compile and run `source`.
    Run { source: String },
    /// The ready queue ran dry after some work: flush the engine's microtasks.
    Checkpoint,
    /// Nothing is ready, but timers are still counting down: wait for one to expire.
    Wait,
    /// No work can come any more: the loop ends.
    Done,
}

/// The scheduler as a mathematical value.
pub ghost struct LoopState<V> {
    /// The task table.
    pub tasks: Map<TaskId, Task<V>>,
    /// The last identifier issued.
    pub issued: int,
    /// The ready queue, front first.
    pub ready: Seq<TaskId>,
    /// Timers still counting down.
    pub timers: nat,
    /// Callbacks that belong to a periodic timer and are kept after they run.
    pub repeating: Set<TaskId>,
    /// Whether work was done since the last microtask checkpoint.
    pub checkpoint_due: bool,
}

/// Identifiers in the table, and callbacks kept for periodic timers, were
/// issued already: so every identifier issued later is fresh.
pub open spec fn valid<V>(s: LoopState<V>) -> bool {
    &&& 0 <= s.issued
    &&& forall|k: TaskId| #[trigger] s.tasks.contains_key(k) ==> 0 < k <= s.issued
    &&& forall|k: TaskId| #[trigger] s.repeating.contains(k) ==> 0 < k <= s.issued
}

/// Whether anything is ready or still on its way.
pub open spec fn pending<V>(s: LoopState<V>) -> bool {
    s.ready.len() > 0 || s.timers > 0
}

/// The state after `task` was registered under the next identifier; the
/// callback of a periodic timer task is kept when it runs.
pub open spec fn register_spec<V>(s: LoopState<V>, task: Task<V>) -> LoopState<V> {
    LoopState {
        tasks: s.tasks.insert((s.issued + 1) as TaskId, task),
        issued: s.issued + 1,
        repeating: if task is Periodic {
            s.repeating.insert(task->Periodic_callback)
        } else {
            s.repeating
        },
        ..s
    }
}

/// The state after the task under `id` was cancelled.
pub open spec fn forget_spec<V>(s: LoopState<V>, id: TaskId) -> LoopState<V> {
    LoopState { tasks: s.tasks.remove(id), ..s }
}

/// The state after a timer for `id` expired and delivered it.
pub open spec fn expire_spec<V>(s: LoopState<V>, id: TaskId) -> LoopState<V> {
    LoopState { ready: s.ready.push(id), timers: (s.timers - 1) as nat, ..s }
}

/// The timer task that `strategy` makes for the callback under `callback`.
pub open spec fn timer_task<V>(strategy: SchedulingTrategy, callback: TaskId) -> Task<V> {
    match strategy {
        SchedulingTrategy::Once(timeout) => Task::Once { timeout, callback },
        SchedulingTrategy::Periodic(interval) => Task::Periodic { interval, callback },
    }
}

/// The state after `callback` was registered under the next identifier, a
/// timer task for it under the one after, and that timer started.
pub open spec fn schedule_spec<V>(
    s: LoopState<V>,
    callback: Task<V>,
    strategy: SchedulingTrategy,
) -> LoopState<V> {
    let c = (s.issued + 1) as TaskId;
    let t = (s.issued + 2) as TaskId;
    LoopState {
        tasks: s.tasks.insert(c, callback).insert(t, timer_task(strategy, c)),
        issued: s.issued + 2,
        timers: s.timers + 1,
        repeating: if strategy is Periodic {
            s.repeating.insert(c)
        } else {
            s.repeating
        },
        ..s
    }
}

/// Dispatch of the identifier `id`, just taken from the ready queue, in state `s`
/// (where it is no longer queued).
pub open spec fn dispatch_spec<V>(s: LoopState<V>, id: TaskId) -> (LoopState<V>, Step<V>) {
    if !s.tasks.contains_key(id) {
        (s, Step::Skip)
    } else {
        match s.tasks[id] {
            Task::Once { timeout, callback } => (
                LoopState { tasks: s.tasks.remove(id), ready: s.ready.push(callback), ..s },
                Step::Skip,
            ),
            Task::Periodic { interval, callback } => (
                LoopState { ready: s.ready.push(callback), timers: s.timers + 1, ..s },
                Step::Arm { id, delay: interval },
            ),
            Task::Script { source } => (
                LoopState { tasks: s.tasks.remove(id), ..s },
                Step::Run { source },
            ),
            Task::CallBack { value, args } => if s.repeating.contains(id) {
                (s, Step::CallRegistered { id })
            } else {
                (LoopState { tasks: s.tasks.remove(id), ..s }, Step::Call { value, args })
            },
        }
    }
}

/// One decision of the event loop: drain the ready queue one identifier at a
/// time, flush microtasks when it runs dry, then wait while timers are
/// counting down, and end only when no work can come.
pub open spec fn next_spec<V>(s: LoopState<V>) -> (LoopState<V>, Step<V>) {
    if s.ready.len() > 0 {
        dispatch_spec(
            LoopState { ready: s.ready.drop_first(), checkpoint_due: true, ..s },
            s.ready[0],
        )
    } else if s.checkpoint_due {
        (LoopState { checkpoint_due: false, ..s }, Step::Checkpoint)
    } else if s.timers > 0 {
        (s, Step::Wait)
    } else {
        (s, Step::Done)
    }
}

/// The task table, the ready queue and the count of running timers, with
/// the decisions of the event loop that drains them.
pub struct Scheduler<V> {
    tasks_table: TasksTable<V>,
    tasks_queue: TasksQueue<TaskId>,
    active_timers: u64,
    repeating: HashSet<TaskId>,
    checkpoint_due: bool,
}

impl<V> Scheduler<V> {
    /// The scheduler as a mathematical value.
    pub closed spec fn state(&self) -> LoopState<V> {
        LoopState {
            tasks: self.tasks_table.tasks(),
            issued: self.tasks_table.issued(),
            ready: self.tasks_queue@,
            timers: self.active_timers as nat,
            repeating: self.repeating@,
            checkpoint_due: self.checkpoint_due,
        }
    }

    /// The table is well formed and every kept callback was issued already.
    pub closed spec fn wf(&self) -> bool {
        &&& self.tasks_table.wf()
        &&& forall|k: TaskId| #[trigger] self.repeating@.contains(k) ==> 0 < k <= self.tasks_table.issued()
    }

    /// A well-formed scheduler is in a valid state.
    pub proof fn lemma_valid(&self)
        requires
            self.wf(),
        ensures
            valid(self.state()),
    {
        self.tasks_table.lemma_wf();
    }

    /// A scheduler with no task, nothing ready and no timer.
    pub fn new() -> (r: Self)
        ensures
            r.wf(),
            r.state() == (LoopState::<V> {
                tasks: Map::empty(),
                issued: 0,
                ready: Seq::empty(),
                timers: 0,
                repeating: Set::empty(),
                checkpoint_due: false,
            }),
    {
        Scheduler {
            tasks_table: TasksTable::new(),
            tasks_queue: TasksQueue::new(),
            active_timers: 0,
            repeating: HashSet::new(),
            checkpoint_due: false,
        }
    }

    /// The number of timers still counting down.
    pub fn active_timers(&self) -> (r: u64)
        ensures
            r == self.state().timers,
    {
        self.active_timers
    }

    /// The number of identifiers that can still be issued.
    pub fn ids_left(&self) -> (r: u32)
        requires
            self.wf(),
        ensures
            r == i32::MAX - self.state().issued,
    {
        self.tasks_table.ids_left()
    }

    /// The task registered under `task_id`, if any.
    pub fn task(&self, task_id: TaskId) -> (r: Option<&Task<V>>)
        ensures
            match r {
                Some(t) => self.state().tasks.contains_key(task_id) && *t == self.state().tasks[task_id],
                None => !self.state().tasks.contains_key(task_id),
            },
    {
        self.tasks_table.get(&task_id)
    }

    /// Whether a task is registered under `task_id`.
    pub fn contains(&self, task_id: TaskId) -> (r: bool)
        ensures
            r == self.state().tasks.contains_key(task_id),
    {
        self.tasks_table.contains(&task_id)
    }

    /// Registers `task` under a fresh identifier, which it returns; nothing
    /// is queued or armed. The callback of a periodic timer task is marked
    /// to be kept when it runs.
    pub fn register(&mut self, task: Task<V>) -> (r: TaskId)
        requires
            old(self).wf(),
            old(self).state().issued < i32::MAX,
            task is Periodic ==> 0 < task->Periodic_callback <= old(self).state().issued,
        ensures
            final(self).wf(),
            r == old(self).state().issued + 1,
            !old(self).state().tasks.contains_key(r),
            final(self).state() == register_spec(old(self).state(), task),
    {
        broadcast use vstd::std_specs::hash::group_hash_axioms;
        let kept = match &task {
            Task::Periodic { callback, .. } => Some(*callback),
            _ => None,
        };
        let id = self.tasks_table.register(task);
        if let Some(callback) = kept {
            self.repeating.insert(callback);
        }
        proof {
            assert forall|k: TaskId| #[trigger] self.repeating@.contains(k) implies 0 < k
                <= self.tasks_table.issued() by {
                old(self).tasks_table.lemma_wf();
                if kept != Some(k) {
                    assert(old(self).repeating@.contains(k));
                }
            }
        }
        id
    }

    /// Registers `callback` and a timer task for it, and counts that timer
    /// as running. Returns the timer task's identifier: the host starts a
    /// timer for it that expires after the strategy's delay.
    pub fn schedule(&mut self, callback: Task<V>, strategy: SchedulingTrategy) -> (r: TaskId)
        requires
            old(self).wf(),
            old(self).state().issued + 2 <= i32::MAX,
            old(self).state().timers < u64::MAX,
            callback is CallBack,
        ensures
            final(self).wf(),
            r == old(self).state().issued + 2,
            !old(self).state().tasks.contains_key(r),
            !old(self).state().tasks.contains_key((r - 1) as TaskId),
            final(self).state() == schedule_spec(old(self).state(), callback, strategy),
    {
        broadcast use vstd::std_specs::hash::group_hash_axioms;
        let periodic = match strategy {
            SchedulingTrategy::Periodic(_) => true,
            SchedulingTrategy::Once(_) => false,
        };
        let callback_id = self.tasks_table.register(callback);
        let timer = match strategy {
            SchedulingTrategy::Once(timeout) => Task::Once { timeout, callback: callback_id },
            SchedulingTrategy::Periodic(interval) => Task::Periodic { interval, callback: callback_id },
        };
        let id = self.tasks_table.register(timer);
        if periodic {
            self.repeating.insert(callback_id);
        }
        proof {
            assert forall|k: TaskId| #[trigger] self.repeating@.contains(k) implies 0 < k
                <= self.tasks_table.issued() by {
                old(self).tasks_table.lemma_wf();
                if k != callback_id {
                    assert(old(self).repeating@.contains(k));
                }
            }
        }
        self.active_timers = self.active_timers + 1;
        id
    }

    /// Schedules `callback` to run once, `timeout` milliseconds from now.
    pub fn schedule_once(&mut self, callback: Task<V>, timeout: u32) -> (r: TaskId)
        requires
            old(self).wf(),
            old(self).state().issued + 2 <= i32::MAX,
            old(self).state().timers < u64::MAX,
            callback is CallBack,
        ensures
            final(self).wf(),
            r == old(self).state().issued + 2,
            !old(self).state().tasks.contains_key(r),
            !old(self).state().tasks.contains_key((r - 1) as TaskId),
            final(self).state() == schedule_spec(old(self).state(), callback, SchedulingTrategy::Once(timeout)),
    {
        self.schedule(callback, SchedulingTrategy::Once(timeout))
    }

    /// Schedules `callback` to run every `interval` milliseconds until the
    /// returned identifier is cancelled.
    pub fn schedule_periodic(&mut self, callback: Task<V>, interval: u32) -> (r: TaskId)
        requires
            old(self).wf(),
            old(self).state().issued + 2 <= i32::MAX,
            old(self).state().timers < u64::MAX,
            callback is CallBack,
        ensures
            final(self).wf(),
            r == old(self).state().issued + 2,
            !old(self).state().tasks.contains_key(r),
            !old(self).state().tasks.contains_key((r - 1) as TaskId),
            final(self).state() == schedule_spec(old(self).state(), callback, SchedulingTrategy::Periodic(interval)),
    {
        self.schedule(callback, SchedulingTrategy::Periodic(interval))
    }

    /// Puts `task_id` at the back of the ready queue.
    pub fn enqueue(&mut self, task_id: TaskId)
        requires
            old(self).wf(),
        ensures
            final(self).wf(),
            final(self).state() == (LoopState { ready: old(self).state().ready.push(task_id), ..old(self).state() }),
    {
        self.tasks_queue.enqueue(task_id);
    }

    /// Cancels the task under `task_id`. An identifier that was never issued,
    /// already fired or already cancelled changes nothing.
    pub fn forget(&mut self, task_id: TaskId)
        requires
            old(self).wf(),
        ensures
            final(self).wf(),
            final(self).state() == forget_spec(old(self).state(), task_id),
    {
        let _ = self.tasks_table.unregister(&task_id);
    }

    /// Whether the loop has work now or later: something is ready, or a timer
    /// is still counting down.
    pub fn has_pending_work(&self) -> (r: bool)
        ensures
            r == pending(self.state()),
    {
        self.tasks_queue.len() > 0 || self.active_timers > 0
    }

    /// A timer for `task_id` expired: its identifier becomes ready and the
    /// timer no longer counts as running.
    pub fn timer_fired(&mut self, task_id: TaskId)
        requires
            old(self).wf(),
            old(self).state().timers > 0,
        ensures
            final(self).wf(),
            final(self).state() == expire_spec(old(self).state(), task_id),
    {
        self.tasks_queue.enqueue(task_id);
        self.active_timers = self.active_timers - 1;
    }

    /// Takes the identifier at the front of the ready queue, if any.
    pub fn fetch_expired_timer(&mut self) -> (r: Option<TaskId>)
        requires
            old(self).wf(),
        ensures
            final(self).wf(),
            old(self).state().ready.len() == 0 ==> r is None && final(self).state() == old(self).state(),
            old(self).state().ready.len() > 0 ==> r == Some(old(self).state().ready[0])
                && final(self).state() == (LoopState {
                    ready: old(self).state().ready.drop_first(),
                    ..old(self).state()
                }),
    {
        self.tasks_queue.dequeue()
    }

    /// Decides the next step of the event loop and makes its changes to the
    /// scheduler; the host then does what the step asks.
    pub fn next_step(&mut self) -> (r: Step<V>)
        requires
            old(self).wf(),
            old(self).state().timers < u64::MAX,
        ensures
            final(self).wf(),
            final(self).state() == next_spec(old(self).state()).0,
            r == next_spec(old(self).state()).1,
    {
        broadcast use vstd::std_specs::hash::group_hash_axioms;
        let task_id = match self.fetch_expired_timer() {
            Some(id) => id,
            None => {
                if self.checkpoint_due {
                    self.checkpoint_due = false;
                    return Step::Checkpoint;
                } else if self.active_timers > 0 {
                    return Step::Wait;
                } else {
                    return Step::Done;
                }
            },
        };
        self.checkpoint_due = true;
        let kept = match self.tasks_table.get(&task_id) {
            None => return Step::Skip,
            Some(Task::Periodic { interval, callback }) => {
                let (delay, callback) = (*interval, *callback);
                self.tasks_queue.enqueue(callback);
                self.active_timers = self.active_timers + 1;
                return Step::Arm { id: task_id, delay };
            },
            Some(Task::CallBack { .. }) => self.repeating.contains(&task_id),
            Some(_) => false,
        };
        if kept {
            return Step::CallRegistered { id: task_id };
        }
        match self.tasks_table.unregister(&task_id) {
            Some(Task::Once { callback, .. }) => {
                self.tasks_queue.enqueue(callback);
                Step::Skip
            },
            Some(Task::Script { source }) => Step::Run { source },
            Some(Task::CallBack { value, args }) => Step::Call { value, args },
            _ => Step::Skip,
        }
    }

    /// The number of identifiers in the ready queue.
    pub fn ready_len(&self) -> (r: usize)
        ensures
            r == self.state().ready.len(),
    {
        self.tasks_queue.len()
    }
}

} // verus!
