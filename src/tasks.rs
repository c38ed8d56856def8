use std::collections::{HashMap, VecDeque};
use vstd::prelude::*;

verus! {

/// Opaque handle of a registered task.
pub type TaskId = i32;

/// Work that the scheduler can hold. `V` stands for a reference to a value
/// of the script engine, which the scheduler only carries.
#[derive(Debug, Clone, PartialEq, Eq)]
pub enum Task<V> {
    /// Fires once, `timeout` milliseconds after it was armed.
    Once { timeout: u32, callback: TaskId },
    /// Fires every `interval` milliseconds until it is cancelled.
    Periodic { interval: u32, callback: TaskId },
    /// Source text for the engine to compile and run.
    Script { source: String },
    /// A function of the engine, to be applied to `args` in order.
    CallBack { value: V, args: Vec<V> },
}

/// Every registered task, keyed by an identifier that is issued once.
pub struct TasksTable<V> {
    table: HashMap<TaskId, Task<V>>,
    next_id: i32,
}

impl<V> TasksTable<V> {
    /// The registered tasks.
    pub closed spec fn tasks(&self) -> Map<TaskId, Task<V>> {
        self.table@
    }

    /// The last identifier issued (0 before the first one).
    pub closed spec fn issued(&self) -> int {
        self.next_id as int
    }

    /// Identifiers are issued from 1 upwards, and each registered task holds
    /// one that was issued already.
    pub closed spec fn wf(&self) -> bool {
        &&& 0 <= self.next_id
        &&& forall|k: TaskId| #[trigger] self.table@.contains_key(k) ==> 0 < k <= self.next_id
    }

    /// What well-formedness says of the model.
    pub proof fn lemma_wf(&self)
        requires
            self.wf(),
        ensures
            0 <= self.issued(),
            forall|k: TaskId| #[trigger] self.tasks().contains_key(k) ==> 0 < k <= self.issued(),
    {
    }

    /// An empty table that has issued nothing.
    pub fn new() -> (r: Self)
        ensures
            r.wf(),
            r.tasks() == Map::<TaskId, Task<V>>::empty(),
            r.issued() == 0,
    {
        TasksTable { table: HashMap::new(), next_id: 0 }
    }

    /// The number of identifiers that can still be issued.
    pub fn ids_left(&self) -> (r: u32)
        requires
            self.wf(),
        ensures
            r == i32::MAX - self.issued(),
    {
        (i32::MAX - self.next_id) as u32
    }

    /// Inserts `task` under a fresh identifier and returns it.
    pub fn register(&mut self, task: Task<V>) -> (r: TaskId)
        requires
            old(self).wf(),
            old(self).issued() < i32::MAX,
        ensures
            final(self).wf(),
            r == old(self).issued() + 1,
            final(self).issued() == r,
            !old(self).tasks().contains_key(r),
            final(self).tasks() == old(self).tasks().insert(r, task),
    {
        broadcast use vstd::std_specs::hash::group_hash_axioms;
        self.next_id = self.next_id + 1;
        let id = self.next_id;
        self.table.insert(id, task);
        id
    }

    /// Removes the task under `task_id` and hands it back; an absent
    /// identifier changes nothing.
    pub fn unregister(&mut self, task_id: &TaskId) -> (r: Option<Task<V>>)
        requires
            old(self).wf(),
        ensures
            final(self).wf(),
            final(self).issued() == old(self).issued(),
            final(self).tasks() == old(self).tasks().remove(*task_id),
            r == old(self).tasks().get(*task_id),
    {
        broadcast use vstd::std_specs::hash::group_hash_axioms;
        let r = self.table.remove(task_id);
        r
    }

    /// The task under `task_id`, if it is registered.
    pub fn get(&self, task_id: &TaskId) -> (r: Option<&Task<V>>)
        ensures
            match r {
                Some(t) => self.tasks().contains_key(*task_id) && *t == self.tasks()[*task_id],
                None => !self.tasks().contains_key(*task_id),
            },
    {
        broadcast use vstd::std_specs::hash::group_hash_axioms;
        self.table.get(task_id)
    }

    /// Whether a task is registered under `task_id`.
    pub fn contains(&self, task_id: &TaskId) -> (r: bool)
        ensures
            r == self.tasks().contains_key(*task_id),
    {
        broadcast use vstd::std_specs::hash::group_hash_axioms;
        self.table.contains_key(task_id)
    }
}

/// A first-in, first-out queue of ready identifiers.
pub struct TasksQueue<T = TaskId>(pub(crate) VecDeque<T>);

impl<T> View for TasksQueue<T> {
    type V = Seq<T>;

    closed spec fn view(&self) -> Seq<T> {
        self.0@
    }
}

impl<T> TasksQueue<T> {
    /// An empty queue.
    pub fn new() -> (r: Self)
        ensures
            r@ == Seq::<T>::empty(),
    {
        TasksQueue(VecDeque::new())
    }

    /// Puts `item` at the back of the queue.
    pub fn enqueue(&mut self, item: T)
        ensures
            final(self)@ == old(self)@.push(item),
    {
        self.0.push_back(item);
    }

    /// Takes the item at the front of the queue, if there is one.
    pub fn dequeue(&mut self) -> (r: Option<T>)
        ensures
            old(self)@.len() == 0 ==> r is None && final(self)@ == old(self)@,
            old(self)@.len() > 0 ==> r == Some(old(self)@[0]) && final(self)@ == old(self)@.drop_first(),
    {
        let r = self.0.pop_front();
        proof {
            if old(self)@.len() > 0 {
                assert(self@ =~= old(self)@.drop_first());
            }
        }
        r
    }

    /// The number of queued items.
    pub fn len(&self) -> (r: usize)
        ensures
            r == self@.len(),
    {
        self.0.len()
    }
}

} // verus!
