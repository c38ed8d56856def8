//! Properties of the event loop's decisions, stated over the model of the
//! scheduler and proved from it.
use vstd::prelude::*;

use crate::scheduler::{
    expire_spec, forget_spec, next_spec, pending, register_spec, schedule_spec, valid, LoopState, SchedulingTrategy,
    Step,
};
use crate::tasks::{Task, TaskId};

verus! {

/// When a one-shot timer task comes up, it leaves the table and its callback
/// joins the ready queue, once: should the same identifier come up again, it
/// does nothing.
pub proof fn lemma_once_hands_on_its_callback<V>(s: LoopState<V>, t: TaskId)
    requires
        s.ready.len() > 0,
        s.ready[0] == t,
        s.tasks.contains_key(t),
        s.tasks[t] is Once,
    ensures
        ({
            let (s1, step) = next_spec(s);
            &&& step is Skip
            &&& s1.tasks == s.tasks.remove(t)
            &&& s1.ready == s.ready.drop_first().push(s.tasks[t]->Once_callback)
            &&& s1.timers == s.timers
            &&& forall|s2: LoopState<V>|
                s2.tasks == s1.tasks && s2.ready.len() > 0 && s2.ready[0] == t
                    ==> #[trigger] next_spec(s2).1 is Skip && next_spec(s2).0.tasks == s2.tasks
        }),
{
}

/// Every decision of the loop keeps the state valid.
pub proof fn lemma_next_keeps_valid<V>(s: LoopState<V>)
    requires
        valid(s),
    ensures
        valid(next_spec(s).0),
{
}

/// A one-shot timer that is scheduled, expires and is not cancelled hands
/// its callback out exactly once: the next two decisions pass the timer on
/// and hand out the callback, after which neither identifier is registered
/// (so a later arrival of either does nothing) and the table is as before.
pub proof fn lemma_once_runs_callback_exactly_once<V>(
    s: LoopState<V>,
    value: V,
    args: Vec<V>,
    timeout: u32,
)
    requires
        valid(s),
        s.ready.len() == 0,
        s.issued + 2 <= i32::MAX,
    ensures
        ({
            let c = (s.issued + 1) as TaskId;
            let t = (s.issued + 2) as TaskId;
            let callback = Task::CallBack { value, args };
            let s1 = expire_spec(schedule_spec(s, callback, SchedulingTrategy::Once(timeout)), t);
            let (s2, first) = next_spec(s1);
            let (s3, second) = next_spec(s2);
            &&& first is Skip
            &&& second == (Step::Call { value, args })
            &&& !s3.tasks.contains_key(t)
            &&& !s3.tasks.contains_key(c)
            &&& s3.tasks == s.tasks
            &&& s3.ready.len() == 0
            &&& s3.timers == s.timers
        }),
{
    let c = (s.issued + 1) as TaskId;
    let t = (s.issued + 2) as TaskId;
    let callback = Task::CallBack { value, args };
    let s0 = schedule_spec(s, callback, SchedulingTrategy::Once(timeout));
    let s1 = expire_spec(s0, t);
    assert(s1.ready =~= seq![t]);
    let s2 = next_spec(s1).0;
    assert(s2.ready =~= seq![c]);
    assert(!s.repeating.contains(c));
    let s3 = next_spec(s2).0;
    assert(s3.ready =~= Seq::<TaskId>::empty());
    assert(!s.tasks.contains_key(c));
    assert(!s.tasks.contains_key(t));
    assert(s3.tasks =~= s.tasks);
}

/// The identifier `t` was issued and is no longer registered: it fired as a
/// one-shot task or was cancelled.
pub open spec fn gone<V>(s: LoopState<V>, t: TaskId) -> bool {
    0 < t <= s.issued && !s.tasks.contains_key(t)
}

/// An identifier that is gone stays gone, whatever the scheduler does next
/// (identifiers are never issued twice), and each claim of it that comes up
/// in the ready queue is dropped with nothing else changed. So a task
/// cancelled before it came up never runs, a fired one-shot task never runs
/// again, and a cancelled periodic timer is never started again.
pub proof fn lemma_gone_stays_gone<V>(
    s: LoopState<V>,
    t: TaskId,
    id: TaskId,
    task: Task<V>,
    callback: Task<V>,
    strategy: SchedulingTrategy,
)
    requires
        valid(s),
        gone(s, t),
    ensures
        gone(next_spec(s).0, t),
        gone(forget_spec(s, id), t),
        gone(expire_spec(s, id), t),
        s.issued < i32::MAX ==> gone(register_spec(s, task), t),
        s.issued + 2 <= i32::MAX ==> gone(schedule_spec(s, callback, strategy), t),
        s.ready.len() > 0 && s.ready[0] == t ==> next_spec(s).1 is Skip
            && next_spec(s).0.tasks == s.tasks,
{
}

/// A registered periodic timer task and the callback it keeps stay as they
/// are, whatever the scheduler does next, until one of them is cancelled:
/// each time the timer comes up it is started again and queues its callback,
/// and each time the callback comes up it is handed out and kept.
pub proof fn lemma_periodic_timer_persists<V>(
    s: LoopState<V>,
    p: TaskId,
    id: TaskId,
    task: Task<V>,
    callback: Task<V>,
    strategy: SchedulingTrategy,
)
    requires
        valid(s),
        s.tasks.contains_key(p),
        s.tasks[p] is Periodic,
        s.tasks.contains_key(s.tasks[p]->Periodic_callback),
        s.tasks[s.tasks[p]->Periodic_callback] is CallBack,
        s.repeating.contains(s.tasks[p]->Periodic_callback),
    ensures
        ({
            let c = s.tasks[p]->Periodic_callback;
            let keeps = |s1: LoopState<V>|
                s1.tasks.contains_key(p) && s1.tasks[p] == s.tasks[p] && s1.tasks.contains_key(c)
                    && s1.tasks[c] == s.tasks[c] && s1.repeating.contains(c);
            &&& keeps(next_spec(s).0)
            &&& keeps(expire_spec(s, id))
            &&& id != p && id != c ==> keeps(forget_spec(s, id))
            &&& s.issued < i32::MAX ==> keeps(register_spec(s, task))
            &&& s.issued + 2 <= i32::MAX ==> keeps(schedule_spec(s, callback, strategy))
            &&& s.ready.len() > 0 && s.ready[0] == p ==> next_spec(s).1 == (Step::<V>::Arm {
                id: p,
                delay: s.tasks[p]->Periodic_interval,
            }) && next_spec(s).0.ready == s.ready.drop_first().push(c)
            &&& s.ready.len() > 0 && s.ready[0] == c ==> next_spec(s).1 == (Step::<V>::CallRegistered {
                id: c,
            })
        }),
{
}

/// Registering a periodic timer task by hand marks its callback to be kept,
/// as scheduling one does.
pub proof fn lemma_registered_periodic_keeps_callback<V>(s: LoopState<V>, interval: u32, c: TaskId)
    ensures
        register_spec(s, Task::<V>::Periodic { interval, callback: c }).repeating.contains(c),
{
}

/// A callback that belongs to no periodic timer runs at most once: when it
/// comes up it is handed out and leaves the table, so a later arrival of its
/// identifier does nothing.
pub proof fn lemma_one_shot_callback_runs_once<V>(s: LoopState<V>, c: TaskId)
    requires
        s.ready.len() > 0,
        s.ready[0] == c,
        s.tasks.contains_key(c),
        s.tasks[c] is CallBack,
        !s.repeating.contains(c),
    ensures
        ({
            let (s1, step) = next_spec(s);
            &&& step == (Step::Call {
                value: s.tasks[c]->CallBack_value,
                args: s.tasks[c]->CallBack_args,
            })
            &&& s1.tasks == s.tasks.remove(c)
            &&& forall|s2: LoopState<V>|
                s2.tasks == s1.tasks && s2.ready.len() > 0 && s2.ready[0] == c
                    ==> #[trigger] next_spec(s2).1 is Skip
        }),
{
}

/// A task cancelled after its identifier was queued but before it came up
/// does nothing when it comes up: the identifier is dropped and the rest of
/// the state is left as it was.
pub proof fn lemma_cancelled_task_is_skipped<V>(s: LoopState<V>, id: TaskId)
    requires
        s.ready.len() > 0,
        s.ready[0] == id,
    ensures
        ({
            let f = forget_spec(s, id);
            next_spec(f) == (LoopState { ready: s.ready.drop_first(), checkpoint_due: true, ..f }, Step::<V>::Skip)
        }),
{
}

/// A timer scheduled and then cancelled before it came up never hands its
/// callback on: once the timer has expired and its identifier comes up,
/// nothing is queued and nothing runs.
pub proof fn lemma_cancelled_timer_never_fires<V>(
    s: LoopState<V>,
    callback: Task<V>,
    strategy: SchedulingTrategy,
)
    requires
        s.ready.len() == 0,
        0 <= s.issued,
        s.issued + 2 <= i32::MAX,
    ensures
        ({
            let t = (s.issued + 2) as TaskId;
            let s1 = expire_spec(forget_spec(schedule_spec(s, callback, strategy), t), t);
            let (s2, step) = next_spec(s1);
            &&& step is Skip
            &&& s2.ready.len() == 0
            &&& s2.timers == s.timers
            &&& !s2.tasks.contains_key(t)
        }),
{
    let t = (s.issued + 2) as TaskId;
    let s1 = expire_spec(forget_spec(schedule_spec(s, callback, strategy), t), t);
    assert(s1.ready =~= seq![t]);
    assert(s1.ready.drop_first() =~= Seq::<TaskId>::empty());
}

/// When a periodic timer task comes up, it stays registered, its callback
/// joins the ready queue and the timer starts again with the same interval.
pub proof fn lemma_periodic_rearms<V>(s: LoopState<V>, p: TaskId)
    requires
        s.ready.len() > 0,
        s.ready[0] == p,
        s.tasks.contains_key(p),
        s.tasks[p] is Periodic,
    ensures
        ({
            let (s1, step) = next_spec(s);
            &&& step == (Step::<V>::Arm { id: p, delay: s.tasks[p]->Periodic_interval })
            &&& s1.tasks == s.tasks
            &&& s1.ready == s.ready.drop_first().push(s.tasks[p]->Periodic_callback)
            &&& s1.timers == s.timers + 1
        }),
{
}

/// The callback of a periodic timer stays registered when it runs, so it
/// runs again at the timer's next expiry.
pub proof fn lemma_repeating_callback_is_kept<V>(s: LoopState<V>, c: TaskId)
    requires
        s.ready.len() > 0,
        s.ready[0] == c,
        s.tasks.contains_key(c),
        s.tasks[c] is CallBack,
        s.repeating.contains(c),
    ensures
        next_spec(s).1 == (Step::<V>::CallRegistered { id: c }),
        next_spec(s).0.tasks == s.tasks,
{
}

/// Each expiry of a periodic timer that is not cancelled runs its callback
/// once and starts the timer again: after the two decisions that follow the
/// expiry, the state is the one right after scheduling (the microtasks aside),
/// so the same happens at every later expiry.
pub proof fn lemma_periodic_cycle_repeats<V>(
    s: LoopState<V>,
    value: V,
    args: Vec<V>,
    interval: u32,
)
    requires
        valid(s),
        s.ready.len() == 0,
        s.issued + 2 <= i32::MAX,
    ensures
        ({
            let c = (s.issued + 1) as TaskId;
            let p = (s.issued + 2) as TaskId;
            let callback = Task::CallBack { value, args };
            let s0 = schedule_spec(s, callback, SchedulingTrategy::Periodic(interval));
            let (s1, first) = next_spec(expire_spec(s0, p));
            let (s2, second) = next_spec(s1);
            &&& first == (Step::<V>::Arm { id: p, delay: interval })
            &&& second == (Step::<V>::CallRegistered { id: c })
            &&& s2.tasks[c] == callback
            &&& s2 == (LoopState { checkpoint_due: true, ..s0 })
        }),
{
    let c = (s.issued + 1) as TaskId;
    let p = (s.issued + 2) as TaskId;
    let callback = Task::CallBack { value, args };
    let s0 = schedule_spec(s, callback, SchedulingTrategy::Periodic(interval));
    let e = expire_spec(s0, p);
    assert(e.ready =~= seq![p]);
    let s1 = next_spec(e).0;
    assert(s1.ready =~= seq![c]);
    let s2 = next_spec(s1).0;
    assert(s2.ready =~= s0.ready);
}

/// The loop ends exactly when nothing is ready, no timer is counting down
/// and the microtasks have been flushed since the last work: in particular
/// never while a timer is running.
pub proof fn lemma_loop_ends_only_without_work<V>(s: LoopState<V>)
    ensures
        next_spec(s).1 is Done <==> !pending(s) && !s.checkpoint_due,
        s.timers > 0 ==> !(next_spec(s).1 is Done),
{
}

/// Cancelling an identifier that is not registered (never issued, already
/// fired or already cancelled) leaves the state as it was.
pub proof fn lemma_forget_absent_is_noop<V>(s: LoopState<V>, id: TaskId)
    requires
        !s.tasks.contains_key(id),
    ensures
        forget_spec(s, id) == s,
{
    assert(s.tasks.remove(id) =~= s.tasks);
}

} // verus!
