use knot::scheduler::{Scheduler, SchedulingTrategy, Step};
use knot::tasks::Task;

fn callback(name: &'static str) -> Task<&'static str> {
    Task::CallBack { value: name, args: vec!["x", "y"] }
}

/// Runs the loop until it waits for a timer or ends, and returns the steps.
fn drain(s: &mut Scheduler<&'static str>) -> Vec<Step<&'static str>> {
    let mut steps = vec![];
    loop {
        let step = s.next_step();
        let stop = matches!(step, Step::Wait | Step::Done);
        steps.push(step);
        if stop {
            return steps;
        }
    }
}

fn calls_of(steps: &[Step<&'static str>], s: &Scheduler<&'static str>, name: &str) -> usize {
    steps
        .iter()
        .filter(|st| match st {
            Step::Call { value, .. } => *value == name,
            Step::CallRegistered { id } => match s.task(*id) {
                Some(Task::CallBack { value, .. }) => *value == name,
                _ => false,
            },
            _ => false,
        })
        .count()
}

#[test]
fn once_fires_its_callback_exactly_once() {
    let mut s = Scheduler::new();
    let t = s.schedule_once(callback("C"), 50);
    assert_eq!(t, 2);
    assert_eq!(drain(&mut s), vec![Step::Wait]);
    // the timer expires after 50 ms
    s.timer_fired(t);
    let steps = drain(&mut s);
    assert_eq!(
        steps,
        vec![
            Step::Skip,
            Step::Call { value: "C", args: vec!["x", "y"] },
            Step::Checkpoint,
            Step::Done,
        ]
    );
    assert!(!s.contains(t));
    assert!(!s.contains(1));
    assert!(!s.has_pending_work());
}

#[test]
fn periodic_fires_every_interval_until_cancelled() {
    let mut s = Scheduler::new();
    let p = s.schedule_periodic(callback("C"), 10);
    let mut calls = 0;
    // 100 ms at an interval of 10 ms
    for _ in 0..10 {
        assert_eq!(s.active_timers(), 1);
        s.timer_fired(p);
        let steps = drain(&mut s);
        assert_eq!(steps[0], Step::Arm { id: p, delay: 10 });
        assert_eq!(*steps.last().unwrap(), Step::Wait);
        calls += calls_of(&steps, &s, "C");
    }
    assert!(calls >= 9);
    assert!(s.contains(1));
    s.forget(p);
    // the timer that was running still expires, and nothing runs
    s.timer_fired(p);
    let steps = drain(&mut s);
    assert_eq!(steps, vec![Step::Skip, Step::Checkpoint, Step::Done]);
    assert_eq!(calls_of(&steps, &s, "C"), 0);
}

#[test]
fn callback_can_schedule_a_new_timer() {
    let mut s = Scheduler::new();
    let t = s.schedule_once(callback("C"), 5);
    s.timer_fired(t);
    let mut inner = None;
    loop {
        match s.next_step() {
            Step::Call { value: "C", .. } => {
                // the callback registers a new one-shot task while it runs
                inner = Some(s.schedule_once(callback("D"), 0));
            }
            Step::Wait | Step::Done => break,
            _ => {}
        }
    }
    let inner = inner.unwrap();
    assert_eq!(inner, 4);
    assert!(s.has_pending_work());
    s.timer_fired(inner);
    let steps = drain(&mut s);
    assert_eq!(calls_of(&steps, &s, "D"), 1);
    assert_eq!(*steps.last().unwrap(), Step::Done);
}

#[test]
fn cancelled_before_dispatch_never_runs() {
    let mut s = Scheduler::new();
    let t = s.schedule_once(callback("C"), 0);
    s.forget(t);
    s.timer_fired(t);
    let steps = drain(&mut s);
    assert_eq!(steps, vec![Step::Skip, Step::Checkpoint, Step::Done]);
    assert_eq!(calls_of(&steps, &s, "C"), 0);
}

#[test]
fn cancelled_after_expiry_before_dispatch_never_runs() {
    let mut s = Scheduler::new();
    let t = s.schedule_once(callback("C"), 20);
    s.timer_fired(t);
    assert_eq!(s.ready_len(), 1);
    s.forget(t);
    let steps = drain(&mut s);
    assert_eq!(calls_of(&steps, &s, "C"), 0);
    assert_eq!(steps, vec![Step::Skip, Step::Checkpoint, Step::Done]);
}

#[test]
fn pending_work_follows_queue_and_timers() {
    let mut s: Scheduler<&'static str> = Scheduler::new();
    assert!(!s.has_pending_work());
    let t = s.schedule_once(callback("C"), 10);
    assert!(s.has_pending_work());
    assert_eq!(s.ready_len(), 0);
    s.timer_fired(t);
    assert_eq!(s.active_timers(), 0);
    assert!(s.has_pending_work());
    drain(&mut s);
    assert!(!s.has_pending_work());
}

#[test]
fn loop_waits_while_a_timer_runs() {
    let mut s = Scheduler::new();
    s.schedule_periodic(callback("C"), 1000);
    for _ in 0..5 {
        assert_eq!(s.next_step(), Step::Wait);
    }
}

#[test]
fn forget_of_unknown_or_fired_id_changes_nothing() {
    let mut s = Scheduler::new();
    s.forget(42);
    assert!(!s.has_pending_work());
    let t = s.schedule_once(callback("C"), 1);
    s.forget(-3);
    assert!(s.contains(t));
    assert!(s.contains(1));
    assert_eq!(s.active_timers(), 1);
    s.timer_fired(t);
    drain(&mut s);
    s.forget(t);
    s.forget(t);
    assert_eq!(s.ready_len(), 0);
    assert_eq!(s.active_timers(), 0);
    assert_eq!(s.next_step(), Step::Done);
}

#[test]
fn script_task_runs_once() {
    let mut s: Scheduler<&'static str> = Scheduler::new();
    let id = s.register(Task::Script { source: "log(1)".to_string() });
    s.enqueue(id);
    s.enqueue(id);
    assert_eq!(s.next_step(), Step::Run { source: "log(1)".to_string() });
    assert!(!s.contains(id));
    assert_eq!(s.next_step(), Step::Skip);
    assert_eq!(s.next_step(), Step::Checkpoint);
    assert_eq!(s.next_step(), Step::Done);
}

#[test]
fn once_expiry_queues_its_callback() {
    let mut s = Scheduler::new();
    let t = s.schedule(callback("C"), SchedulingTrategy::Once(3));
    assert_eq!(s.task(t), Some(&Task::Once { timeout: 3, callback: 1 }));
    s.timer_fired(t);
    assert_eq!(s.next_step(), Step::Skip);
    assert!(!s.contains(t));
    assert_eq!(s.fetch_expired_timer(), Some(1));
    assert_eq!(s.fetch_expired_timer(), None);
}

#[test]
fn periodic_callback_stays_registered() {
    let mut s = Scheduler::new();
    let p = s.schedule(callback("C"), SchedulingTrategy::Periodic(7));
    s.timer_fired(p);
    assert_eq!(s.next_step(), Step::Arm { id: p, delay: 7 });
    assert_eq!(s.active_timers(), 1);
    assert_eq!(s.next_step(), Step::CallRegistered { id: 1 });
    assert_eq!(s.task(1), Some(&callback("C")));
    assert_eq!(s.task(p), Some(&Task::Periodic { interval: 7, callback: 1 }));
}

#[test]
fn checkpoint_comes_once_after_work() {
    let mut s: Scheduler<&'static str> = Scheduler::new();
    assert_eq!(s.next_step(), Step::Done);
    s.enqueue(99);
    assert_eq!(s.next_step(), Step::Skip);
    assert_eq!(s.next_step(), Step::Checkpoint);
    assert_eq!(s.next_step(), Step::Done);
    assert_eq!(s.next_step(), Step::Done);
}

#[test]
fn schedule_issues_two_ids_each_time() {
    let mut s = Scheduler::new();
    let left = s.ids_left();
    assert_eq!(s.schedule_once(callback("A"), 1), 2);
    assert_eq!(s.schedule_periodic(callback("B"), 1), 4);
    assert_eq!(s.ids_left(), left - 4);
    assert_eq!(s.active_timers(), 2);
    assert_eq!(s.task(3), Some(&callback("B")));
}

#[test]
fn hand_registered_periodic_keeps_its_callback() {
    let mut s = Scheduler::new();
    let c = s.register(callback("C"));
    let p = s.register(Task::Periodic { interval: 10, callback: c });
    s.enqueue(p);
    let mut calls = 0;
    for round in 0..5 {
        if round > 0 {
            s.timer_fired(p);
        }
        let steps = drain(&mut s);
        assert_eq!(steps[0], Step::Arm { id: p, delay: 10 });
        assert_eq!(steps[1], Step::CallRegistered { id: c });
        calls += calls_of(&steps, &s, "C");
        assert!(s.contains(c));
        assert!(s.contains(p));
    }
    assert_eq!(calls, 5);
}
