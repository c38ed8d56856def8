use knot::tasks::{Task, TasksQueue, TasksTable};

#[test]
fn queue_starts_empty() {
    let mut q: TasksQueue = TasksQueue::new();
    assert_eq!(q.len(), 0);
    assert_eq!(q.dequeue(), None);
}

#[test]
fn queue_is_first_in_first_out() {
    let mut q: TasksQueue = TasksQueue::new();
    q.enqueue(3);
    q.enqueue(1);
    q.enqueue(3);
    assert_eq!(q.len(), 3);
    assert_eq!(q.dequeue(), Some(3));
    assert_eq!(q.dequeue(), Some(1));
    assert_eq!(q.dequeue(), Some(3));
    assert_eq!(q.dequeue(), None);
    assert_eq!(q.len(), 0);
}

#[test]
fn table_issues_increasing_ids() {
    let mut t: TasksTable<u32> = TasksTable::new();
    assert_eq!(t.ids_left(), i32::MAX as u32);
    let a = t.register(Task::Script { source: "a".to_string() });
    let b = t.register(Task::Once { timeout: 5, callback: a });
    assert_eq!(a, 1);
    assert_eq!(b, 2);
    assert_eq!(t.ids_left(), i32::MAX as u32 - 2);
    assert!(t.contains(&a));
    assert_eq!(t.get(&b), Some(&Task::Once { timeout: 5, callback: 1 }));
}

#[test]
fn table_never_reuses_an_id() {
    let mut t: TasksTable<u32> = TasksTable::new();
    let a = t.register(Task::CallBack { value: 1, args: vec![] });
    assert_eq!(t.unregister(&a), Some(Task::CallBack { value: 1, args: vec![] }));
    let b = t.register(Task::CallBack { value: 2, args: vec![] });
    assert_eq!(b, 2);
    assert!(!t.contains(&a));
    assert_eq!(t.get(&a), None);
}

#[test]
fn table_unregister_of_absent_id_is_none() {
    let mut t: TasksTable<u32> = TasksTable::new();
    let a = t.register(Task::Script { source: String::new() });
    assert_eq!(t.unregister(&7), None);
    assert_eq!(t.unregister(&a), Some(Task::Script { source: String::new() }));
    assert_eq!(t.unregister(&a), None);
}
