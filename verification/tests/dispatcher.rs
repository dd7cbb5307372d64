use gpui_embed::dispatcher::{MainThreadQueue, PollOutcome};

#[test]
fn takes_the_earliest_queued_ready_work() {
    let mut q: MainThreadQueue<&str> = MainThreadQueue::new();
    q.enqueue("later", 50);
    q.enqueue("first", 10);
    q.enqueue("second", 5);
    assert_eq!(q.len(), 3);
    assert_eq!(q.take_ready(20), Some("first"));
    assert_eq!(q.take_ready(20), Some("second"));
    assert_eq!(q.take_ready(20), None);
    assert_eq!(q.len(), 1);
    assert_eq!(q.take_ready(50), Some("later"));
    assert_eq!(q.take_ready(u64::MAX), None);
}

#[test]
fn next_deadline_is_the_minimum() {
    let mut q: MainThreadQueue<u32> = MainThreadQueue::new();
    assert_eq!(q.next_deadline(), None);
    q.enqueue(1, 30);
    q.enqueue(2, 7);
    q.enqueue(3, 12);
    assert_eq!(q.next_deadline(), Some(7));
    assert_eq!(q.take_ready(10), Some(2));
    assert_eq!(q.next_deadline(), Some(12));
}

#[test]
fn drained_queue_reports_future_wake() {
    let mut q: MainThreadQueue<u32> = MainThreadQueue::new();
    q.enqueue(1, 3);
    q.enqueue(2, 100);
    q.enqueue(3, 4);
    let now = 10;
    let mut ran = 0;
    while let Some(_) = q.take_ready(now) {
        ran += 1;
    }
    let outcome = q.poll_outcome(ran);
    assert_eq!(outcome, PollOutcome { tasks_run: 2, next_deadline: Some(100) });
    assert!(outcome.next_deadline.unwrap() > now);
}

#[test]
fn empty_poll_outcome() {
    let q: MainThreadQueue<u32> = MainThreadQueue::new();
    assert_eq!(q.poll_outcome(0), PollOutcome::default());
    assert_eq!(PollOutcome::default(), PollOutcome { tasks_run: 0, next_deadline: None });
}

#[test]
fn queuing_bounds_the_wake_time() {
    let mut q: MainThreadQueue<u32> = MainThreadQueue::new();
    q.enqueue(1, 40);
    q.enqueue(2, 90);
    assert!(q.next_deadline().unwrap() <= 90);
    q.enqueue(3, 15);
    assert_eq!(q.next_deadline(), Some(15));
}

#[test]
fn due_work_queued_behind_pending_work_runs_next() {
    let mut q: MainThreadQueue<u32> = MainThreadQueue::new();
    q.enqueue(1, 40);
    q.enqueue(2, 90);
    assert_eq!(q.take_ready(20), None);
    q.enqueue(3, 20);
    assert_eq!(q.take_ready(20), Some(3));
    assert_eq!(q.len(), 2);
}
