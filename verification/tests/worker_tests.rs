use pixiv_spider::future_selector::{spawn_workers, FutureSelector};
use pixiv_spider::stream_wrapper::{RunnerContext, StreamWrapper, WorkerPhase};
use pixiv_spider::task_queue::TaskQueue;

#[test]
fn new_worker_is_idle_and_holds_its_context() {
    let w: StreamWrapper<u32> = StreamWrapper::new(RunnerContext { client_id: 42 });
    assert!(w.is_idle());
    assert_eq!(w.context.client_id, 42);
}

#[test]
fn start_on_empty_queue_reports_empty_without_blocking() {
    let mut w: StreamWrapper<u32> = StreamWrapper::new(RunnerContext { client_id: 0 });
    let mut q: TaskQueue<u32> = TaskQueue::new();
    let hit_empty = w.start(&mut q);
    assert!(hit_empty);
    assert!(w.is_idle());
    assert_eq!(q.size(), 0);
}

#[test]
fn start_pops_the_front_task_and_complete_hands_it_back() {
    let mut w: StreamWrapper<u32> = StreamWrapper::new(RunnerContext { client_id: 0 });
    let mut q: TaskQueue<u32> = TaskQueue::new();
    q.push_all(vec![5, 6]);
    let hit_empty = w.start(&mut q);
    assert!(!hit_empty);
    assert!(!w.is_idle());
    assert!(matches!(w.phase, WorkerPhase::InFlight(5)));
    assert_eq!(q.size(), 1);
    let task = w.complete();
    assert_eq!(task, 5);
    assert!(w.is_idle());
}

#[test]
fn context_identity_survives_many_task_executions() {
    // Context recycling: across an arbitrary run of task executions the
    // worker still holds the client instance it was created with.
    let mut w: StreamWrapper<u64> = StreamWrapper::new(RunnerContext { client_id: 99 });
    let mut q: TaskQueue<u64> = TaskQueue::new();
    for round in 0..50u64 {
        q.push(round);
        let hit_empty = w.start(&mut q);
        assert!(!hit_empty);
        assert_eq!(w.context.client_id, 99);
        let task = w.complete();
        assert_eq!(task, round);
        assert_eq!(w.context.client_id, 99);
    }
}

#[test]
fn spawn_workers_builds_the_configured_pool() {
    let s: FutureSelector<u32> = spawn_workers(4);
    assert_eq!(s.len(), 4);
}

#[test]
fn poll_puts_at_most_worker_count_operations_in_flight() {
    // Two workers against three tasks: exactly two tasks are popped, one
    // stays queued — never more operations in flight than workers.
    let mut s: FutureSelector<u32> = spawn_workers(2);
    let mut q: TaskQueue<u32> = TaskQueue::new();
    q.push_all(vec![1, 2, 3]);
    let hit_empty = s.poll_start(&mut q);
    assert!(!hit_empty);
    assert_eq!(q.size(), 1);
    assert_eq!(s.complete(0), 1);
    assert_eq!(s.complete(1), 2);
}

#[test]
fn poll_on_drained_queue_reports_empty() {
    let mut s: FutureSelector<u32> = spawn_workers(2);
    let mut q: TaskQueue<u32> = TaskQueue::new();
    let hit_empty = s.poll_start(&mut q);
    assert!(hit_empty);
}

#[test]
fn completed_worker_is_restarted_by_the_next_poll() {
    let mut s: FutureSelector<u32> = spawn_workers(2);
    let mut q: TaskQueue<u32> = TaskQueue::new();
    q.push_all(vec![1, 2, 3]);
    let hit_empty = s.poll_start(&mut q);
    assert!(!hit_empty);
    assert_eq!(s.complete(0), 1);
    // Only the completed worker is advanced: the next poll hands it the
    // remaining task while worker 1 stays in flight with task 2.
    let hit_empty = s.poll_start(&mut q);
    assert!(!hit_empty);
    assert_eq!(q.size(), 0);
    assert_eq!(s.complete(0), 3);
    assert_eq!(s.complete(1), 2);
}
