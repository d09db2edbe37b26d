use reaper_session::channel::{MainTaskChannel, MainThreadTask};
use reaper_session::control_surface::drain_due_main_thread_tasks;

fn ops_of(tasks: &[MainThreadTask]) -> Vec<u64> {
    tasks.iter().map(|t| t.op).collect()
}

#[test]
fn queue_is_fifo() {
    let mut channel = MainTaskChannel::new(8);
    assert!(channel.try_send(MainThreadTask::new(1, None)));
    assert!(channel.try_send(MainThreadTask::new(2, None)));
    assert!(channel.try_send(MainThreadTask::new(3, None)));
    assert_eq!(channel.try_recv().map(|t| t.op), Some(1));
    assert_eq!(channel.try_recv().map(|t| t.op), Some(2));
    assert_eq!(channel.try_recv().map(|t| t.op), Some(3));
    assert!(channel.try_recv().is_none());
}

#[test]
fn full_queue_rejects_submission() {
    let mut channel = MainTaskChannel::new(2);
    assert!(channel.try_send(MainThreadTask::new(1, None)));
    assert!(channel.try_send(MainThreadTask::new(2, None)));
    assert!(!channel.try_send(MainThreadTask::new(3, None)));
    assert_eq!(channel.len(), 2);
}

#[test]
fn future_deadline_waits_for_its_first_due_cycle() {
    let mut channel = MainTaskChannel::new(8);
    channel.try_send(MainThreadTask::new(1, Some(100)));
    // A drain cycle before the deadline does not execute the task...
    let due = drain_due_main_thread_tasks(&mut channel, 99);
    assert!(due.is_empty());
    assert_eq!(channel.len(), 1);
    // ...and the first cycle whose time reaches the deadline does.
    let due = drain_due_main_thread_tasks(&mut channel, 100);
    assert_eq!(ops_of(&due), vec![1]);
    assert_eq!(channel.len(), 0);
}

#[test]
fn drain_takes_due_tasks_in_order_and_skips_not_yet_due() {
    let mut channel = MainTaskChannel::new(8);
    channel.try_send(MainThreadTask::new(1, None));
    channel.try_send(MainThreadTask::new(2, Some(50)));
    channel.try_send(MainThreadTask::new(3, Some(5)));
    channel.try_send(MainThreadTask::new(4, None));
    let due = drain_due_main_thread_tasks(&mut channel, 10);
    // Relative order among due tasks is preserved; the not-yet-due task is
    // skipped over and remains queued.
    assert_eq!(ops_of(&due), vec![1, 3, 4]);
    let due = drain_due_main_thread_tasks(&mut channel, 49);
    assert!(due.is_empty());
    let due = drain_due_main_thread_tasks(&mut channel, 50);
    assert_eq!(ops_of(&due), vec![2]);
}

#[test]
fn drain_of_empty_queue_is_empty() {
    let mut channel = MainTaskChannel::new(4);
    let due = drain_due_main_thread_tasks(&mut channel, 1000);
    assert!(due.is_empty());
}

#[test]
fn zero_capacity_queue_rejects_everything() {
    let mut channel = MainTaskChannel::new(0);
    assert!(!channel.try_send(MainThreadTask::new(1, None)));
    assert_eq!(channel.len(), 0);
}
