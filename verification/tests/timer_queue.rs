//! Tests of the timer queue: the wake-up target tracks the minimum pending
//! timestamp, and a drain pass takes exactly the due entries in ascending
//! order.

use bot_gateway::timer::{ScheduledAlarm, TimerQueue};

#[test]
fn wakeup_absent_on_empty_queue() {
    let q = TimerQueue::new();
    assert!(q.is_empty());
    assert_eq!(q.next_wakeup(), None);
}

#[test]
fn wakeup_is_min_after_schedules() {
    let mut q = TimerQueue::new();
    q.schedule(ScheduledAlarm::DatabaseSync, 5_000);
    assert_eq!(q.next_wakeup(), Some(5_000));
    q.schedule(ScheduledAlarm::DatabaseSync, 2_000);
    assert_eq!(q.next_wakeup(), Some(2_000));
    q.schedule(ScheduledAlarm::DatabaseSync, 9_000);
    assert_eq!(q.next_wakeup(), Some(2_000));
    assert_eq!(q.len(), 3);
}

#[test]
fn drain_takes_exactly_due_entries_in_order() {
    let mut q = TimerQueue::new();
    q.schedule(ScheduledAlarm::DatabaseSync, 9_000);
    q.schedule(ScheduledAlarm::DatabaseSync, 2_000);
    q.schedule(ScheduledAlarm::DatabaseSync, 5_000);
    q.schedule(ScheduledAlarm::DatabaseSync, 5_000);

    let due = q.drain_due(5_000);
    let times: Vec<i64> = due.iter().map(|e| e.at).collect();
    assert_eq!(times, vec![2_000, 5_000, 5_000]);

    // The later entry is untouched and becomes the new wake-up target.
    assert_eq!(q.len(), 1);
    assert_eq!(q.next_wakeup(), Some(9_000));
}

#[test]
fn drain_on_empty_queue_is_a_no_op() {
    let mut q = TimerQueue::new();
    let due = q.drain_due(1_000_000);
    assert!(due.is_empty());
    assert_eq!(q.next_wakeup(), None);
}

#[test]
fn wakeup_absent_iff_drained_empty() {
    let mut q = TimerQueue::new();
    q.schedule(ScheduledAlarm::DatabaseSync, 1_000);
    q.schedule(ScheduledAlarm::DatabaseSync, 3_000);
    let due = q.drain_due(10_000);
    assert_eq!(due.len(), 2);
    assert!(q.is_empty());
    assert_eq!(q.next_wakeup(), None);
}

#[test]
fn ties_share_a_timestamp_and_all_fire_together() {
    let mut q = TimerQueue::new();
    q.schedule(ScheduledAlarm::DatabaseSync, 4_000);
    q.schedule(ScheduledAlarm::DatabaseSync, 4_000);
    assert_eq!(q.next_wakeup(), Some(4_000));
    let due = q.drain_due(4_000);
    assert_eq!(due.len(), 2);
    assert!(due.iter().all(|e| e.at == 4_000));
    assert!(q.is_empty());
}

#[test]
fn drain_before_earliest_takes_nothing() {
    let mut q = TimerQueue::new();
    q.schedule(ScheduledAlarm::DatabaseSync, 4_000);
    let due = q.drain_due(3_999);
    assert!(due.is_empty());
    assert_eq!(q.next_wakeup(), Some(4_000));
}
