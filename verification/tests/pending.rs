use llmidium::pending::PendingCalls;

#[test]
fn ids_count_up_from_one() {
    let mut table = PendingCalls::new();
    assert_eq!(table.len(), 0);
    assert_eq!(table.issue(100, 30), Some(1));
    assert_eq!(table.issue(100, 30), Some(2));
    assert_eq!(table.issue(101, 5), Some(3));
    assert_eq!(table.len(), 3);
    assert!(table.is_pending(1));
    assert!(table.is_pending(3));
    assert!(!table.is_pending(4));
    assert!(!table.is_pending(0));
}

#[test]
fn reply_is_delivered_once() {
    let mut table = PendingCalls::new();
    table.issue(0, 10);
    table.issue(0, 10);
    assert!(table.resolve(2));
    assert!(!table.is_pending(2));
    assert!(!table.resolve(2));
    assert_eq!(table.len(), 1);
    assert!(table.resolve(1));
    assert_eq!(table.len(), 0);
}

#[test]
fn reply_to_no_call_is_dropped() {
    let mut table = PendingCalls::new();
    table.issue(0, 10);
    assert!(!table.resolve(7));
    assert!(!table.resolve(0));
    assert_eq!(table.len(), 1);
    assert!(table.is_pending(1));
}

#[test]
fn replies_may_come_in_any_order() {
    let mut one = PendingCalls::new();
    let mut two = PendingCalls::new();
    for _ in 0..4 {
        one.issue(0, 10);
        two.issue(0, 10);
    }
    assert!(one.resolve(3));
    assert!(one.resolve(1));
    assert!(two.resolve(1));
    assert!(two.resolve(3));
    assert_eq!(one, two);
    assert!(one.is_pending(2));
    assert!(one.is_pending(4));
}

#[test]
fn calls_past_their_deadline_time_out() {
    let mut table = PendingCalls::new();
    table.issue(100, 30);
    table.issue(100, 10);
    table.issue(105, 5);
    table.issue(105, 100);
    assert_eq!(table.expire(109), Vec::<u64>::new());
    assert_eq!(table.expire(110), vec![2, 3]);
    assert_eq!(table.len(), 2);
    assert!(table.is_pending(1));
    assert!(table.is_pending(4));
    assert_eq!(table.expire(110), Vec::<u64>::new());
    assert_eq!(table.expire(u64::MAX), vec![1, 4]);
    assert_eq!(table.len(), 0);
}

#[test]
fn late_reply_is_dropped() {
    let mut table = PendingCalls::new();
    table.issue(0, 10);
    table.issue(0, 20);
    assert_eq!(table.expire(10), vec![1]);
    assert!(!table.resolve(1));
    assert!(table.resolve(2));
}

#[test]
fn ids_are_not_used_again() {
    let mut table = PendingCalls::new();
    assert_eq!(table.issue(0, 1), Some(1));
    assert!(table.resolve(1));
    assert_eq!(table.issue(0, 1), Some(2));
    assert_eq!(table.expire(5), vec![2]);
    assert_eq!(table.issue(5, 1), Some(3));
}

#[test]
fn deadline_stops_at_the_largest_time() {
    let mut table = PendingCalls::new();
    table.issue(u64::MAX - 1, 5);
    table.issue(u64::MAX, u64::MAX);
    table.issue(3, 0);
    assert_eq!(table.expire(u64::MAX - 1), vec![3]);
    assert_eq!(table.expire(u64::MAX), vec![1, 2]);
}
