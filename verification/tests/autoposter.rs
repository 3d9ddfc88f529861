use topgg::{Autoposter, SharedStats, Stats};

#[test]
fn interval_validation_rejects_short_intervals() {
    assert!(Autoposter::new(0).is_err());
    assert!(Autoposter::new(899).is_err());
    assert!(Autoposter::new(900).is_ok());
    assert!(Autoposter::new(1800).is_ok());
}

#[test]
fn interval_is_recorded() {
    let a = Autoposter::new(1800).unwrap();
    assert_eq!(a.interval(), 1800);
}

#[test]
fn fresh_autoposter_never_posts_without_a_feed() {
    let mut a = Autoposter::new(900).unwrap();
    assert!(a.try_wake(0).is_none());
    assert!(a.try_wake(10_000).is_none());
}

#[test]
fn first_feed_is_posted_promptly() {
    let mut a = Autoposter::new(900).unwrap();
    a.feed(Stats::from_count(5, None));
    let posted = a.try_wake(0).expect("a fed snapshot must be posted at the next wake-up");
    assert_eq!(posted.server_count, Some(5));
}

#[test]
fn last_write_wins_before_a_flush() {
    let mut a = Autoposter::new(900).unwrap();
    a.feed(Stats::from_count(1, None));
    a.feed(Stats::from_count(2, None));
    a.feed(Stats::from_count(3, None));
    let posted = a.try_wake(0).unwrap();
    assert_eq!(posted.server_count, Some(3));
    // No second post for the same data.
    assert!(a.try_wake(0).is_none());
}

#[test]
fn no_op_cycle_does_not_post() {
    let mut a = Autoposter::new(900).unwrap();
    a.feed(Stats::from_count(7, None));
    assert!(a.try_wake(100).is_some());
    // No feed between two wake-ups: the second must not post.
    assert!(a.try_wake(2_000).is_none());
}

#[test]
fn posts_are_spaced_by_the_interval() {
    let mut a = Autoposter::new(900).unwrap();
    a.feed(Stats::from_count(5, None));
    assert!(a.try_wake(10).is_some());
    a.feed(Stats::from_count(6, None));
    // Fed again, but the interval has not elapsed since the post at t=10.
    assert!(a.try_wake(909).is_none());
    let posted = a.try_wake(910).unwrap();
    assert_eq!(posted.server_count, Some(6));
}

#[test]
fn cancellation_stops_all_posting() {
    let mut a = Autoposter::new(900).unwrap();
    a.feed(Stats::from_count(5, None));
    a.cancel();
    assert!(a.try_wake(0).is_none());
    a.feed(Stats::from_count(9, None));
    assert!(a.try_wake(10_000).is_none());
}

#[test]
fn handle_fan_out_posts_the_last_committed_feed() {
    // Three producers feeding distinct snapshots in interleaved order: the
    // flush observes only the last committed write.
    let mut a = Autoposter::new(900).unwrap();
    let feeds = [11usize, 22, 33, 44, 55];
    for &n in &feeds {
        a.feed(Stats::from_count(n, None));
    }
    let posted = a.try_wake(0).unwrap();
    assert_eq!(posted.server_count, Some(55));
    assert!(a.try_wake(0).is_none());
}

#[test]
fn concrete_scenario_minimum_interval() {
    // interval = 900s (the minimum). t=0: construct. t=0: feed(server_count=5).
    // A prompt post with server_count=5, and no further post until t=900.
    // t=400: feed(server_count=9) triggers no post at t=400. t=900: the
    // flush fires and posts server_count=9.
    let mut a = Autoposter::new(900).unwrap();
    a.feed(Stats::from_count(5, None));
    let first = a.try_wake(0).unwrap();
    assert_eq!(first.server_count, Some(5));
    assert!(a.try_wake(1).is_none());
    a.feed(Stats::from_count(9, None));
    assert!(a.try_wake(400).is_none());
    assert!(a.try_wake(899).is_none());
    let second = a.try_wake(900).unwrap();
    assert_eq!(second.server_count, Some(9));
    assert!(a.try_wake(1700).is_none());
}

#[test]
fn set_counts_feed_the_mailbox() {
    let mut a = Autoposter::new(900).unwrap();
    a.set_server_count(42);
    a.set_shard_count(4);
    let posted = a.try_wake(0).unwrap();
    assert_eq!(posted.server_count, Some(42));
    assert_eq!(posted.shard_count, Some(4));
}

#[test]
fn shared_stats_replace_and_consume() {
    let mut m = SharedStats::new();
    // The placeholder is not ready: nothing to consume.
    assert!(m.try_consume().is_none());
    m.replace(Stats::from_count(8, Some(2)));
    let taken = m.try_consume().expect("a replaced snapshot is ready");
    assert_eq!(taken.server_count, Some(8));
    assert_eq!(taken.shard_count, Some(2));
    // Consuming lowers the signal but keeps the snapshot.
    assert!(m.try_consume().is_none());
    m.set_server_count(10);
    let again = m.try_consume().unwrap();
    assert_eq!(again.server_count, Some(10));
    assert_eq!(again.shard_count, Some(2));
}
