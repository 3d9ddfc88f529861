use topgg::Stats;

#[test]
fn from_count_records_both_counts() {
    let s = Stats::from_count(12345, Some(10));
    assert_eq!(s.server_count, Some(12345));
    assert_eq!(s.shard_count, Some(10));
    assert!(s.shards.is_none());
    assert!(s.shard_id.is_none());
}

#[test]
fn from_a_server_count_alone() {
    let s = Stats::from(12345usize);
    assert_eq!(s.server_count, Some(12345));
    assert!(s.shard_count.is_none());
    assert!(s.shards.is_none());
}

#[test]
fn from_shards_sums_the_breakdown() {
    let s = Stats::from_shards(vec![123, 456, 789], Some(1));
    assert_eq!(s.server_count, Some(1368));
    assert_eq!(s.shard_count, Some(3));
    assert_eq!(s.shards(), &[123, 456, 789]);
    assert_eq!(s.shard_id, Some(1));
}

#[test]
fn from_shards_of_nothing() {
    let s = Stats::from_shards(Vec::new(), None);
    assert_eq!(s.server_count, Some(0));
    assert_eq!(s.shard_count, Some(0));
    assert_eq!(s.shards(), &[] as &[usize]);
}

#[test]
fn shards_getter_defaults_to_empty() {
    let s = Stats::from_count(1, None);
    assert_eq!(s.shards(), &[] as &[usize]);
}

#[test]
fn shard_count_getter_falls_back_to_breakdown_length() {
    let explicit = Stats::from_count(1, Some(7));
    assert_eq!(explicit.shard_count(), 7);
    let derived = Stats::from_shards(vec![5, 6], None);
    assert_eq!(derived.shard_count(), 2);
    let none = Stats::from_count(1, None);
    assert_eq!(none.shard_count(), 0);
}

#[test]
fn server_count_getter_sums_a_bare_breakdown() {
    let s = Stats {
        server_count: None,
        shard_count: None,
        shards: Some(vec![10, 20, 30]),
        shard_id: None,
    };
    assert_eq!(s.server_count(), Some(60));
}

#[test]
fn server_count_getter_ignores_an_empty_breakdown() {
    let s = Stats { server_count: None, shard_count: None, shards: Some(Vec::new()), shard_id: None };
    assert_eq!(s.server_count(), None);
    let bare = Stats { server_count: None, shard_count: None, shards: None, shard_id: None };
    assert_eq!(bare.server_count(), None);
}

#[test]
fn server_count_getter_prefers_the_explicit_field() {
    let s = Stats {
        server_count: Some(5),
        shard_count: None,
        shards: Some(vec![10, 20]),
        shard_id: None,
    };
    assert_eq!(s.server_count(), Some(5));
}

#[test]
fn clone_keeps_the_snapshot() {
    let s = Stats::from_shards(vec![1, 2, 3], Some(0));
    let c = s.clone();
    assert_eq!(c.server_count, s.server_count);
    assert_eq!(c.shard_count, s.shard_count);
    assert_eq!(c.shards(), s.shards());
    assert_eq!(c.shard_id, s.shard_id);
}
