use topgg::guilds::StatsUpdate;
use topgg::{GuildSet, Serenity, SerenityEvent, Twilight, TwilightEvent};

#[test]
fn guild_set_tracks_membership() {
    let mut g = GuildSet::new();
    assert_eq!(g.len(), 0);
    assert!(g.insert(1));
    assert!(g.insert(2));
    assert!(!g.insert(1));
    assert_eq!(g.len(), 2);
    assert!(g.contains(1));
    assert!(!g.contains(3));
    assert!(g.remove(1));
    assert!(!g.remove(1));
    assert_eq!(g.len(), 1);
}

#[test]
fn guild_set_reset_drops_duplicates() {
    let mut g = GuildSet::new();
    g.insert(99);
    g.reset(&vec![1, 2, 2, 3]);
    assert_eq!(g.len(), 3);
    assert!(!g.contains(99));
    assert!(g.contains(2));
}

#[test]
fn twilight_ready_reports_the_deduplicated_count() {
    let mut t = Twilight::new();
    let update = t.handle(&TwilightEvent::Ready(vec![1, 2, 2, 3]));
    assert_eq!(update, Some(StatsUpdate::ServerCount(3)));
}

#[test]
fn twilight_joins_and_leaves_update_the_count_once() {
    let mut t = Twilight::new();
    t.handle(&TwilightEvent::Ready(vec![1, 2]));
    assert_eq!(t.handle(&TwilightEvent::GuildCreate(3)), Some(StatsUpdate::ServerCount(3)));
    // Joining a guild already known changes nothing.
    assert_eq!(t.handle(&TwilightEvent::GuildCreate(3)), None);
    assert_eq!(t.handle(&TwilightEvent::GuildDelete(1)), Some(StatsUpdate::ServerCount(2)));
    // Leaving an unknown guild changes nothing.
    assert_eq!(t.handle(&TwilightEvent::GuildDelete(7)), None);
    assert_eq!(t.handle(&TwilightEvent::Other), None);
}

#[test]
fn serenity_ready_reports_the_raw_count() {
    let mut s = Serenity::new();
    // The ready report's count is taken as-is, before deduplication.
    let update = s.handle(&SerenityEvent::Ready(vec![1, 2, 2]));
    assert_eq!(update, Some(StatsUpdate::ServerCount(3)));
    // The cache, though, was deduplicated.
    assert_eq!(s.handle(&SerenityEvent::GuildCreate(2)), None);
}

#[test]
fn serenity_cache_and_shards_pass_their_counts_through() {
    let mut s = Serenity::new();
    assert_eq!(s.handle(&SerenityEvent::CacheReady(41)), Some(StatsUpdate::ServerCount(41)));
    assert_eq!(s.handle(&SerenityEvent::ShardsReady(8)), Some(StatsUpdate::ShardCount(8)));
}

#[test]
fn serenity_joins_and_leaves_update_the_count_once() {
    let mut s = Serenity::new();
    s.handle(&SerenityEvent::Ready(vec![10]));
    assert_eq!(s.handle(&SerenityEvent::GuildCreate(11)), Some(StatsUpdate::ServerCount(2)));
    assert_eq!(s.handle(&SerenityEvent::GuildCreate(11)), None);
    assert_eq!(s.handle(&SerenityEvent::GuildDelete(10)), Some(StatsUpdate::ServerCount(1)));
    assert_eq!(s.handle(&SerenityEvent::GuildDelete(10)), None);
    assert_eq!(s.handle(&SerenityEvent::Other), None);
}
