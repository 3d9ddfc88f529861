//! The built-in statistics handler for serenity-style gateway events: it
//! tracks guild membership and derives the server and shard counts fed to
//! the autoposter.

use vstd::prelude::*;
use crate::guilds::{GuildSet, StatsUpdate};

verus! {

/// A serenity gateway event, reduced to what the handler reads.
pub enum SerenityEvent {
    /// The ready report, listing every guild the bot is in.
    Ready(Vec<u64>),
    /// The cache finished filling, with the number of cached guilds.
    CacheReady(usize),
    /// All shards came up, with the total shard count.
    ShardsReady(u32),
    /// The bot joined a guild.
    GuildCreate(u64),
    /// The bot left a guild.
    GuildDelete(u64),
    /// Any other gateway event; ignored.
    Other,
}

/// The built-in handler for the serenity library.
#[must_use]
pub struct Serenity {
    cache: GuildSet,
}

impl Serenity {
    /// The set of guilds the handler believes the bot is in.
    pub closed spec fn guilds(&self) -> Set<u64> {
        self.cache@
    }

    /// The cache is well-formed.
    pub closed spec fn wf(&self) -> bool {
        self.cache.wf()
    }

    /// Creates a handler that has seen no guilds yet.
    pub fn new() -> (r: Self)
        ensures
            r.guilds() == Set::<u64>::empty(),
            r.wf(),
    {
        Serenity { cache: GuildSet::new() }
    }

    /// Handles one gateway event: a ready report records the reported guild
    /// count as-is and replaces the guild set; cache and shard reports pass
    /// their counts through; a join or leave adjusts the set when it
    /// actually changes membership. Returns the statistics update to feed,
    /// if the event warrants one.
    pub fn handle(&mut self, event: &SerenityEvent) -> (r: Option<StatsUpdate>)
        requires
            old(self).wf(),
        ensures
            final(self).wf(),
            match event {
                SerenityEvent::Ready(ids) => {
                    &&& final(self).guilds() == ids@.to_set()
                    &&& r == Some(StatsUpdate::ServerCount(ids@.len() as usize))
                },
                SerenityEvent::CacheReady(n) => {
                    &&& final(self).guilds() == old(self).guilds()
                    &&& r == Some(StatsUpdate::ServerCount(*n))
                },
                SerenityEvent::ShardsReady(c) => {
                    &&& final(self).guilds() == old(self).guilds()
                    &&& r == Some(StatsUpdate::ShardCount(*c as usize))
                },
                SerenityEvent::GuildCreate(id) => {
                    &&& final(self).guilds() == old(self).guilds().insert(*id)
                    &&& if !old(self).guilds().contains(*id) {
                        r == Some(StatsUpdate::ServerCount(final(self).guilds().len() as usize))
                    } else {
                        r is None
                    }
                },
                SerenityEvent::GuildDelete(id) => {
                    &&& final(self).guilds() == old(self).guilds().remove(*id)
                    &&& if old(self).guilds().contains(*id) {
                        r == Some(StatsUpdate::ServerCount(final(self).guilds().len() as usize))
                    } else {
                        r is None
                    }
                },
                SerenityEvent::Other => {
                    &&& final(self).guilds() == old(self).guilds()
                    &&& r is None
                },
            },
    {
        match event {
            SerenityEvent::Ready(ids) => {
                let count = ids.len();
                self.cache.reset(ids);
                Some(StatsUpdate::ServerCount(count))
            },
            SerenityEvent::CacheReady(n) => Some(StatsUpdate::ServerCount(*n)),
            SerenityEvent::ShardsReady(c) => Some(StatsUpdate::ShardCount(*c as usize)),
            SerenityEvent::GuildCreate(id) => {
                if self.cache.insert(*id) {
                    Some(StatsUpdate::ServerCount(self.cache.len()))
                } else {
                    None
                }
            },
            SerenityEvent::GuildDelete(id) => {
                if self.cache.remove(*id) {
                    Some(StatsUpdate::ServerCount(self.cache.len()))
                } else {
                    None
                }
            },
            SerenityEvent::Other => None,
        }
    }
}

} // verus!
