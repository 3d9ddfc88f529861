//! The built-in statistics handler for twilight-style gateway events: it
//! tracks guild membership and derives the server count fed to the
//! autoposter.

use vstd::prelude::*;
use crate::guilds::{GuildSet, StatsUpdate};

verus! {

/// A twilight gateway event, reduced to what the handler reads: the guild
/// IDs it reports.
pub enum TwilightEvent {
    /// The ready report, listing every guild the bot is in.
    Ready(Vec<u64>),
    /// The bot joined a guild.
    GuildCreate(u64),
    /// The bot left a guild.
    GuildDelete(u64),
    /// Any other gateway event; ignored.
    Other,
}

/// The built-in handler for the twilight library.
#[must_use]
pub struct Twilight {
    cache: GuildSet,
}

impl Twilight {
    /// The set of guilds the handler believes the bot is in.
    pub closed spec fn guilds(&self) -> Set<u64> {
        self.cache@
    }

    /// The cache is well-formed.
    pub closed spec fn wf(&self) -> bool {
        self.cache.wf()
    }

    /// Creates a handler that has seen no guilds yet.
    pub fn new() -> (r: Self)
        ensures
            r.guilds() == Set::<u64>::empty(),
            r.wf(),
    {
        Twilight { cache: GuildSet::new() }
    }

    /// Handles one gateway event: a ready report replaces the guild set
    /// wholesale; a join or leave adjusts it when it actually changes
    /// membership. Returns the server count to feed when the set changed,
    /// and nothing otherwise.
    pub fn handle(&mut self, event: &TwilightEvent) -> (r: Option<StatsUpdate>)
        requires
            old(self).wf(),
        ensures
            final(self).wf(),
            match event {
                TwilightEvent::Ready(ids) => {
                    &&& final(self).guilds() == ids@.to_set()
                    &&& r == Some(StatsUpdate::ServerCount(
                        final(self).guilds().len() as usize,
                    ))
                },
                TwilightEvent::GuildCreate(id) => {
                    &&& final(self).guilds() == old(self).guilds().insert(*id)
                    &&& if !old(self).guilds().contains(*id) {
                        r == Some(StatsUpdate::ServerCount(final(self).guilds().len() as usize))
                    } else {
                        r is None
                    }
                },
                TwilightEvent::GuildDelete(id) => {
                    &&& final(self).guilds() == old(self).guilds().remove(*id)
                    &&& if old(self).guilds().contains(*id) {
                        r == Some(StatsUpdate::ServerCount(final(self).guilds().len() as usize))
                    } else {
                        r is None
                    }
                },
                TwilightEvent::Other => {
                    &&& final(self).guilds() == old(self).guilds()
                    &&& r is None
                },
            },
    {
        match event {
            TwilightEvent::Ready(ids) => {
                self.cache.reset(ids);
                Some(StatsUpdate::ServerCount(self.cache.len()))
            },
            TwilightEvent::GuildCreate(id) => {
                if self.cache.insert(*id) {
                    Some(StatsUpdate::ServerCount(self.cache.len()))
                } else {
                    None
                }
            },
            TwilightEvent::GuildDelete(id) => {
                if self.cache.remove(*id) {
                    Some(StatsUpdate::ServerCount(self.cache.len()))
                } else {
                    None
                }
            },
            TwilightEvent::Other => None,
        }
    }
}

} // verus!
