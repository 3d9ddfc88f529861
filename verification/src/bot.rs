//! Listed bots, and the query builder for searching the listing.

use vstd::prelude::*;
use crate::models::DISCORD_EPOCH;
use crate::text::{spec_decimal, u64_to_string, usize_to_string};
use crate::util::{get_avatar, get_creation_date, spec_avatar_url, url_encode, url_encoded};

verus! {

/// The full invite URL for a support server invite code.
pub fn support_server_url(code: &str) -> (r: String)
    ensures
        r@ == "https://discord.com/invite/"@ + code@,
{
    let mut r = String::from_str("https://discord.com/invite/");
    r.append(code);
    r
}

/// A Discord bot listed on the service.
#[must_use]
pub struct Bot {
    /// The ID of this Discord bot.
    pub id: u64,
    /// The username of this Discord bot.
    pub username: String,
    /// The discriminator of this Discord bot.
    pub discriminator: String,
    /// The prefix of this Discord bot.
    pub prefix: String,
    /// The short description of this Discord bot.
    pub short_description: String,
    /// The long description of this Discord bot.
    pub long_description: Option<String>,
    /// The tags of this Discord bot.
    pub tags: Vec<String>,
    /// The website URL of this Discord bot.
    pub website: Option<String>,
    /// The link to this Discord bot's GitHub repository.
    pub github: Option<String>,
    /// The IDs of this Discord bot's owners; the main owner comes first.
    pub owners: Vec<u64>,
    /// The IDs of the guilds featured on this Discord bot's page.
    pub guilds: Vec<u64>,
    /// The URL for this Discord bot's banner image.
    pub banner_url: Option<String>,
    /// When this bot was approved on the listing, in milliseconds from the
    /// Unix epoch.
    pub approved_at: i64,
    /// Whether this Discord bot is certified.
    pub is_certified: bool,
    /// This Discord bot's server count for each shard.
    pub shards: Vec<usize>,
    /// The amount of upvotes this Discord bot has.
    pub votes: usize,
    /// The amount of upvotes this Discord bot has this month.
    pub monthly_votes: usize,
    /// The support server invite URL of this Discord bot.
    pub support: Option<String>,
    /// The avatar hash, if the bot has a custom avatar.
    pub avatar: Option<String>,
    /// The custom invite URL, if one is set.
    pub invite: Option<String>,
    /// The shard count from posted statistics, if any.
    pub shard_count: Option<usize>,
    /// The vanity URL of this bot's page, if one is set.
    pub vanity: Option<String>,
}

impl Bot {
    /// The creation time of this bot's account, in milliseconds from the Unix
    /// epoch, decoded from the ID.
    pub fn created_at(&self) -> (r: u64)
        ensures
            r == (self.id >> 22) + DISCORD_EPOCH,
    {
        get_creation_date(self.id)
    }

    /// The CDN URL of this bot's avatar, in PNG form, or GIF form when
    /// animated.
    pub fn avatar(&self) -> (r: String)
        ensures
            r@ == spec_avatar_url(match self.avatar {
                Some(h) => Some(h@),
                None => None,
            }, self.id),
    {
        get_avatar(&self.avatar, self.id)
    }

    /// The invite URL of this bot: the custom one if set, otherwise the
    /// standard authorization URL for its ID.
    pub fn invite(&self) -> (r: String)
        ensures
            r@ == match self.invite {
                Some(inv) => inv@,
                None => "https://discord.com/oauth2/authorize?scope=bot&client_id="@
                    + spec_decimal(self.id as int),
            },
    {
        match &self.invite {
            Some(inv) => inv.clone(),
            None => {
                let mut r = String::from_str(
                    "https://discord.com/oauth2/authorize?scope=bot&client_id=",
                );
                let num = u64_to_string(self.id);
                r.append(num.as_str());
                r
            },
        }
    }

    /// The amount of shards this bot has according to posted statistics,
    /// falling back to the length of the shard breakdown.
    pub fn shard_count(&self) -> (r: usize)
        ensures
            r == match self.shard_count {
                Some(n) => n,
                None => self.shards@.len() as usize,
            },
    {
        match self.shard_count {
            Some(n) => n,
            None => self.shards.len(),
        }
    }

    /// The URL of this bot's page on the listing: by vanity name when one is
    /// set, by ID otherwise.
    pub fn url(&self) -> (r: String)
        ensures
            r@ == "https://top.gg/bot/"@ + match self.vanity {
                Some(v) => v@,
                None => spec_decimal(self.id as int),
            },
    {
        let mut r = String::from_str("https://top.gg/bot/");
        match &self.vanity {
            Some(v) => r.append(v.as_str()),
            None => {
                let num = u64_to_string(self.id);
                r.append(num.as_str());
            },
        }
        r
    }
}

/// The mathematical value of a [`GetBots`] query under construction.
#[verifier::ext_equal]
pub ghost struct GetBotsView {
    /// The plain filters, as `name=value&` pairs after a leading `?`.
    pub query: Seq<char>,
    /// The accumulated search terms.
    pub search: Seq<char>,
}

/// A builder for the query string of a bot search: plain filters accumulate
/// in the query part, search terms in a `search=` parameter.
#[must_use]
pub struct GetBots {
    query: String,
    search: String,
}

impl View for GetBots {
    type V = GetBotsView;

    closed spec fn view(&self) -> GetBotsView {
        GetBotsView { query: self.query@, search: self.search@ }
    }
}

/// The string "true" or "false".
pub fn bool_str(b: bool) -> (r: &'static str)
    ensures
        r@ == if b {
            "true"@
        } else {
            "false"@
        },
{
    if b {
        "true"
    } else {
        "false"
    }
}

impl GetBots {
    /// The query part always starts with its `?`.
    pub open spec fn wf(&self) -> bool {
        self@.query.len() >= 1
    }

    /// Creates an empty query.
    pub fn new() -> (r: Self)
        ensures
            r@ == (GetBotsView { query: "?"@, search: Seq::<char>::empty() }),
            r.wf(),
    {
        proof {
            reveal_strlit("?");
        }
        GetBots { query: String::from_str("?"), search: String::new() }
    }

    /// Sets the maximum amount of bots to be queried, capped at 500.
    pub fn limit(self, limit: u16) -> (r: Self)
        ensures
            r@.query == self@.query + "limit="@ + spec_decimal(
                if limit < 500 {
                    limit as int
                } else {
                    500
                },
            ) + "&"@,
            r@.search == self@.search,
            self.wf() ==> r.wf(),
    {
        let capped: u16 = if limit < 500 {
            limit
        } else {
            500
        };
        let mut q = self.query;
        q.append("limit=");
        let num = u64_to_string(capped as u64);
        q.append(num.as_str());
        q.append("&");
        GetBots { query: q, search: self.search }
    }

    /// Sets the amount of bots to be skipped during the query, capped at 499.
    pub fn skip(self, skip: u16) -> (r: Self)
        ensures
            r@.query == self@.query + "offset="@ + spec_decimal(
                if skip < 499 {
                    skip as int
                } else {
                    499
                },
            ) + "&"@,
            r@.search == self@.search,
            self.wf() ==> r.wf(),
    {
        let capped: u16 = if skip < 499 {
            skip
        } else {
            499
        };
        let mut q = self.query;
        q.append("offset=");
        let num = u64_to_string(capped as u64);
        q.append(num.as_str());
        q.append("&");
        GetBots { query: q, search: self.search }
    }

    /// Queries only bots that match this username.
    pub fn username(self, username: &str) -> (r: Self)
        ensures
            r@.query == self@.query,
            r@.search == self@.search + "username%3A%20"@ + url_encoded(username@) + "%20"@,
            self.wf() ==> r.wf(),
    {
        let mut s = self.search;
        s.append("username%3A%20");
        let enc = url_encode(username);
        s.append(enc.as_str());
        s.append("%20");
        GetBots { query: self.query, search: s }
    }

    /// Queries only bots that match this discriminator.
    pub fn discriminator(self, discriminator: &str) -> (r: Self)
        ensures
            r@.query == self@.query,
            r@.search == self@.search + "discriminator%3A%20"@ + discriminator@ + "%20"@,
            self.wf() ==> r.wf(),
    {
        let mut s = self.search;
        s.append("discriminator%3A%20");
        s.append(discriminator);
        s.append("%20");
        GetBots { query: self.query, search: s }
    }

    /// Queries only bots that match this prefix.
    pub fn prefix(self, prefix: &str) -> (r: Self)
        ensures
            r@.query == self@.query,
            r@.search == self@.search + "prefix%3A%20"@ + url_encoded(prefix@) + "%20"@,
            self.wf() ==> r.wf(),
    {
        let mut s = self.search;
        s.append("prefix%3A%20");
        let enc = url_encode(prefix);
        s.append(enc.as_str());
        s.append("%20");
        GetBots { query: self.query, search: s }
    }

    /// Queries only bots that have this vote count.
    pub fn votes(self, votes: usize) -> (r: Self)
        ensures
            r@.query == self@.query,
            r@.search == self@.search + "points%3A%20"@ + spec_decimal(votes as int) + "%20"@,
            self.wf() ==> r.wf(),
    {
        let mut s = self.search;
        s.append("points%3A%20");
        let num = usize_to_string(votes);
        s.append(num.as_str());
        s.append("%20");
        GetBots { query: self.query, search: s }
    }

    /// Queries only bots that have this monthly vote count.
    pub fn monthly_votes(self, monthly_votes: usize) -> (r: Self)
        ensures
            r@.query == self@.query,
            r@.search == self@.search + "monthlyPoints%3A%20"@ + spec_decimal(
                monthly_votes as int,
            ) + "%20"@,
            self.wf() ==> r.wf(),
    {
        let mut s = self.search;
        s.append("monthlyPoints%3A%20");
        let num = usize_to_string(monthly_votes);
        s.append(num.as_str());
        s.append("%20");
        GetBots { query: self.query, search: s }
    }

    /// Queries only certified bots, or only uncertified ones.
    pub fn certified(self, certified: bool) -> (r: Self)
        ensures
            r@.query == self@.query,
            r@.search == self@.search + "certifiedBot%3A%20"@ + (if certified {
                "true"@
            } else {
                "false"@
            }) + "%20"@,
            self.wf() ==> r.wf(),
    {
        let mut s = self.search;
        s.append("certifiedBot%3A%20");
        s.append(bool_str(certified));
        s.append("%20");
        GetBots { query: self.query, search: s }
    }

    /// Queries only bots that have this vanity URL.
    pub fn vanity(self, vanity: &str) -> (r: Self)
        ensures
            r@.query == self@.query,
            r@.search == self@.search + "vanity%3A%20"@ + url_encoded(vanity@) + "%20"@,
            self.wf() ==> r.wf(),
    {
        let mut s = self.search;
        s.append("vanity%3A%20");
        let enc = url_encode(vanity);
        s.append(enc.as_str());
        s.append("%20");
        GetBots { query: self.query, search: s }
    }

    /// Renders the finished query string: with search terms, the filters
    /// followed by the `search=` parameter; without, the filters with the
    /// trailing separator dropped.
    pub fn query_string(self) -> (r: String)
        requires
            self.wf(),
        ensures
            r@ == spec_query_string(self@),
    {
        if !self.search.as_str().is_empty() {
            let mut q = self.query;
            q.append("search=");
            q.append(self.search.as_str());
            q
        } else {
            let len = self.query.as_str().unicode_len();
            self.query.as_str().substring_char(0, len - 1).to_owned()
        }
    }
}

/// What [`GetBots::query_string`] renders for a given builder value.
pub open spec fn spec_query_string(v: GetBotsView) -> Seq<char> {
    if v.search.len() > 0 {
        v.query + "search="@ + v.search
    } else {
        v.query.subrange(0, v.query.len() - 1)
    }
}

} // verus!
