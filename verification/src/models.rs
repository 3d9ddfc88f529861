//! Raw data models returned by the listing API, keyed by snowflake IDs.

use vstd::prelude::*;

verus! {

/// The Discord epoch: milliseconds from the Unix epoch to the first moment
/// snowflake IDs count from.
pub const DISCORD_EPOCH: u64 = 1_420_070_400_000;

/// A Discord snowflake ID: a 64-bit value packing a timestamp, the worker and
/// process that generated it, and a per-process increment.
#[derive(Clone, Copy, Debug, PartialEq, Eq, Structural)]
pub struct Snowflake(pub u64);

impl Snowflake {
    /// The raw 64-bit ID.
    pub fn id(&self) -> (r: u64)
        ensures
            r == self.0,
    {
        self.0
    }

    /// The Unix epoch of the snowflake in milliseconds: its top 42 bits,
    /// shifted down past the worker, process and increment fields, offset by
    /// the Discord epoch.
    pub fn timestamp(&self) -> (r: i64)
        ensures
            r == (self.0 >> 22) + DISCORD_EPOCH,
    {
        proof {
            let n = self.0;
            assert(n >> 22 <= 0x3FF_FFFF_FFFFu64) by (bit_vector);
        }
        ((self.0 >> 22) + DISCORD_EPOCH) as i64
    }

    /// The ID of the internal worker that generated the snowflake: bits 17
    /// through 21 of the ID.
    pub fn worker_id(&self) -> (r: u8)
        ensures
            r == (self.0 & 0x003E_0000) >> 17,
    {
        proof {
            let n = self.0;
            assert((n & 0x003E_0000) >> 17 < 256u64) by (bit_vector);
        }
        ((self.0 & 0x003E_0000) >> 17) as u8
    }

    /// The ID of the internal process that generated the snowflake: bits 12
    /// through 16 of the ID.
    pub fn process_id(&self) -> (r: u8)
        ensures
            r == (self.0 & 0x1F000) >> 12,
    {
        proof {
            let n = self.0;
            assert((n & 0x1F000) >> 12 < 256u64) by (bit_vector);
        }
        ((self.0 & 0x1F000) >> 12) as u8
    }

    /// The increment of the snowflake, counted up for every ID its process
    /// generates: bits 0 through 11 of the ID.
    pub fn increment(&self) -> (r: u16)
        ensures
            r == self.0 & 0xFFF,
    {
        proof {
            let n = self.0;
            assert(n & 0xFFF < 0x1000u64) by (bit_vector);
        }
        (self.0 & 0xFFF) as u16
    }
}

/// A Discord bot as the listing returns it, fields carried verbatim.
pub struct Bot {
    /// ID.
    pub id: Snowflake,
    /// Username.
    pub username: String,
    /// Discriminator.
    pub discriminator: String,
    /// Avatar hash of the bot's avatar, if it has one.
    pub avatar: Option<String>,
    /// CDN hash of the bot's avatar if the bot has none.
    pub default_avatar: String,
    /// Library the bot was written with.
    pub lib: String,
    /// Command prefix.
    pub prefix: String,
    /// Short description.
    pub short_description: String,
    /// Long description.
    pub long_description: Option<String>,
    /// Listing tags.
    pub tags: Vec<String>,
    /// Website URL.
    pub website: Option<String>,
    /// Support server invite code.
    pub support: Option<String>,
    /// GitHub repository of the bot.
    pub github: Option<String>,
    /// Owners of the bot; the first entry is the main owner.
    pub owners: Vec<Snowflake>,
    /// Guilds featured on the bot page.
    pub guilds: Vec<Snowflake>,
    /// Custom invite URL of the bot.
    pub invite: Option<String>,
    /// Date when the bot was approved.
    pub date: String,
    /// Certified status of the bot.
    pub certified_bot: bool,
    /// Vanity URL.
    pub vanity: Option<String>,
    /// Amount of upvotes.
    pub points: u64,
    /// Amount of upvotes this month.
    pub monthly_points: u64,
    /// Guild ID for the donate-bot setup.
    pub donate_bot_guild_id: Snowflake,
}

/// A user's social usernames.
pub struct UserSocial {
    /// YouTube channel ID.
    pub youtube: Option<String>,
    /// Reddit username.
    pub reddit: Option<String>,
    /// Twitter username.
    pub twitter: Option<String>,
    /// Instagram username.
    pub instagram: Option<String>,
    /// GitHub username.
    pub github: Option<String>,
}

/// A user as the listing returns it, fields carried verbatim.
pub struct User {
    /// ID.
    pub id: Snowflake,
    /// Username.
    pub username: String,
    /// Discriminator.
    pub discriminator: String,
    /// Avatar hash, if the user has one.
    pub avatar: Option<String>,
    /// CDN hash of the user's avatar if the user has none.
    pub default_avatar: String,
    /// Biography.
    pub biography: Option<String>,
    /// Banner image URL.
    pub banner_image: Option<String>,
    /// Social usernames.
    pub social: UserSocial,
    /// Custom hex color.
    pub color: Option<String>,
    /// Supporter status.
    pub supporter: bool,
    /// Certified developer status.
    pub certified_dev: bool,
    /// Moderator status.
    pub moderator: bool,
    /// Website moderator status.
    pub web_moderator: bool,
    /// Admin status.
    pub admin: bool,
}

} // verus!
