//! A client SDK for the Top.gg bot-listing API, centred on a verified
//! autoposter: a periodic-flush coordinator that buffers the latest
//! statistics snapshot and posts it on a fixed minimum interval.
//!
//! The crate holds the decision logic of the SDK — the autoposting state
//! machine, query building, response reading, and the data models — with
//! machine-checked contracts. The asynchronous runtime, the sockets and the
//! JSON glue live outside it and call in through these interfaces.

/// The autoposting core: the shared mailbox, the flush coordinator, and the
/// laws it obeys.
pub mod autoposter;

/// Bot-related structs and the search query builder.
pub mod bot;

/// The API client: tokens, request targets, response readings.
pub mod client;

/// The SDK's errors and the status classification behind them.
pub mod error;

/// The guild-membership cache the gateway handlers keep.
pub mod guilds;

/// The raw HTTP/1.1 request builder and response parsers.
pub mod http;

/// Raw data models of an earlier API surface, kept for compatibility.
pub mod models;

/// The built-in handler for serenity-style gateway events.
pub mod serenity_impl;

/// The trait for values readable as snowflake IDs.
pub mod snowflake;

/// The statistics snapshot fed to the autoposter.
pub mod stats;

/// Decimal rendering and parsing.
pub mod text;

/// The built-in handler for twilight-style gateway events.
pub mod twilight_impl;

/// Shared helpers: CDN URLs, snowflake timestamps, percent-encoding.
pub mod util;

/// User-related structs.
pub mod user;

/// Vote webhook data and authentication.
pub mod webhook;

pub use autoposter::{Autoposter, SharedStats};
pub use bot::{Bot, GetBots};
pub use client::{AsClient, AsClientSealed, Client, InnerClient};
pub use error::Error;
pub use guilds::{GuildSet, StatsUpdate};
pub use http::Http;
pub use serenity_impl::{Serenity, SerenityEvent};
pub use snowflake::Snowflake;
pub use stats::Stats;
pub use twilight_impl::{Twilight, TwilightEvent};
pub use user::{Socials, User, Voter};
pub use util::{get_avatar, get_creation_date};
pub use webhook::{IncomingVote, QueryMap, Vote};
