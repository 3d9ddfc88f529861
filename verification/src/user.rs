//! Users and voters as listed on the service.

use vstd::prelude::*;
use crate::models::DISCORD_EPOCH;
use crate::util::{get_avatar, get_creation_date, spec_avatar_url};

verus! {

/// A user's social links.
pub struct Socials {
    /// A URL of this user's GitHub account.
    pub github: Option<String>,
    /// A URL of this user's Instagram account.
    pub instagram: Option<String>,
    /// A URL of this user's Reddit account.
    pub reddit: Option<String>,
    /// A URL of this user's Twitter account.
    pub twitter: Option<String>,
    /// A URL of this user's YouTube channel.
    pub youtube: Option<String>,
}

/// A user logged into the listing service.
#[must_use]
pub struct User {
    /// The Discord ID of this user.
    pub id: u64,
    /// The username of this user.
    pub username: String,
    /// The user's bio.
    pub bio: Option<String>,
    /// A URL of this user's profile banner image.
    pub banner: Option<String>,
    /// This user's social links.
    pub socials: Option<Socials>,
    /// Whether this user is a supporter of the listing service.
    pub is_supporter: bool,
    /// Whether this user is a certified developer.
    pub is_certified_dev: bool,
    /// Whether this user is a moderator.
    pub is_moderator: bool,
    /// Whether this user is a website moderator.
    pub is_web_moderator: bool,
    /// Whether this user is a website administrator.
    pub is_admin: bool,
    /// The avatar hash, if the user has a custom avatar.
    pub avatar: Option<String>,
}

impl User {
    /// The creation time of this user's account, in milliseconds from the
    /// Unix epoch, decoded from the ID.
    pub fn created_at(&self) -> (r: u64)
        ensures
            r == (self.id >> 22) + DISCORD_EPOCH,
    {
        get_creation_date(self.id)
    }

    /// The CDN URL of this user's avatar, in PNG form, or GIF form when
    /// animated.
    pub fn avatar(&self) -> (r: String)
        ensures
            r@ == spec_avatar_url(match self.avatar {
                Some(h) => Some(h@),
                None => None,
            }, self.id),
    {
        get_avatar(&self.avatar, self.id)
    }
}

/// A user who has voted for a bot listed on the service.
#[must_use]
pub struct Voter {
    /// The Discord ID of this user.
    pub id: u64,
    /// The username of this user.
    pub username: String,
    /// The avatar hash, if the user has a custom avatar.
    pub avatar: Option<String>,
}

impl Voter {
    /// The creation time of this voter's account, in milliseconds from the
    /// Unix epoch, decoded from the ID.
    pub fn created_at(&self) -> (r: u64)
        ensures
            r == (self.id >> 22) + DISCORD_EPOCH,
    {
        get_creation_date(self.id)
    }

    /// The CDN URL of this voter's avatar, in PNG form, or GIF form when
    /// animated.
    pub fn avatar(&self) -> (r: String)
        ensures
            r@ == spec_avatar_url(match self.avatar {
                Some(h) => Some(h@),
                None => None,
            }, self.id),
    {
        get_avatar(&self.avatar, self.id)
    }
}

} // verus!
