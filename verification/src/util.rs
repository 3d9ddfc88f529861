//! Shared helpers: CDN URL building, snowflake timestamps, and the
//! percent-encoding calls the query builders rely on.

use vstd::prelude::*;
use crate::models::DISCORD_EPOCH;
use crate::text::{spec_decimal, u64_to_string};

verus! {

/// What `urlencoding::encode` returns for a given input.
pub uninterp spec fn url_encoded(s: Seq<char>) -> Seq<char>;

/// What `urlencoding::decode` returns for a given input: the decoded text, or
/// nothing when the decoded bytes are not valid UTF-8.
pub uninterp spec fn url_decoded(s: Seq<char>) -> Option<Seq<char>>;

/// Relies on `urlencoding::encode`: percent-encodes every byte except ASCII
/// alphanumerics and `-`, `_`, `.`, `~`; the result depends on the input
/// characters alone, and an empty input stays empty.
#[verifier::external_body]
pub(crate) fn url_encode(s: &str) -> (r: String)
    ensures
        r@ == url_encoded(s@),
        s@.len() == 0 ==> r@.len() == 0,
{
    urlencoding::encode(s).into_owned()
}

/// Relies on `urlencoding::decode`: undoes percent-encoding, failing exactly
/// when the decoded bytes are not valid UTF-8; the result depends on the
/// input characters alone.
#[verifier::external_body]
pub(crate) fn url_decode(s: &str) -> (r: Option<String>)
    ensures
        match r {
            Some(t) => url_decoded(s@) == Some(t@),
            None => url_decoded(s@) is None,
        },
{
    match urlencoding::decode(s) {
        Ok(t) => Some(t.into_owned()),
        Err(_) => None,
    }
}

/// The creation time encoded in a snowflake ID, in milliseconds from the Unix
/// epoch: its timestamp bits offset by the Discord epoch.
pub fn get_creation_date(id: u64) -> (r: u64)
    ensures
        r == (id >> 22) + DISCORD_EPOCH,
{
    proof {
        assert(id >> 22 <= 0x3FF_FFFF_FFFFu64) by (bit_vector);
    }
    (id >> 22) + DISCORD_EPOCH
}

/// Whether an avatar hash marks an animated avatar: it starts with `a_`.
pub open spec fn spec_animated_hash(h: Seq<char>) -> bool {
    h.len() >= 2 && h[0] == 'a' && h[1] == '_'
}

/// The CDN avatar URL for the given optional avatar hash and ID: the hashed
/// avatar in GIF form when animated and PNG form otherwise, or one of the
/// five default embed avatars picked from the ID's timestamp bits.
pub open spec fn spec_avatar_url(hash: Option<Seq<char>>, id: u64) -> Seq<char> {
    match hash {
        Some(h) => "https://cdn.discordapp.com/avatars/"@ + spec_decimal(id as int) + "/"@ + h
            + "."@ + (if spec_animated_hash(h) {
            "gif"@
        } else {
            "png"@
        }) + "?size=1024"@,
        None => "https://cdn.discordapp.com/embed/avatars/"@ + spec_decimal(
            ((id >> 22) % 5) as int,
        ) + ".png"@,
    }
}

/// Builds the CDN avatar URL for an optional avatar hash and an ID.
pub fn get_avatar(hash: &Option<String>, id: u64) -> (r: String)
    ensures
        r@ == spec_avatar_url(match hash {
            Some(h) => Some(h@),
            None => None,
        }, id),
{
    match hash {
        Some(h) => {
            let mut r = String::from_str("https://cdn.discordapp.com/avatars/");
            let num = u64_to_string(id);
            r.append(num.as_str());
            r.append("/");
            r.append(h.as_str());
            r.append(".");
            let animated = h.as_str().unicode_len() >= 2 && h.as_str().get_char(0) == 'a'
                && h.as_str().get_char(1) == '_';
            if animated {
                r.append("gif");
            } else {
                r.append("png");
            }
            r.append("?size=1024");
            proof {
                assert(r@ =~= spec_avatar_url(Some(h@), id));
            }
            r
        },
        None => {
            let mut r = String::from_str("https://cdn.discordapp.com/embed/avatars/");
            let num = u64_to_string((id >> 22) % 5);
            r.append(num.as_str());
            r.append(".png");
            proof {
                assert(r@ =~= spec_avatar_url(None, id));
            }
            r
        },
    }
}

/// Turns the empty string into nothing, as the API's optional string fields
/// are normalised on arrival.
pub fn normalize_optional_string(s: Option<String>) -> (r: Option<String>)
    ensures
        match s {
            Some(t) => if t@.len() == 0 {
                r is None
            } else {
                r == Some(t)
            },
            None => r is None,
        },
{
    match s {
        Some(t) => if t.as_str().is_empty() {
            None
        } else {
            Some(t)
        },
        None => None,
    }
}

} // verus!
