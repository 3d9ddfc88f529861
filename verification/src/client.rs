//! The API client: token handling and the request targets and response
//! readings of each endpoint. The HTTP transport itself lives outside this
//! crate and consults these functions for what to send and how to read what
//! came back.

use vstd::prelude::*;
use crate::text::{spec_decimal, u64_to_string};

verus! {

/// The client state shared with the autoposting task: the authorization
/// header value it sends.
pub struct InnerClient {
    token: String,
}

impl InnerClient {
    /// The authorization header value: the token behind a `Bearer ` scheme.
    pub closed spec fn token_view(&self) -> Seq<char> {
        self.token@
    }

    /// Creates the shared client state from a raw API token.
    pub fn new(token: String) -> (r: Self)
        ensures
            r.token_view() == "Bearer "@ + token@,
    {
        let mut t = String::from_str("Bearer ");
        t.append(token.as_str());
        InnerClient { token: t }
    }

    /// The authorization header value to send with every request.
    pub fn auth_header(&self) -> (r: &str)
        ensures
            r@ == self.token_view(),
    {
        self.token.as_str()
    }
}

/// A client instance of the listing API, created from an API token.
#[must_use]
pub struct Client {
    inner: InnerClient,
}

impl Client {
    /// The authorization header value this client sends.
    pub closed spec fn token_view(&self) -> Seq<char> {
        self.inner.token_view()
    }

    /// Creates a brand new client instance from an API token.
    pub fn new(token: String) -> (r: Self)
        ensures
            r.token_view() == "Bearer "@ + token@,
    {
        Client { inner: InnerClient::new(token) }
    }

    /// The authorization header value to send with every request.
    pub fn auth_header(&self) -> (r: &str)
        ensures
            r@ == self.token_view(),
    {
        self.inner.auth_header()
    }
}

/// A value that can be interpreted as a client of the listing API: an
/// existing [`Client`], or a raw API token.
pub trait AsClientSealed {
    /// The authorization header value of the client this value denotes.
    spec fn client_token(&self) -> Seq<char>;

    /// Interprets this value as a client of the listing API.
    fn as_client(&self) -> (r: Client)
        ensures
            r.token_view() == self.client_token(),
    ;
}

/// The public face of [`AsClientSealed`].
pub trait AsClient: AsClientSealed {

}

impl AsClientSealed for str {
    /// A raw token denotes a fresh client around it.
    open spec fn client_token(&self) -> Seq<char> {
        "Bearer "@ + self@
    }

    fn as_client(&self) -> (r: Client) {
        Client::new(self.to_owned())
    }
}

impl AsClient for str {

}

impl AsClientSealed for Client {
    /// A client denotes itself.
    open spec fn client_token(&self) -> Seq<char> {
        self.token_view()
    }

    fn as_client(&self) -> (r: Client) {
        Client { inner: InnerClient { token: self.inner.token.clone() } }
    }
}

impl AsClient for Client {

}

/// The URL a user is fetched from.
pub fn api_user_url(id: u64) -> (r: String)
    ensures
        r@ == "https://top.gg/api/users/"@ + spec_decimal(id as int),
{
    let mut r = String::from_str("https://top.gg/api/users/");
    let num = u64_to_string(id);
    r.append(num.as_str());
    r
}

/// The URL a listed bot is fetched from.
pub fn api_bot_url(id: u64) -> (r: String)
    ensures
        r@ == "https://top.gg/api/bots/"@ + spec_decimal(id as int),
{
    let mut r = String::from_str("https://top.gg/api/bots/");
    let num = u64_to_string(id);
    r.append(num.as_str());
    r
}

/// The URL a vote check for a user goes to.
pub fn api_voted_url(user_id: u64) -> (r: String)
    ensures
        r@ == "https://top.gg/api/bots/check?userId="@ + spec_decimal(user_id as int),
{
    let mut r = String::from_str("https://top.gg/api/bots/check?userId=");
    let num = u64_to_string(user_id);
    r.append(num.as_str());
    r
}

/// The URL a bot search goes to, for a finished query string.
pub fn api_bots_url(query: &str) -> (r: String)
    ensures
        r@ == "https://top.gg/api/bots"@ + query@,
{
    let mut r = String::from_str("https://top.gg/api/bots");
    r.append(query);
    r
}

/// How a vote-check response is read: any non-zero count means the user has
/// voted.
pub fn voted_from_response(voted: u8) -> (r: bool)
    ensures
        r == (voted != 0),
{
    voted != 0
}

} // verus!
