//! The raw HTTP/1.1 side of the client: building the request text that goes
//! over the wire, and reading the status and body out of the response text.
//! The socket itself lives outside this crate.

use vstd::prelude::*;
use vstd::string::StringSliceAdditionalSpecFns;
use crate::text::{spec_decimal, spec_parse_u64, parse_u64, u64_to_string};

verus! {

/// The request method of a fetch.
pub const GET: &'static str = "GET";

/// The request method of a statistics post.
pub const POST: &'static str = "POST";

/// A raw HTTP client for the listing API, holding the API token it
/// authorizes requests with.
#[derive(Clone)]
pub struct Http {
    token: String,
}

impl Http {
    /// The raw API token sent behind the `Bearer ` scheme.
    pub closed spec fn token_view(&self) -> Seq<char> {
        self.token@
    }

    /// Creates a raw client from an API token.
    pub fn new(token: String) -> (r: Self)
        ensures
            r.token_view() == token@,
    {
        Http { token }
    }

    /// The full HTTP/1.1 request text for a method, an API path and an
    /// optional body: the request line, the authorization and framing
    /// headers — the content length counting the body's bytes — and the body
    /// after the blank line.
    pub fn request_payload(&self, predicate: &str, path: &str, body: Option<&str>) -> (r:
        String)
        ensures
            r@ == spec_request_payload(self.token_view(), predicate@, path@, match body {
                Some(b) => b@,
                None => Seq::<char>::empty(),
            }, spec_body_byte_len(body)),
    {
        let body_str: &str = match body {
            Some(b) => b,
            None => "",
        };
        proof {
            reveal_strlit("");
            assert(body_str@ =~= match body {
                Some(b) => b@,
                None => Seq::<char>::empty(),
            });
            if body is None {
                assert(body_str.spec_bytes() =~= Seq::<u8>::empty());
            }
        }
        let mut r = String::new();
        r.append(predicate);
        r.append(" /api");
        r.append(path);
        r.append(" HTTP/1.1\r\nAuthorization: Bearer ");
        r.append(self.token.as_str());
        r.append("\r\nConnection: close\r\nContent-Length: ");
        let len = u64_to_string(body_str.len() as u64);
        r.append(len.as_str());
        r.append("\r\nContent-Type: application/json\r\nHost: top.gg\r\nUser-Agent: topgg (https://github.com/top-gg/rust-sdk) Rust/\r\n\r\n");
        r.append(body_str);
        proof {
            assert(r@ =~= spec_request_payload(self.token_view(), predicate@, path@, body_str@,
                spec_body_byte_len(body)));
        }
        r
    }
}

/// The byte length of an optional body, as the content-length header counts
/// it.
pub open spec fn spec_body_byte_len(body: Option<&str>) -> int {
    match body {
        Some(b) => (b.spec_bytes().len() as usize) as int,
        None => 0,
    }
}

/// The request text [`Http::request_payload`] builds.
pub open spec fn spec_request_payload(
    token: Seq<char>,
    predicate: Seq<char>,
    path: Seq<char>,
    body: Seq<char>,
    body_len: int,
) -> Seq<char> {
    predicate + " /api"@ + path + " HTTP/1.1\r\nAuthorization: Bearer "@ + token
        + "\r\nConnection: close\r\nContent-Length: "@ + spec_decimal(body_len)
        + "\r\nContent-Type: application/json\r\nHost: top.gg\r\nUser-Agent: topgg (https://github.com/top-gg/rust-sdk) Rust/\r\n\r\n"@
        + body
}

/// Whether a character is ASCII whitespace, as response tokens are split.
pub open spec fn spec_is_ws(c: char) -> bool {
    c == ' ' || c == '\t' || c == '\n' || c == '\r' || c == '\u{c}'
}

/// The first position at or after `i` holding a non-whitespace character,
/// or the length when none is left.
pub open spec fn spec_skip_ws(s: Seq<char>, i: int) -> int
    decreases s.len() - i,
{
    if i < 0 || i >= s.len() {
        s.len() as int
    } else if spec_is_ws(s[i]) {
        spec_skip_ws(s, i + 1)
    } else {
        i
    }
}

/// The first position at or after `i` holding a whitespace character, or
/// the length when none is left.
pub open spec fn spec_skip_token(s: Seq<char>, i: int) -> int
    decreases s.len() - i,
{
    if i < 0 || i >= s.len() {
        s.len() as int
    } else if !spec_is_ws(s[i]) {
        spec_skip_token(s, i + 1)
    } else {
        i
    }
}

/// The second whitespace-separated token of a response: where an HTTP/1.1
/// status line carries its status code.
pub open spec fn spec_second_token(s: Seq<char>) -> Seq<char> {
    let a1 = spec_skip_ws(s, 0);
    let b1 = spec_skip_token(s, a1);
    let a2 = spec_skip_ws(s, b1);
    let b2 = spec_skip_token(s, a2);
    s.subrange(a2, b2)
}

/// What reading the status code out of a response text returns: its second
/// whitespace-separated token parsed as a decimal number, when that token
/// exists, parses, and fits a status code's width.
pub open spec fn spec_status_code(s: Seq<char>) -> Option<u16> {
    match spec_parse_u64(spec_second_token(s)) {
        Some(v) => if v <= u16::MAX {
            Some(v as u16)
        } else {
            None
        },
        None => None,
    }
}

/// Whether a character is ASCII whitespace.
fn is_ws(c: char) -> (r: bool)
    ensures
        r == spec_is_ws(c),
{
    c == ' ' || c == '\t' || c == '\n' || c == '\r' || c == '\u{c}'
}

/// Scans from `i` to the first non-whitespace position.
fn skip_ws(s: &str, i: usize) -> (r: usize)
    requires
        i <= s@.len(),
    ensures
        r == spec_skip_ws(s@, i as int),
        i <= r <= s@.len(),
{
    let len = s.unicode_len();
    let mut j = i;
    while j < len
        invariant
            i <= j <= len == s@.len(),
            spec_skip_ws(s@, i as int) == spec_skip_ws(s@, j as int),
        decreases len - j,
    {
        if !is_ws(s.get_char(j)) {
            return j;
        }
        j = j + 1;
    }
    j
}

/// Scans from `i` to the first whitespace position.
fn skip_token(s: &str, i: usize) -> (r: usize)
    requires
        i <= s@.len(),
    ensures
        r == spec_skip_token(s@, i as int),
        i <= r <= s@.len(),
{
    let len = s.unicode_len();
    let mut j = i;
    while j < len
        invariant
            i <= j <= len == s@.len(),
            spec_skip_token(s@, i as int) == spec_skip_token(s@, j as int),
        decreases len - j,
    {
        if is_ws(s.get_char(j)) {
            return j;
        }
        j = j + 1;
    }
    j
}

/// Reads the status code out of a raw response text: the second
/// whitespace-separated token — the code of the status line — parsed as a
/// decimal number. Returns nothing on a response too malformed to carry one.
pub fn parse_status_code(response: &str) -> (r: Option<u16>)
    ensures
        r == spec_status_code(response@),
{
    let a1 = skip_ws(response, 0);
    let b1 = skip_token(response, a1);
    let a2 = skip_ws(response, b1);
    let b2 = skip_token(response, a2);
    let token = response.substring_char(a2, b2);
    proof {
        assert(token@ == spec_second_token(response@));
    }
    match parse_u64(token) {
        Some(v) => if v <= 65535 {
            Some(v as u16)
        } else {
            None
        },
        None => None,
    }
}

/// The first position where a header-terminating blank line — carriage
/// return, line feed, twice — starts, or nothing when none occurs.
pub open spec fn spec_find_blank_line(s: Seq<char>, i: int) -> Option<int>
    decreases s.len() - i,
{
    if i < 0 || i + 4 > s.len() {
        None
    } else if s[i] == '\r' && s[i + 1] == '\n' && s[i + 2] == '\r' && s[i + 3] == '\n' {
        Some(i)
    } else {
        spec_find_blank_line(s, i + 1)
    }
}

/// What splitting the body off a response text returns: everything after
/// the first blank line, when the response has one.
pub open spec fn spec_response_body(s: Seq<char>) -> Option<Seq<char>> {
    match spec_find_blank_line(s, 0) {
        Some(i) => Some(s.subrange(i + 4, s.len() as int)),
        None => None,
    }
}

/// Splits the body off a raw response text: everything after the first
/// blank line separating the headers from the body. Returns nothing on a
/// response without one.
pub fn response_body(response: &str) -> (r: Option<String>)
    ensures
        match r {
            Some(b) => spec_response_body(response@) == Some(b@),
            None => spec_response_body(response@) is None,
        },
{
    let len = response.unicode_len();
    if len < 4 {
        return None;
    }
    let mut i: usize = 0;
    while i <= len - 4
        invariant
            4 <= len == response@.len(),
            i <= len,
            spec_find_blank_line(response@, 0) == spec_find_blank_line(response@, i as int),
        decreases len - i,
    {
        if response.get_char(i) == '\r' && response.get_char(i + 1) == '\n' && response
            .get_char(i + 2) == '\r' && response.get_char(i + 3) == '\n' {
            let body = response.substring_char(i + 4, len);
            return Some(body.to_owned());
        }
        i = i + 1;
    }
    None
}

} // verus!
