//! Vote webhook data: the dispatched vote event, the query string attached
//! to it, and authentication of incoming requests.

use vstd::prelude::*;
use crate::util::{url_decode, url_decoded};

verus! {

/// The position of the first occurrence of a character, if any.
pub open spec fn first_index_of(s: Seq<char>, c: char) -> Option<int>
    decreases s.len(),
{
    if s.len() == 0 {
        None
    } else if s[0] == c {
        Some(0)
    } else {
        match first_index_of(s.drop_first(), c) {
            Some(i) => Some(i + 1),
            None => None,
        }
    }
}

/// What [`first_index_of`] finds: the least position holding the character,
/// or nothing when the character does not occur.
pub proof fn lemma_first_index_of(s: Seq<char>, c: char)
    ensures
        match first_index_of(s, c) {
            Some(i) => {
                &&& 0 <= i < s.len()
                &&& s[i] == c
                &&& forall|k: int| 0 <= k < i ==> s[k] != c
            },
            None => forall|k: int| 0 <= k < s.len() ==> s[k] != c,
        },
    decreases s.len(),
{
    if s.len() > 0 && s[0] != c {
        lemma_first_index_of(s.drop_first(), c);
        assert(forall|k: int| 1 <= k < s.len() ==> s[k] == s.drop_first()[k - 1]);
    }
}

/// Finds the first occurrence of a character in a string.
pub fn find_char(s: &str, c: char) -> (r: Option<usize>)
    ensures
        match r {
            Some(i) => first_index_of(s@, c) == Some(i as int),
            None => first_index_of(s@, c) is None,
        },
{
    proof {
        lemma_first_index_of(s@, c);
    }
    let len = s.unicode_len();
    let mut i: usize = 0;
    while i < len
        invariant
            i <= len == s@.len(),
            forall|k: int| 0 <= k < i ==> s@[k] != c,
        decreases len - i,
    {
        if s.get_char(i) == c {
            proof {
                lemma_first_index_of(s@, c);
            }
            return Some(i);
        }
        i = i + 1;
    }
    proof {
        lemma_first_index_of(s@, c);
    }
    None
}

/// The segments of a character sequence between occurrences of a separator:
/// always at least one segment, the separators themselves dropped.
pub open spec fn split_on(s: Seq<char>, c: char) -> Seq<Seq<char>>
    decreases s.len(),
{
    match first_index_of(s, c) {
        None => seq![s],
        Some(i) => if 0 <= i < s.len() {
            seq![s.subrange(0, i)] + split_on(s.subrange(i + 1, s.len() as int), c)
        } else {
            seq![s]
        },
    }
}

/// Splits a string on a separator character.
pub fn split_str(s: &str, c: char) -> (r: Vec<String>)
    ensures
        r.deep_view() == split_on(s@, c),
    decreases s@.len(),
{
    proof {
        lemma_first_index_of(s@, c);
    }
    match find_char(s, c) {
        None => {
            let mut r: Vec<String> = Vec::new();
            r.push(s.to_owned());
            proof {
                assert(r.deep_view() =~= split_on(s@, c));
            }
            r
        },
        Some(i) => {
            let len = s.unicode_len();
            let head = s.substring_char(0, i).to_owned();
            let rest = s.substring_char(i + 1, len);
            let mut r = split_str(rest, c);
            r.insert(0, head);
            proof {
                assert(r.deep_view() =~= split_on(s@, c));
            }
            r
        },
    }
}

/// The mapping an entry list denotes: entries applied in order, a later
/// entry overriding an earlier one with the same key.
pub open spec fn entries_map(s: Seq<(String, String)>) -> Map<Seq<char>, Seq<char>>
    decreases s.len(),
{
    if s.len() == 0 {
        Map::empty()
    } else {
        entries_map(s.drop_last()).insert(s.last().0@, s.last().1@)
    }
}

/// A key is in the mapping exactly when some entry carries it.
pub proof fn lemma_entries_map_dom(s: Seq<(String, String)>, k: Seq<char>)
    ensures
        entries_map(s).contains_key(k) <==> exists|i: int|
            0 <= i < s.len() && #[trigger] s[i].0@ == k,
    decreases s.len(),
{
    if s.len() > 0 {
        lemma_entries_map_dom(s.drop_last(), k);
        if entries_map(s).contains_key(k) {
            if s.last().0@ == k {
                assert(s[s.len() - 1].0@ == k);
            }
        }
        if exists|i: int| 0 <= i < s.len() && #[trigger] s[i].0@ == k {
            let i = choose|i: int| 0 <= i < s.len() && #[trigger] s[i].0@ == k;
            if i < s.len() - 1 {
                assert(s.drop_last()[i].0@ == k);
            }
        }
    }
}

/// With unique keys, replacing the entry that holds a key updates the
/// denoted mapping exactly as an insert does.
proof fn lemma_entries_map_update(s: Seq<(String, String)>, i: int, e: (String, String))
    requires
        0 <= i < s.len(),
        s[i].0@ == e.0@,
        forall|a: int, b: int|
            0 <= a < b < s.len() ==> (#[trigger] s[a].0)@ != (#[trigger] s[b].0)@,
    ensures
        entries_map(s.update(i, e)) =~= entries_map(s).insert(e.0@, e.1@),
    decreases s.len(),
{
    let t = s.update(i, e);
    if i == s.len() - 1 {
        assert(t.drop_last() =~= s.drop_last());
    } else {
        assert(t.drop_last() =~= s.drop_last().update(i, e));
        lemma_entries_map_update(s.drop_last(), i, e);
        assert(s.last().0@ != e.0@);
        assert(t.last() == s.last());
    }
}

/// Query strings attached to a vote event, as a key-to-value mapping built
/// from an entry list with unique keys.
pub struct QueryMap {
    entries: Vec<(String, String)>,
}

impl View for QueryMap {
    type V = Map<Seq<char>, Seq<char>>;

    closed spec fn view(&self) -> Map<Seq<char>, Seq<char>> {
        entries_map(self.entries@)
    }
}

impl QueryMap {
    /// No two entries carry the same key.
    pub closed spec fn wf(&self) -> bool {
        forall|a: int, b: int|
            0 <= a < b < self.entries@.len() ==> (#[trigger] self.entries@[a].0)@ != (
            #[trigger] self.entries@[b].0)@
    }

    /// Creates an empty mapping.
    pub fn new() -> (r: Self)
        ensures
            r@ == Map::<Seq<char>, Seq<char>>::empty(),
            r.wf(),
    {
        let r = QueryMap { entries: Vec::new() };
        proof {
            assert(r@ =~= Map::<Seq<char>, Seq<char>>::empty());
        }
        r
    }

    /// Inserts a key-value pair, overriding any earlier value for the key.
    pub fn insert(&mut self, key: String, value: String)
        requires
            old(self).wf(),
        ensures
            final(self)@ == old(self)@.insert(key@, value@),
            final(self).wf(),
    {
        let n = self.entries.len();
        let mut i: usize = 0;
        while i < n
            invariant
                n == self.entries@.len(),
                i <= n,
                self.entries@ == old(self).entries@,
                old(self).wf(),
                forall|k: int| 0 <= k < i ==> (#[trigger] self.entries@[k].0)@ != key@,
            decreases n - i,
        {
            if str_eq(self.entries[i].0.as_str(), key.as_str()) {
                proof {
                    lemma_entries_map_update(self.entries@, i as int, (key, value));
                }
                self.entries.set(i, (key, value));
                proof {
                    assert(forall|a: int, b: int|
                        0 <= a < b < self.entries@.len() ==> (#[trigger] self.entries@[a].0)@
                            != (#[trigger] self.entries@[b].0)@);
                }
                return;
            }
            i = i + 1;
        }
        self.entries.push((key, value));
        proof {
            assert(self.entries@.drop_last() =~= old(self).entries@);
        }
    }

    /// Looks a key up, returning a copy of its value when present.
    pub fn get(&self, key: &str) -> (r: Option<String>)
        requires
            self.wf(),
        ensures
            match r {
                Some(v) => self@.contains_key(key@) && v@ == self@[key@],
                None => !self@.contains_key(key@),
            },
    {
        proof {
            lemma_entries_map_dom(self.entries@, key@);
        }
        let n = self.entries.len();
        let mut i: usize = 0;
        while i < n
            invariant
                n == self.entries@.len(),
                i <= n,
                self.wf(),
                forall|k: int| 0 <= k < i ==> (#[trigger] self.entries@[k].0)@ != key@,
            decreases n - i,
        {
            if str_eq(self.entries[i].0.as_str(), key) {
                proof {
                    lemma_entries_map_at(self.entries@, i as int);
                }
                return Some(self.entries[i].1.clone());
            }
            i = i + 1;
        }
        None
    }
}

/// With unique keys, the mapping sends an entry's key to that entry's value.
proof fn lemma_entries_map_at(s: Seq<(String, String)>, i: int)
    requires
        0 <= i < s.len(),
        forall|a: int, b: int|
            0 <= a < b < s.len() ==> (#[trigger] s[a].0)@ != (#[trigger] s[b].0)@,
    ensures
        entries_map(s).contains_key(s[i].0@),
        entries_map(s)[s[i].0@] == s[i].1@,
    decreases s.len(),
{
    if i < s.len() - 1 {
        lemma_entries_map_at(s.drop_last(), i);
        assert(s.drop_last()[i] == s[i]);
        assert(s.last().0@ != s[i].0@);
    }
}

/// The key-value entry a query-string segment denotes, if any: the key is
/// what stands before the first `=`, the value is what stands between the
/// first and second `=`, percent-decoded. A segment without `=`, or whose
/// value does not decode, denotes nothing.
pub open spec fn spec_entry_of(p: Seq<char>) -> Option<(Seq<char>, Seq<char>)> {
    let segs = split_on(p, '=');
    if segs.len() >= 2 {
        match url_decoded(segs[1]) {
            Some(d) => Some((segs[0], d)),
            None => None,
        }
    } else {
        None
    }
}

/// Parses one query-string segment into its key-value entry, if any.
pub fn parse_entry(p: &str) -> (r: Option<(String, String)>)
    ensures
        match r {
            Some(e) => spec_entry_of(p@) == Some((e.0@, e.1@)),
            None => spec_entry_of(p@) is None,
        },
{
    let segs = split_str(p, '=');
    if segs.len() >= 2 {
        match url_decode(segs[1].as_str()) {
            Some(d) => Some((segs[0].clone(), d)),
            None => None,
        }
    } else {
        None
    }
}

/// The mapping a sequence of query-string segments denotes: entries applied
/// in order, a later segment overriding an earlier one with the same key,
/// segments denoting nothing skipped.
pub open spec fn fold_pairs(parts: Seq<Seq<char>>) -> Map<Seq<char>, Seq<char>>
    decreases parts.len(),
{
    if parts.len() == 0 {
        Map::empty()
    } else {
        let m = fold_pairs(parts.drop_last());
        match spec_entry_of(parts.last()) {
            Some(e) => m.insert(e.0, e.1),
            None => m,
        }
    }
}

/// The mapping a whole query string denotes: its `&`-separated segments,
/// folded in order.
pub open spec fn spec_query_map(s: Seq<char>) -> Map<Seq<char>, Seq<char>> {
    fold_pairs(split_on(s, '&'))
}

/// Parses a query string of `&`-separated `key=value` segments into a
/// mapping, percent-decoding the values; on duplicate keys the last segment
/// wins, and malformed segments are skipped.
pub fn parse_query_string(s: &str) -> (r: QueryMap)
    ensures
        r@ == spec_query_map(s@),
        r.wf(),
{
    let parts = split_str(s, '&');
    let mut map = QueryMap::new();
    let n = parts.len();
    let mut i: usize = 0;
    while i < n
        invariant
            n == parts@.len(),
            i <= n,
            parts.deep_view() == split_on(s@, '&'),
            map@ == fold_pairs(parts.deep_view().subrange(0, i as int)),
            map.wf(),
        decreases n - i,
    {
        proof {
            assert(parts.deep_view().subrange(0, i + 1).drop_last() =~= parts.deep_view()
                .subrange(0, i as int));
            assert(parts.deep_view().subrange(0, i + 1).last() == parts@[i as int]@);
        }
        match parse_entry(parts[i].as_str()) {
            Some(e) => {
                map.insert(e.0, e.1);
            },
            None => {},
        }
        i = i + 1;
    }
    proof {
        assert(parts.deep_view().subrange(0, n as int) =~= parts.deep_view());
    }
    map
}

/// A dispatched vote event for a bot or a server.
#[must_use]
pub struct Vote {
    /// The ID of the bot or server that received a vote.
    pub receiver_id: u64,
    /// The ID of the user who voted.
    pub voter_id: u64,
    /// Whether this vote's receiver is a server (a bot otherwise).
    pub is_server: bool,
    /// Whether this vote is just a test from the owner of the bot or server.
    pub is_test: bool,
    /// Whether the weekend multiplier is active, a single vote counting as
    /// two; always false for a server vote.
    pub is_weekend: bool,
    /// The query strings found on the vote page.
    pub query: QueryMap,
}

/// Whether a vote's dispatched type string marks it as a test.
pub fn vote_type_is_test(vote_type: &str) -> (r: bool)
    ensures
        r == (vote_type@ == "test"@),
{
    str_eq(vote_type, "test")
}

/// The default for a vote's server flag, used when the payload does not
/// carry a bot field.
pub fn _true() -> (r: bool)
    ensures
        r,
{
    true
}

/// An unauthenticated incoming webhook request carrying a vote.
#[must_use]
pub struct IncomingVote {
    /// The value of the request's authorization header.
    pub authorization: String,
    /// The vote carried in the request body.
    pub vote: Vote,
}

impl IncomingVote {
    /// Authenticates the request: hands the vote out exactly when the
    /// authorization header matches the configured password.
    pub fn authenticate(self, password: &str) -> (r: Option<Vote>)
        ensures
            self.authorization@ == password@ ==> r == Some(self.vote),
            self.authorization@ != password@ ==> r is None,
    {
        if str_eq(self.authorization.as_str(), password) {
            Some(self.vote)
        } else {
            None
        }
    }
}

/// The decision at the webhook endpoint: accepts the vote exactly when the
/// request carried an authorization header that matches the password and a
/// body that parsed as a vote; anything else is rejected as unauthorized.
pub fn webhook(password: &str, authorization: Option<&str>, vote: Option<Vote>) -> (r: Option<
    Vote,
>)
    ensures
        match (authorization, vote) {
            (Some(a), Some(_)) => if a@ == password@ {
                r == vote
            } else {
                r is None
            },
            _ => r is None,
        },
{
    match (authorization, vote) {
        (Some(a), Some(v)) => if str_eq(a, password) {
            Some(v)
        } else {
            None
        },
        _ => None,
    }
}

/// Whether two strings hold the same characters.
pub fn str_eq(a: &str, b: &str) -> (r: bool)
    ensures
        r == (a@ == b@),
{
    let n = a.unicode_len();
    if n != b.unicode_len() {
        return false;
    }
    let mut i: usize = 0;
    while i < n
        invariant
            n == a@.len() == b@.len(),
            i <= n,
            forall|k: int| 0 <= k < i ==> a@[k] == b@[k],
        decreases n - i,
    {
        if a.get_char(i) != b.get_char(i) {
            return false;
        }
        i = i + 1;
    }
    proof {
        assert(a@ =~= b@);
    }
    true
}

} // verus!
