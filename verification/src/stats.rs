//! The statistics snapshot that the autoposter buffers and posts.

use vstd::prelude::*;

verus! {

/// The mathematical value of a [`Stats`] snapshot.
#[verifier::ext_equal]
pub ghost struct StatsView {
    pub server_count: Option<usize>,
    pub shard_count: Option<usize>,
    pub shards: Option<Seq<usize>>,
    pub shard_id: Option<usize>,
}

/// A Discord bot's statistics snapshot: an immutable value object fed to the
/// autoposter and posted wholesale to the listing service.
#[derive(Debug)]
pub struct Stats {
    /// The total number of servers, if known.
    pub server_count: Option<usize>,
    /// The number of shards, if known.
    pub shard_count: Option<usize>,
    /// The per-shard server counts, if posted shard by shard.
    pub shards: Option<Vec<usize>>,
    /// The index of the shard posting this snapshot.
    pub shard_id: Option<usize>,
}

impl View for Stats {
    type V = StatsView;

    open spec fn view(&self) -> StatsView {
        StatsView {
            server_count: self.server_count,
            shard_count: self.shard_count,
            shards: match self.shards {
                Some(v) => Some(v@),
                None => None,
            },
            shard_id: self.shard_id,
        }
    }
}

/// The sum of a sequence of per-shard server counts.
pub open spec fn sum_of(s: Seq<usize>) -> int
    decreases s.len(),
{
    if s.len() == 0 {
        0
    } else {
        sum_of(s.drop_last()) + s.last()
    }
}

/// Every prefix sum is bounded by the sum of the whole sequence.
pub proof fn lemma_sum_of_prefix(s: Seq<usize>, i: int)
    requires
        0 <= i <= s.len(),
    ensures
        sum_of(s.subrange(0, i)) <= sum_of(s),
        sum_of(s.subrange(0, i)) >= 0,
    decreases s.len() - i,
{
    lemma_sum_of_nonneg(s.subrange(0, i));
    if i == s.len() {
        assert(s.subrange(0, i) =~= s);
    } else {
        lemma_sum_of_prefix(s, i + 1);
        assert(s.subrange(0, i + 1).drop_last() =~= s.subrange(0, i));
        assert(sum_of(s.subrange(0, i + 1)) == sum_of(s.subrange(0, i)) + s[i]);
    }
}

/// A sum of unsigned counts is never negative.
pub proof fn lemma_sum_of_nonneg(s: Seq<usize>)
    ensures
        sum_of(s) >= 0,
    decreases s.len(),
{
    if s.len() > 0 {
        lemma_sum_of_nonneg(s.drop_last());
    }
}

/// Sums a slice of per-shard server counts.
pub fn sum_slice(shards: &[usize]) -> (total: usize)
    requires
        sum_of(shards@) <= usize::MAX,
    ensures
        total == sum_of(shards@),
{
    let mut total: usize = 0;
    let mut i: usize = 0;
    while i < shards.len()
        invariant
            i <= shards@.len(),
            total == sum_of(shards@.subrange(0, i as int)),
            sum_of(shards@) <= usize::MAX,
        decreases shards@.len() - i,
    {
        proof {
            lemma_sum_of_prefix(shards@, i + 1);
            assert(shards@.subrange(0, i + 1).drop_last() =~= shards@.subrange(0, i as int));
        }
        total = total + shards[i];
        i = i + 1;
    }
    proof {
        assert(shards@.subrange(0, shards@.len() as int) =~= shards@);
    }
    total
}

impl Stats {
    /// Whether the shard breakdown, if present, has a total that fits in a
    /// machine word; established by the constructors.
    pub open spec fn wf(&self) -> bool {
        match self@.shards {
            Some(s) => sum_of(s) <= usize::MAX,
            None => true,
        }
    }

    /// Creates a snapshot from a total server count and, optionally, a shard
    /// count.
    pub fn from_count(server_count: usize, shard_count: Option<usize>) -> (r: Self)
        ensures
            r@ == (StatsView {
                server_count: Some(server_count),
                shard_count,
                shards: None,
                shard_id: None,
            }),
            r.wf(),
    {
        Self { server_count: Some(server_count), shard_count, shards: None, shard_id: None }
    }

    /// Creates a snapshot from per-shard server counts and, optionally, the
    /// index of the shard posting it.
    pub fn from_shards(shards: Vec<usize>, shard_index: Option<usize>) -> (r: Self)
        requires
            sum_of(shards@) <= usize::MAX,
            shard_index matches Some(i) ==> i < shards@.len(),
        ensures
            r@ == (StatsView {
                server_count: Some(sum_of(shards@) as usize),
                shard_count: Some(shards@.len() as usize),
                shards: Some(shards@),
                shard_id: shard_index,
            }),
            r.wf(),
    {
        let total = sum_slice(shards.as_slice());
        let count = shards.len();
        Self {
            server_count: Some(total),
            shard_count: Some(count),
            shards: Some(shards),
            shard_id: shard_index,
        }
    }

    /// The per-shard server counts; empty when no breakdown was given.
    pub fn shards(&self) -> (r: &[usize])
        ensures
            r@ == match self@.shards {
                Some(s) => s,
                None => Seq::<usize>::empty(),
            },
    {
        match &self.shards {
            Some(v) => v.as_slice(),
            None => &[],
        }
    }

    /// The shard count: the explicit field, or the length of the shard
    /// breakdown, or zero.
    pub fn shard_count(&self) -> (r: usize)
        ensures
            r == match self@.shard_count {
                Some(n) => n,
                None => match self@.shards {
                    Some(s) => s.len() as usize,
                    None => 0usize,
                },
            },
    {
        match self.shard_count {
            Some(n) => n,
            None => match &self.shards {
                Some(v) => v.len(),
                None => 0,
            },
        }
    }

    /// The total server count: the explicit field, or the sum of a non-empty
    /// shard breakdown, or nothing.
    pub fn server_count(&self) -> (r: Option<usize>)
        requires
            self.wf(),
        ensures
            r == spec_server_count(self@),
    {
        match self.server_count {
            Some(n) => Some(n),
            None => match &self.shards {
                Some(v) => {
                    if v.len() == 0 {
                        None
                    } else {
                        Some(sum_slice(v.as_slice()))
                    }
                },
                None => None,
            },
        }
    }
}

/// What [`Stats::server_count`] returns, as a function of the snapshot's value.
pub open spec fn spec_server_count(v: StatsView) -> Option<usize> {
    if v.server_count is Some {
        v.server_count
    } else {
        match v.shards {
            Some(s) => if s.len() == 0 {
                None
            } else {
                Some(sum_of(s) as usize)
            },
            None => None,
        }
    }
}

impl core::convert::From<usize> for Stats {
    /// Creates a snapshot solely from a server count.
    fn from(server_count: usize) -> (r: Self) {
        let r = Self::from_count(server_count, None);
        proof {
            assert(r.shards is None);
        }
        r
    }
}

impl vstd::std_specs::convert::FromSpecImpl<usize> for Stats {
    open spec fn obeys_from_spec() -> bool {
        true
    }

    open spec fn from_spec(t: usize) -> Self {
        Stats { server_count: Some(t), shard_count: None, shards: None, shard_id: None }
    }
}

impl Clone for Stats {
    /// Clones the snapshot; the copy has the same value.
    fn clone(&self) -> (r: Self)
        ensures
            r@ == self@,
            r.wf() == self.wf(),
    {
        let shards: Option<Vec<usize>> = match &self.shards {
            Some(v) => Some(copy_counts(v.as_slice())),
            None => None,
        };
        let r = Stats {
            server_count: self.server_count,
            shard_count: self.shard_count,
            shards,
            shard_id: self.shard_id,
        };
        proof {
            assert(r@ =~= self@);
        }
        r
    }
}

/// Copies a slice of counts into a fresh vector.
fn copy_counts(s: &[usize]) -> (r: Vec<usize>)
    ensures
        r@ == s@,
{
    let mut r: Vec<usize> = Vec::new();
    let mut i: usize = 0;
    while i < s.len()
        invariant
            i <= s@.len(),
            r@ == s@.subrange(0, i as int),
        decreases s@.len() - i,
    {
        r.push(s[i]);
        proof {
            assert(r@ =~= s@.subrange(0, i + 1));
        }
        i = i + 1;
    }
    proof {
        assert(r@ =~= s@);
    }
    r
}

} // verus!
