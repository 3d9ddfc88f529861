//! The guild-membership cache the gateway handlers keep, and the statistics
//! updates they derive from it.

use vstd::prelude::*;

verus! {

/// One statistics field a gateway event updates in the buffered snapshot.
#[derive(Clone, Copy, Debug, PartialEq, Eq, Structural)]
pub enum StatsUpdate {
    /// A new total server count.
    ServerCount(usize),
    /// A new shard count.
    ShardCount(usize),
}

/// The set of guild IDs a bot is currently a member of, as the gateway
/// events report it.
pub struct GuildSet {
    ids: Vec<u64>,
}

impl View for GuildSet {
    type V = Set<u64>;

    closed spec fn view(&self) -> Set<u64> {
        self.ids@.to_set()
    }
}

impl GuildSet {
    /// The backing list never repeats an ID.
    pub closed spec fn wf(&self) -> bool {
        self.ids@.no_duplicates()
    }

    /// Creates an empty set.
    pub fn new() -> (r: Self)
        ensures
            r@ == Set::<u64>::empty(),
            r.wf(),
    {
        let r = GuildSet { ids: Vec::new() };
        proof {
            assert(r@ =~= Set::<u64>::empty());
        }
        r
    }

    /// Whether an ID is in the set.
    pub fn contains(&self, id: u64) -> (r: bool)
        ensures
            r == self@.contains(id),
    {
        let n = self.ids.len();
        let mut i: usize = 0;
        while i < n
            invariant
                n == self.ids@.len(),
                i <= n,
                forall|k: int| 0 <= k < i ==> self.ids@[k] != id,
            decreases n - i,
        {
            if self.ids[i] == id {
                proof {
                    assert(self.ids@.contains(id));
                }
                return true;
            }
            i = i + 1;
        }
        proof {
            assert(!self.ids@.contains(id));
        }
        false
    }

    /// Adds an ID; reports whether it was new.
    pub fn insert(&mut self, id: u64) -> (r: bool)
        requires
            old(self).wf(),
        ensures
            r == !old(self)@.contains(id),
            final(self)@ == old(self)@.insert(id),
            final(self).wf(),
    {
        if self.contains(id) {
            proof {
                assert(self@.insert(id) =~= self@);
            }
            false
        } else {
            self.ids.push(id);
            proof {
                lemma_to_set_push(old(self).ids@, id);
            }
            true
        }
    }

    /// Removes an ID; reports whether it was present.
    pub fn remove(&mut self, id: u64) -> (r: bool)
        requires
            old(self).wf(),
        ensures
            r == old(self)@.contains(id),
            final(self)@ == old(self)@.remove(id),
            final(self).wf(),
    {
        let n = self.ids.len();
        let mut i: usize = 0;
        while i < n
            invariant
                n == self.ids@.len(),
                i <= n,
                self.ids@ == old(self).ids@,
                old(self).wf(),
                forall|k: int| 0 <= k < i ==> self.ids@[k] != id,
            decreases n - i,
        {
            if self.ids[i] == id {
                proof {
                    assert(self.ids@.contains(id));
                }
                self.ids.remove(i);
                proof {
                    lemma_remove_at(old(self).ids@, i as int, id);
                }
                return true;
            }
            i = i + 1;
        }
        proof {
            assert(!self.ids@.contains(id));
            assert(self@.remove(id) =~= self@);
        }
        false
    }

    /// The number of guilds in the set.
    pub fn len(&self) -> (r: usize)
        requires
            self.wf(),
        ensures
            r == self@.len(),
    {
        proof {
            self.ids@.unique_seq_to_set();
        }
        self.ids.len()
    }

    /// Replaces the whole set with the IDs of a report, duplicates dropped.
    pub fn reset(&mut self, ids: &Vec<u64>)
        ensures
            final(self)@ == ids@.to_set(),
            final(self).wf(),
    {
        let mut fresh = GuildSet::new();
        let n = ids.len();
        let mut i: usize = 0;
        while i < n
            invariant
                n == ids@.len(),
                i <= n,
                fresh@ == ids@.subrange(0, i as int).to_set(),
                fresh.wf(),
            decreases n - i,
        {
            fresh.insert(ids[i]);
            proof {
                assert(ids@.subrange(0, i + 1).drop_last() =~= ids@.subrange(0, i as int));
                lemma_to_set_push(ids@.subrange(0, i as int), ids@[i as int]);
                assert(ids@.subrange(0, i + 1) =~= ids@.subrange(0, i as int).push(
                    ids@[i as int]));
            }
            i = i + 1;
        }
        proof {
            assert(ids@.subrange(0, n as int) =~= ids@);
        }
        *self = fresh;
    }
}

/// Pushing an element onto a sequence adds it to the denoted set.
proof fn lemma_to_set_push(s: Seq<u64>, x: u64)
    ensures
        s.push(x).to_set() =~= s.to_set().insert(x),
{
    assert forall|y: u64| s.push(x).to_set().contains(y) implies s.to_set().insert(x).contains(
        y,
    ) by {
        let i = choose|i: int| 0 <= i < s.push(x).len() && s.push(x)[i] == y;
        if i < s.len() {
            assert(s[i] == y);
        }
    }
    assert forall|y: u64| s.to_set().insert(x).contains(y) implies s.push(x).to_set().contains(
        y,
    ) by {
        if y == x {
            assert(s.push(x)[s.len() as int] == y);
        } else {
            let i = choose|i: int| 0 <= i < s.len() && s[i] == y;
            assert(s.push(x)[i] == y);
        }
    }
}

/// Removing the one position holding an ID removes exactly that ID from the
/// denoted set.
proof fn lemma_remove_at(s: Seq<u64>, i: int, id: u64)
    requires
        s.no_duplicates(),
        0 <= i < s.len(),
        s[i] == id,
    ensures
        s.remove(i).to_set() =~= s.to_set().remove(id),
        s.remove(i).no_duplicates(),
{
    let t = s.remove(i);
    assert forall|y: u64| t.to_set().contains(y) implies s.to_set().remove(id).contains(y) by {
        let k = choose|k: int| 0 <= k < t.len() && t[k] == y;
        if k < i {
            assert(s[k] == y);
        } else {
            assert(s[k + 1] == y);
        }
    }
    assert forall|y: u64| s.to_set().remove(id).contains(y) implies t.to_set().contains(y) by {
        let k = choose|k: int| 0 <= k < s.len() && s[k] == y;
        if k < i {
            assert(t[k] == y);
        } else {
            assert(k != i);
            assert(t[k - 1] == y);
        }
    }
}

} // verus!
