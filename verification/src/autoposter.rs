//! The autoposting core: a single-slot mailbox holding the latest statistics
//! snapshot, and a flush coordinator that decides when the snapshot is posted.
//!
//! The mailbox ([`SharedStats`]) is overwritten wholesale on every feed and
//! carries a readiness signal; the coordinator ([`Autoposter`]) posts at most
//! once per wake-up, only when the signal is raised, and never sooner than the
//! configured interval after the previous post. The asynchronous runtime that
//! drives the coordinator (locks, timers, task spawning and cancellation)
//! lives outside this crate and only calls the verified transitions here.

use vstd::prelude::*;
use crate::stats::{Stats, StatsView};

verus! {

/// The minimum posting cadence, in seconds, that the listing service allows.
pub const MINIMUM_INTERVAL_SECS: u64 = 900;

/// The mathematical value of the shared mailbox.
#[verifier::ext_equal]
pub ghost struct SharedStatsView {
    /// The latest fed snapshot.
    pub current: StatsView,
    /// Whether the snapshot has not yet been consumed by a flush.
    pub ready: bool,
}

/// The single-slot mailbox shared between feeders and the flusher: the most
/// recent statistics snapshot plus a readiness signal.
pub struct SharedStats {
    stats: Stats,
    ready: bool,
}

impl View for SharedStats {
    type V = SharedStatsView;

    closed spec fn view(&self) -> SharedStatsView {
        SharedStatsView { current: self.stats@, ready: self.ready }
    }
}

/// The placeholder snapshot a fresh mailbox holds before the first feed.
pub open spec fn initial_stats() -> StatsView {
    StatsView { server_count: Some(0usize), shard_count: None, shards: None, shard_id: None }
}

impl SharedStats {
    /// Creates a mailbox holding a zero-server placeholder with the readiness
    /// signal down, so the placeholder is never mistaken for fed data.
    pub fn new() -> (r: Self)
        ensures
            r@ == (SharedStatsView { current: initial_stats(), ready: false }),
    {
        SharedStats { stats: Stats::from_count(0, None), ready: false }
    }

    /// Replaces the snapshot wholesale and raises the readiness signal.
    pub fn replace(&mut self, other: Stats)
        ensures
            final(self)@ == (SharedStatsView { current: other@, ready: true }),
    {
        self.stats = other;
        self.ready = true;
    }

    /// Sets the snapshot's server count and raises the readiness signal.
    pub fn set_server_count(&mut self, server_count: usize)
        ensures
            final(self)@ == (SharedStatsView {
                current: StatsView { server_count: Some(server_count), ..old(self)@.current },
                ready: true,
            }),
    {
        self.stats.server_count = Some(server_count);
        self.ready = true;
    }

    /// Sets the snapshot's shard count and raises the readiness signal.
    pub fn set_shard_count(&mut self, shard_count: usize)
        ensures
            final(self)@ == (SharedStatsView {
                current: StatsView { shard_count: Some(shard_count), ..old(self)@.current },
                ready: true,
            }),
    {
        self.stats.shard_count = Some(shard_count);
        self.ready = true;
    }

    /// One flush read: if the readiness signal is up, lowers it and hands out
    /// a copy of the snapshot; otherwise leaves the mailbox untouched.
    pub fn try_consume(&mut self) -> (r: Option<Stats>)
        ensures
            old(self)@.ready ==> {
                &&& final(self)@ == (SharedStatsView { current: old(self)@.current, ready: false })
                &&& r matches Some(s) && s@ == old(self)@.current
            },
            !old(self)@.ready ==> final(self)@ == old(self)@ && r is None,
    {
        if self.ready {
            self.ready = false;
            Some(self.stats.clone())
        } else {
            None
        }
    }
}

/// The mathematical state of an autoposter.
#[verifier::ext_equal]
pub ghost struct AutoposterModel {
    /// The shared mailbox.
    pub shared: SharedStatsView,
    /// The configured posting interval, in seconds.
    pub interval: int,
    /// The earliest time, in seconds, at which the next post may happen.
    pub earliest_next_post: int,
    /// Whether the autoposter has been disposed.
    pub cancelled: bool,
}

/// One occurrence the autoposter reacts to: a producer feeding a snapshot, the
/// flusher waking at a given time, or the owner disposing of the autoposter.
pub ghost enum AutoposterEvent {
    /// A feed of a new snapshot, from any handle.
    Feed(StatsView),
    /// The flusher waking at the given time, in seconds.
    Wake(int),
    /// Disposal of the autoposter.
    Cancel,
}

/// The autoposter's single transition: what one event does to the state, and
/// the post it triggers, if any, as the pair of its time and its payload.
pub open spec fn step(s: AutoposterModel, e: AutoposterEvent) -> (AutoposterModel, Option<(int, StatsView)>) {
    match e {
        AutoposterEvent::Feed(v) => (
            AutoposterModel { shared: SharedStatsView { current: v, ready: true }, ..s },
            None,
        ),
        AutoposterEvent::Wake(t) => if !s.cancelled && s.shared.ready && t >= s.earliest_next_post {
            (
                AutoposterModel {
                    shared: SharedStatsView { current: s.shared.current, ready: false },
                    earliest_next_post: t + s.interval,
                    ..s
                },
                Some((t, s.shared.current)),
            )
        } else {
            (s, None)
        },
        AutoposterEvent::Cancel => (AutoposterModel { cancelled: true, ..s }, None),
    }
}

/// Folds [`step`] over a sequence of events, collecting every post in order.
pub open spec fn run(s: AutoposterModel, events: Seq<AutoposterEvent>) -> (AutoposterModel, Seq<(int, StatsView)>)
    decreases events.len(),
{
    if events.len() == 0 {
        (s, Seq::empty())
    } else {
        let (s1, p) = step(s, events[0]);
        let (sf, ps) = run(s1, events.drop_first());
        (
            sf,
            match p {
                Some(post) => seq![post] + ps,
                None => ps,
            },
        )
    }
}

/// The events of a sequence of feeds, one per snapshot fed.
pub open spec fn feed_events(feeds: Seq<StatsView>) -> Seq<AutoposterEvent> {
    feeds.map_values(|v: StatsView| AutoposterEvent::Feed(v))
}

/// The error from configuring an interval shorter than the minimum cadence.
#[derive(Clone, Copy, Debug, PartialEq, Eq, Structural)]
pub struct IntervalTooShort;

/// The autoposting coordinator: owns the mailbox and decides, at each wake-up,
/// whether a post happens.
#[must_use]
pub struct Autoposter {
    shared: SharedStats,
    interval: u64,
    earliest_next_post: u64,
    cancelled: bool,
}

impl View for Autoposter {
    type V = AutoposterModel;

    closed spec fn view(&self) -> AutoposterModel {
        AutoposterModel {
            shared: self.shared@,
            interval: self.interval as int,
            earliest_next_post: self.earliest_next_post as int,
            cancelled: self.cancelled,
        }
    }
}

impl Autoposter {
    /// Creates an autoposter, rejecting any interval shorter than the minimum
    /// posting cadence of [`MINIMUM_INTERVAL_SECS`] seconds; nothing is ever
    /// posted by a rejected construction.
    pub fn new(interval: u64) -> (r: Result<Self, IntervalTooShort>)
        ensures
            r is Ok <==> interval >= MINIMUM_INTERVAL_SECS,
            r matches Ok(a) ==> a@ == (AutoposterModel {
                shared: SharedStatsView { current: initial_stats(), ready: false },
                interval: interval as int,
                earliest_next_post: 0,
                cancelled: false,
            }),
    {
        if interval < MINIMUM_INTERVAL_SECS {
            Err(IntervalTooShort)
        } else {
            Ok(Autoposter {
                shared: SharedStats::new(),
                interval,
                earliest_next_post: 0,
                cancelled: false,
            })
        }
    }

    /// The configured posting interval, in seconds.
    pub fn interval(&self) -> (r: u64)
        ensures
            r as int == self@.interval,
    {
        self.interval
    }

    /// Feeds a new snapshot: overwrites the mailbox and raises the readiness
    /// signal. Never fails, never posts by itself.
    pub fn feed(&mut self, new_stats: Stats)
        ensures
            final(self)@ == step(old(self)@, AutoposterEvent::Feed(new_stats@)).0,
    {
        self.shared.replace(new_stats);
    }

    /// Records a new server count in the buffered snapshot, as a feed does.
    pub fn set_server_count(&mut self, server_count: usize)
        ensures
            final(self)@ == (AutoposterModel {
                shared: SharedStatsView {
                    current: StatsView {
                        server_count: Some(server_count),
                        ..old(self)@.shared.current
                    },
                    ready: true,
                },
                ..old(self)@
            }),
    {
        self.shared.set_server_count(server_count);
    }

    /// Records a new shard count in the buffered snapshot, as a feed does.
    pub fn set_shard_count(&mut self, shard_count: usize)
        ensures
            final(self)@ == (AutoposterModel {
                shared: SharedStatsView {
                    current: StatsView {
                        shard_count: Some(shard_count),
                        ..old(self)@.shared.current
                    },
                    ready: true,
                },
                ..old(self)@
            }),
    {
        self.shared.set_shard_count(shard_count);
    }

    /// One wake-up of the flusher at time `now`, in seconds: returns the
    /// snapshot to post when data is ready, the interval has elapsed since the
    /// previous post, and the autoposter is not disposed; otherwise returns
    /// nothing and changes nothing.
    pub fn try_wake(&mut self, now: u64) -> (r: Option<Stats>)
        requires
            now + old(self)@.interval <= u64::MAX,
        ensures
            final(self)@ == step(old(self)@, AutoposterEvent::Wake(now as int)).0,
            match r {
                Some(s) => step(old(self)@, AutoposterEvent::Wake(now as int)).1
                    == Some((now as int, s@)),
                None => step(old(self)@, AutoposterEvent::Wake(now as int)).1 is None,
            },
    {
        if self.cancelled || now < self.earliest_next_post {
            return None;
        }
        match self.shared.try_consume() {
            Some(stats) => {
                self.earliest_next_post = now + self.interval;
                Some(stats)
            },
            None => None,
        }
    }

    /// Disposal: after this, no wake-up ever posts again.
    pub fn cancel(&mut self)
        ensures
            final(self)@ == step(old(self)@, AutoposterEvent::Cancel).0,
    {
        self.cancelled = true;
    }
}

/// Feeding, alone, posts nothing and only rewrites the mailbox: after any
/// sequence of feeds the mailbox holds the last one, the signal is up, and
/// the pacing state is untouched.
pub proof fn lemma_feeds_only(s: AutoposterModel, feeds: Seq<StatsView>)
    requires
        feeds.len() > 0,
    ensures
        ({
            let (sf, ps) = run(s, feed_events(feeds));
            &&& sf.shared.current == feeds.last()
            &&& sf.shared.ready
            &&& sf.interval == s.interval
            &&& sf.earliest_next_post == s.earliest_next_post
            &&& sf.cancelled == s.cancelled
            &&& ps =~= Seq::<(int, StatsView)>::empty()
        }),
    decreases feeds.len(),
{
    reveal_with_fuel(run, 3);
    let events = feed_events(feeds);
    assert(events[0] == AutoposterEvent::Feed(feeds[0]));
    let (s1, p) = step(s, events[0]);
    if feeds.len() == 1 {
        assert(events.drop_first() =~= Seq::<AutoposterEvent>::empty());
        assert(run(s1, Seq::<AutoposterEvent>::empty()).1 =~= Seq::<(int, StatsView)>::empty());
    } else {
        assert(events.drop_first() =~= feed_events(feeds.drop_first()));
        lemma_feeds_only(s1, feeds.drop_first());
        assert(feeds.drop_first().last() == feeds.last());
    }
}

/// Last-write-wins: whatever handles issue a
/// non-empty sequence of feeds before a due wake-up, that wake-up posts
/// exactly once, and exactly the last snapshot fed.
pub proof fn lemma_last_write_wins(s: AutoposterModel, feeds: Seq<StatsView>, t: int)
    requires
        feeds.len() > 0,
        !s.cancelled,
        t >= s.earliest_next_post,
    ensures
        run(s, feed_events(feeds).push(AutoposterEvent::Wake(t))).1 =~= seq![(t, feeds.last())],
{
    reveal_with_fuel(run, 3);
    let fed = feed_events(feeds);
    let events = fed.push(AutoposterEvent::Wake(t));
    lemma_feeds_only(s, feeds);
    lemma_run_append(s, fed, seq![AutoposterEvent::Wake(t)]);
    assert(fed + seq![AutoposterEvent::Wake(t)] =~= events);
    let sf = run(s, fed).0;
    let tail = seq![AutoposterEvent::Wake(t)];
    assert(step(sf, tail[0]).1 == Some((t, feeds.last())));
    assert(tail.drop_first() =~= Seq::<AutoposterEvent>::empty());
    assert(run(sf, tail).1 =~= seq![(t, feeds.last())]);
}

/// Running a concatenation of event sequences runs one after the other and
/// concatenates their posts.
pub proof fn lemma_run_append(s: AutoposterModel, e1: Seq<AutoposterEvent>, e2: Seq<AutoposterEvent>)
    ensures
        run(s, e1 + e2).0 == run(run(s, e1).0, e2).0,
        run(s, e1 + e2).1 =~= run(s, e1).1 + run(run(s, e1).0, e2).1,
    decreases e1.len(),
{
    if e1.len() == 0 {
        assert(e1 + e2 =~= e2);
    } else {
        let (s1, p) = step(s, e1[0]);
        assert((e1 + e2)[0] == e1[0]);
        assert((e1 + e2).drop_first() =~= e1.drop_first() + e2);
        lemma_run_append(s1, e1.drop_first(), e2);
    }
}

/// No-op cycle: a wake-up with the readiness signal down posts nothing
/// and changes nothing; in particular, once a wake-up has posted, a second
/// wake-up with no feed in between never posts.
pub proof fn lemma_no_feed_no_post(s: AutoposterModel, t1: int, t2: int)
    ensures
        !s.shared.ready ==> step(s, AutoposterEvent::Wake(t1)) == (s, None::<(int, StatsView)>),
        step(s, AutoposterEvent::Wake(t1)).1 is Some ==> step(
            step(s, AutoposterEvent::Wake(t1)).0,
            AutoposterEvent::Wake(t2),
        ).1 is None,
{
}

/// Prompt first post: a feed arriving while the flusher is
/// idle and past its pacing bound is posted at the very next wake-up.
pub proof fn lemma_prompt_post(s: AutoposterModel, v: StatsView, t: int)
    requires
        !s.cancelled,
        t >= s.earliest_next_post,
    ensures
        step(step(s, AutoposterEvent::Feed(v)).0, AutoposterEvent::Wake(t)).1 == Some((t, v)),
{
}

/// Minimum spacing: in any run, no post comes before the
/// pacing bound, and any two posts are at least the interval apart.
pub proof fn lemma_minimum_spacing(s: AutoposterModel, events: Seq<AutoposterEvent>)
    requires
        s.interval >= 0,
    ensures
        ({
            let (sf, ps) = run(s, events);
            &&& forall|i: int| 0 <= i < ps.len() ==> ps[i].0 >= s.earliest_next_post
            &&& forall|i: int, j: int|
                0 <= i < j < ps.len() ==> ps[j].0 >= ps[i].0 + s.interval
            &&& sf.interval == s.interval
        }),
    decreases events.len(),
{
    if events.len() > 0 {
        let (s1, p) = step(s, events[0]);
        assert(s1.interval == s.interval);
        lemma_minimum_spacing(s1, events.drop_first());
        let ps1 = run(s1, events.drop_first()).1;
        let ps = run(s, events).1;
        match p {
            Some(post) => {
                assert(ps =~= seq![post] + ps1);
                assert(post.0 >= s.earliest_next_post);
                assert(s1.earliest_next_post == post.0 + s.interval);
                assert(forall|j: int| 1 <= j < ps.len() ==> ps[j] == ps1[j - 1]);
                assert(forall|j: int|
                    1 <= j < ps.len() ==> #[trigger] ps[j].0 >= post.0 + s.interval
                        >= s.earliest_next_post);
            },
            None => {
                assert(ps =~= ps1);
                assert(s1.earliest_next_post == s.earliest_next_post);
            },
        }
    }
}

/// Cancellation: once the autoposter is disposed, no sequence of later
/// events, feeds and wake-ups included, ever produces a post.
pub proof fn lemma_cancelled_never_posts(s: AutoposterModel, events: Seq<AutoposterEvent>)
    requires
        s.cancelled,
    ensures
        run(s, events).1 =~= Seq::<(int, StatsView)>::empty(),
    decreases events.len(),
{
    if events.len() > 0 {
        let (s1, p) = step(s, events[0]);
        lemma_cancelled_never_posts(s1, events.drop_first());
    }
}

} // verus!
