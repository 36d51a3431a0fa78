//! Sliding-window rate limiting per client address.

use vstd::prelude::*;

verus! {

/// A client address: an IPv4 address as its 32-bit value, or an IPv6
/// address as its 128-bit value.
#[derive(Clone, Copy, Debug, PartialEq, Eq, Structural, Hash)]
pub enum ClientIp {
    V4(u32),
    V6(u128),
}

/// How long ago `t` was, seen from `now`; a time after `now` counts as no
/// time at all (as `Instant::duration_since` saturates).
pub open spec fn age(now: u64, t: u64) -> nat {
    if now >= t {
        (now - t) as nat
    } else {
        0
    }
}

/// The request times that still fall inside the window at `now`, in order.
pub open spec fn recent(ts: Seq<u64>, now: u64, window: nat) -> Seq<u64>
    decreases ts.len(),
{
    if ts.len() == 0 {
        ts
    } else if age(now, ts.last()) < window {
        recent(ts.drop_last(), now, window).push(ts.last())
    } else {
        recent(ts.drop_last(), now, window)
    }
}

struct ClientEntry {
    ip: ClientIp,
    hits: Vec<u64>,
    throttled: usize,
}

/// Per-client sliding-window limiter. Times are nanoseconds on one
/// monotonic clock. Each client may make `max_requests` requests within any
/// `window`; a refused request is not recorded but counted as a throttle.
pub struct RateLimiter {
    max_requests: usize,
    window: u64,
    entries: Vec<ClientEntry>,
}

/// The request times of `ts` that still fall inside the window at `now`.
fn retain_recent(ts: &Vec<u64>, now: u64, window: u64) -> (res: Vec<u64>)
    ensures
        res@ == recent(ts@, now, window as nat),
{
    let mut res: Vec<u64> = Vec::new();
    for i in 0..ts.len()
        invariant
            res@ == recent(ts@.take(i as int), now, window as nat),
    {
        assert(ts@.take(i + 1).drop_last() =~= ts@.take(i as int));
        let t = ts[i];
        let a = if now >= t {
            now - t
        } else {
            0
        };
        if a < window {
            res.push(t);
        }
    }
    assert(ts@.take(ts.len() as int) =~= ts@);
    res
}

/// Keeping only the recent times again at the same instant changes nothing.
proof fn lemma_recent_idempotent(ts: Seq<u64>, now: u64, window: nat)
    ensures
        recent(recent(ts, now, window), now, window) == recent(ts, now, window),
        recent(ts, now, window).len() <= ts.len(),
    decreases ts.len(),
{
    if ts.len() > 0 {
        lemma_recent_idempotent(ts.drop_last(), now, window);
        let r = recent(ts.drop_last(), now, window);
        if age(now, ts.last()) < window {
            assert(r.push(ts.last()).drop_last() =~= r);
        }
    }
}

/// A time recent at a later instant was recent at an earlier one, so
/// filtering first at `earlier` loses nothing that matters at `later`.
proof fn lemma_recent_later(ts: Seq<u64>, earlier: u64, later: u64, window: nat)
    requires
        earlier <= later,
    ensures
        recent(recent(ts, earlier, window), later, window) == recent(ts, later, window),
    decreases ts.len(),
{
    if ts.len() > 0 {
        lemma_recent_later(ts.drop_last(), earlier, later, window);
        let r = recent(ts.drop_last(), earlier, window);
        if age(earlier, ts.last()) < window {
            assert(r.push(ts.last()).drop_last() =~= r);
        }
    }
}

proof fn lemma_to_set_contains(s: Seq<ClientIp>, x: ClientIp)
    ensures
        s.to_set().contains(x) == s.contains(x),
{
}

impl RateLimiter {
    spec fn keys(self) -> Seq<ClientIp> {
        self.entries@.map_values(|e: ClientEntry| e.ip)
    }

    /// Every client appears in at most one entry.
    pub closed spec fn wf(self) -> bool {
        self.keys().no_duplicates()
    }

    /// Requests allowed per window.
    pub closed spec fn limit(self) -> nat {
        self.max_requests as nat
    }

    /// Length of the window, in nanoseconds.
    pub closed spec fn window_len(self) -> nat {
        self.window as nat
    }

    /// The clients the limiter keeps an entry for.
    pub closed spec fn clients(self) -> Set<ClientIp> {
        self.keys().to_set()
    }

    spec fn slot(self, ip: ClientIp) -> int {
        choose|i: int| 0 <= i < self.keys().len() && self.keys()[i] == ip
    }

    /// The recorded request times of a client (none when untracked).
    pub closed spec fn hits_for(self, ip: ClientIp) -> Seq<u64> {
        if self.keys().contains(ip) {
            self.entries@[self.slot(ip)].hits@
        } else {
            seq![]
        }
    }

    /// How often a client was refused since the last prune.
    pub closed spec fn throttles_for(self, ip: ClientIp) -> nat {
        if self.keys().contains(ip) {
            self.entries@[self.slot(ip)].throttled as nat
        } else {
            0
        }
    }

    proof fn lemma_lookup(self, k: int)
        requires
            self.wf(),
            0 <= k < self.entries@.len(),
        ensures
            self.keys().contains(self.entries@[k].ip),
            self.hits_for(self.entries@[k].ip) == self.entries@[k].hits@,
            self.throttles_for(self.entries@[k].ip) == self.entries@[k].throttled as nat,
    {
        let ip = self.entries@[k].ip;
        assert(self.keys()[k] == ip);
        let i = self.slot(ip);
        assert(self.keys()[i] == ip);
    }

    /// A limiter admitting `max_requests` per `window` nanoseconds, tracking nobody.
    pub fn new(max_requests: usize, window: u64) -> (res: Self)
        ensures
            res.wf(),
            res.limit() == max_requests,
            res.window_len() == window,
            res.clients() == Set::<ClientIp>::empty(),
            forall|ip: ClientIp| #[trigger] res.hits_for(ip) == Seq::<u64>::empty(),
            forall|ip: ClientIp| #[trigger] res.throttles_for(ip) == 0,
    {
        let res = RateLimiter { max_requests, window, entries: Vec::new() };
        assert(res.keys() =~= Seq::<ClientIp>::empty());
        assert(res.clients() =~= Set::<ClientIp>::empty());
        res
    }

    fn position(&self, ip: ClientIp) -> (res: Option<usize>)
        ensures
            res matches Some(k) ==> k < self.entries@.len() && self.entries@[k as int].ip == ip,
            res is None ==> !self.keys().contains(ip),
    {
        for i in 0..self.entries.len()
            invariant
                forall|j: int| 0 <= j < i ==> self.entries@[j].ip != ip,
        {
            if self.entries[i].ip == ip {
                return Some(i);
            }
        }
        proof {
            if self.keys().contains(ip) {
                let j = choose|j: int| 0 <= j < self.keys().len() && self.keys()[j] == ip;
                assert(self.entries@[j].ip == ip);
            }
        }
        None
    }

    /// Records a request from `ip` at `now` when fewer than `limit` of its
    /// earlier requests fall inside the window, and tells whether it was
    /// admitted. Times that left the window are forgotten either way; a
    /// refusal adds one to the client's throttle count.
    pub fn check_and_record(&mut self, ip: ClientIp, now: u64) -> (res: bool)
        requires
            old(self).wf(),
            old(self).throttles_for(ip) < usize::MAX,
        ensures
            final(self).wf(),
            final(self).limit() == old(self).limit(),
            final(self).window_len() == old(self).window_len(),
            res == (recent(old(self).hits_for(ip), now, old(self).window_len()).len() < old(
                self,
            ).limit()),
            final(self).hits_for(ip) == (if res {
                recent(old(self).hits_for(ip), now, old(self).window_len()).push(now)
            } else {
                recent(old(self).hits_for(ip), now, old(self).window_len())
            }),
            final(self).throttles_for(ip) == old(self).throttles_for(ip) + (if res {
                0nat
            } else {
                1nat
            }),
            final(self).clients() == old(self).clients().insert(ip),
            forall|other: ClientIp|
                other != ip ==> #[trigger] final(self).hits_for(other) == old(self).hits_for(other)
                    && final(self).throttles_for(other) == old(self).throttles_for(other),
            res ==> recent(final(self).hits_for(ip), now, final(self).window_len()).len()
                <= final(self).limit(),
    {
        let ghost pre = *self;
        proof {
            lemma_recent_idempotent(pre.hits_for(ip), now, pre.window_len());
        }
        match self.position(ip) {
            Some(k) => {
                proof {
                    pre.lemma_lookup(k as int);
                }
                let kept = retain_recent(&self.entries[k].hits, now, self.window);
                let throttled = self.entries[k].throttled;
                let admitted = kept.len() < self.max_requests;
                let entry = if admitted {
                    let mut hits = kept;
                    hits.push(now);
                    ClientEntry { ip, hits, throttled }
                } else {
                    ClientEntry { ip, hits: kept, throttled: throttled + 1 }
                };
                self.entries.set(k, entry);
                proof {
                    assert(self.keys() =~= pre.keys());
                    self.lemma_lookup(k as int);
                    assert(self.clients() =~= pre.clients().insert(ip));
                    assert forall|other: ClientIp| other != ip implies #[trigger] self.hits_for(
                        other,
                    ) == pre.hits_for(other) && self.throttles_for(other) == pre.throttles_for(
                        other,
                    ) by {
                        if pre.keys().contains(other) {
                            let j = choose|j: int| 0 <= j < pre.keys().len() && pre.keys()[j] == other;
                            pre.lemma_lookup(j);
                            self.lemma_lookup(j);
                        }
                    }
                    if admitted {
                        let r = recent(pre.hits_for(ip), now, pre.window_len());
                        lemma_recent_idempotent(r.push(now), now, pre.window_len());
                    }
                }
                admitted
            },
            None => {
                let admitted = 0 < self.max_requests;
                let entry = if admitted {
                    let mut hits: Vec<u64> = Vec::new();
                    hits.push(now);
                    ClientEntry { ip, hits, throttled: 0 }
                } else {
                    ClientEntry { ip, hits: Vec::new(), throttled: 1 }
                };
                self.entries.push(entry);
                proof {
                    assert(self.keys() =~= pre.keys().push(ip));
                    assert forall|a: int, b: int|
                        0 <= a < b < self.keys().len() implies self.keys()[a] != self.keys()[b] by {
                        if b == self.keys().len() - 1 {
                            assert(pre.keys()[a] == self.keys()[a]);
                        }
                    }
                    let k = pre.entries@.len() as int;
                    self.lemma_lookup(k);
                    assert forall|x: ClientIp| #[trigger] self.clients().contains(x) == pre.clients().insert(
                        ip,
                    ).contains(x) by {
                        lemma_to_set_contains(self.keys(), x);
                        lemma_to_set_contains(pre.keys(), x);
                        if pre.keys().contains(x) {
                            let j = choose|j: int| 0 <= j < pre.keys().len() && pre.keys()[j] == x;
                            assert(self.keys()[j] == x);
                        }
                        if self.keys().contains(x) && x != ip {
                            let j = choose|j: int| 0 <= j < self.keys().len() && self.keys()[j] == x;
                            assert(pre.keys()[j] == x);
                        }
                    }
                    assert(self.clients() =~= pre.clients().insert(ip));
                    assert(recent(pre.hits_for(ip), now, pre.window_len()) =~= Seq::<u64>::empty());
                    assert forall|other: ClientIp| other != ip implies #[trigger] self.hits_for(
                        other,
                    ) == pre.hits_for(other) && self.throttles_for(other) == pre.throttles_for(
                        other,
                    ) by {
                        if pre.keys().contains(other) {
                            let j = choose|j: int| 0 <= j < pre.keys().len() && pre.keys()[j] == other;
                            pre.lemma_lookup(j);
                            self.lemma_lookup(j);
                        } else {
                            assert(!self.keys().contains(other));
                        }
                    }
                    if admitted {
                        assert(recent(seq![now], now, pre.window_len()) =~= (if 0 < pre.window_len() {
                            seq![now]
                        } else {
                            Seq::<u64>::empty()
                        })) by {
                            assert(seq![now].drop_last() =~= Seq::<u64>::empty());
                        }
                    }
                }
                admitted
            },
        }
    }

    /// How many times `ip` was refused since the last prune.
    pub fn throttle_count(&self, ip: &ClientIp) -> (res: usize)
        requires
            self.wf(),
        ensures
            res as nat == self.throttles_for(*ip),
    {
        match self.position(*ip) {
            Some(k) => {
                proof {
                    self.lemma_lookup(k as int);
                }
                self.entries[k].throttled
            },
            None => 0,
        }
    }

    /// Forgets request times that left the window at `now`, drops clients
    /// left with none, and clears every throttle count.
    pub fn prune(&mut self, now: u64)
        requires
            old(self).wf(),
        ensures
            final(self).wf(),
            final(self).limit() == old(self).limit(),
            final(self).window_len() == old(self).window_len(),
            forall|ip: ClientIp| #[trigger] final(self).hits_for(ip) == recent(
                old(self).hits_for(ip),
                now,
                old(self).window_len(),
            ),
            forall|ip: ClientIp| #[trigger] final(self).throttles_for(ip) == 0,
            forall|ip: ClientIp| #[trigger] final(self).clients().contains(ip) == (old(
                self,
            ).clients().contains(ip) && recent(old(self).hits_for(ip), now, old(self).window_len()).len() > 0),
    {
        let ghost pre = *self;
        let mut kept: Vec<ClientEntry> = Vec::new();
        let ghost mut origin: Seq<int> = seq![];
        for i in 0..self.entries.len()
            invariant
                pre == *self,
                pre.wf(),
                origin.len() == kept@.len(),
                forall|j: int| 0 <= j < origin.len() ==> 0 <= #[trigger] origin[j] < i,
                forall|a: int, b: int| 0 <= a < b < origin.len() ==> origin[a] < origin[b],
                forall|j: int|
                    0 <= j < kept@.len() ==> (#[trigger] kept@[j]).ip == pre.entries@[origin[j]].ip
                        && kept@[j].hits@ == recent(pre.entries@[origin[j]].hits@, now, pre.window_len())
                        && kept@[j].hits@.len() > 0 && kept@[j].throttled == 0,
                forall|a: int|
                    0 <= a < i && recent(pre.entries@[a].hits@, now, pre.window_len()).len() > 0
                        ==> exists|j: int| 0 <= j < origin.len() && #[trigger] origin[j] == a,
        {
            let hits = retain_recent(&self.entries[i].hits, now, self.window);
            if hits.len() > 0 {
                kept.push(ClientEntry { ip: self.entries[i].ip, hits, throttled: 0 });
                proof {
                    let old_origin = origin;
                    origin = origin.push(i as int);
                    assert(origin[origin.len() - 1] == i);
                    assert forall|a: int|
                        0 <= a < i + 1 && recent(pre.entries@[a].hits@, now, pre.window_len()).len() > 0
                            implies exists|j: int| 0 <= j < origin.len() && #[trigger] origin[j] == a by {
                        if a == i {
                            assert(origin[origin.len() - 1] == a);
                        } else {
                            let j = choose|j: int| 0 <= j < old_origin.len() && #[trigger] old_origin[j] == a;
                            assert(origin[j] == a);
                        }
                    }
                }
            }
        }
        self.entries = kept;
        proof {
            let post = *self;
            assert forall|a: int, b: int|
                0 <= a < b < post.keys().len() implies post.keys()[a] != post.keys()[b] by {
                assert(post.keys()[a] == pre.keys()[origin[a]]);
                assert(post.keys()[b] == pre.keys()[origin[b]]);
            }
            assert forall|ip: ClientIp|
                #![trigger post.hits_for(ip)]
                #![trigger post.throttles_for(ip)]
                #![trigger post.clients().contains(ip)]
                post.hits_for(ip) == recent(pre.hits_for(ip), now, pre.window_len())
                    && post.throttles_for(ip) == 0 && post.clients().contains(ip) == (
                pre.clients().contains(ip) && recent(pre.hits_for(ip), now, pre.window_len()).len()
                    > 0) by {
                lemma_to_set_contains(post.keys(), ip);
                lemma_to_set_contains(pre.keys(), ip);
                if post.keys().contains(ip) {
                    let j = choose|j: int| 0 <= j < post.keys().len() && post.keys()[j] == ip;
                    post.lemma_lookup(j);
                    pre.lemma_lookup(origin[j]);
                    assert(pre.keys()[origin[j]] == ip);
                } else if pre.keys().contains(ip) {
                    let a = choose|a: int| 0 <= a < pre.keys().len() && pre.keys()[a] == ip;
                    pre.lemma_lookup(a);
                    if recent(pre.entries@[a].hits@, now, pre.window_len()).len() > 0 {
                        let j = choose|j: int| 0 <= j < origin.len() && #[trigger] origin[j] == a;
                        assert(post.keys()[j] == ip);
                    }
                    assert(recent(pre.hits_for(ip), now, pre.window_len()).len() == 0);
                    assert(recent(pre.hits_for(ip), now, pre.window_len()) =~= Seq::<u64>::empty());
                } else {
                    assert(recent(Seq::<u64>::empty(), now, pre.window_len()) =~= Seq::<u64>::empty());
                }
            }
        }
    }

    /// Number of clients currently tracked.
    pub fn tracked_ips(&self) -> (res: usize)
        requires
            self.wf(),
        ensures
            res as nat == self.clients().len(),
    {
        proof {
            self.keys().unique_seq_to_set();
        }
        self.entries.len()
    }
}

/// The budget is never exceeded: if a client had at most `limit` requests
/// inside the window at an earlier time `then`, it still has at most
/// `limit` inside the window at `now` after a check at `now`, whether the
/// request was admitted or refused.
pub proof fn law_budget_never_exceeded(
    before: RateLimiter,
    after: RateLimiter,
    ip: ClientIp,
    then: u64,
    now: u64,
    admitted: bool,
)
    requires
        then <= now,
        recent(before.hits_for(ip), then, before.window_len()).len() <= before.limit(),
        admitted == (recent(before.hits_for(ip), now, before.window_len()).len() < before.limit()),
        after.window_len() == before.window_len(),
        after.limit() == before.limit(),
        after.hits_for(ip) == (if admitted {
            recent(before.hits_for(ip), now, before.window_len()).push(now)
        } else {
            recent(before.hits_for(ip), now, before.window_len())
        }),
    ensures
        recent(after.hits_for(ip), now, after.window_len()).len() <= after.limit(),
{
    let w = before.window_len();
    let h = before.hits_for(ip);
    let r = recent(h, now, w);
    lemma_recent_idempotent(h, now, w);
    if admitted {
        assert(r.push(now).drop_last() =~= r);
    } else {
        lemma_recent_later(h, then, now, w);
        lemma_recent_idempotent(recent(h, then, w), now, w);
    }
}

/// Pruning never changes a later admission decision: at any time from the
/// prune on, each client has the same requests inside its window as if no
/// prune had happened.
pub proof fn law_prune_keeps_later_decisions(
    before: RateLimiter,
    after: RateLimiter,
    ip: ClientIp,
    pruned_at: u64,
    later: u64,
)
    requires
        pruned_at <= later,
        after.window_len() == before.window_len(),
        after.hits_for(ip) == recent(before.hits_for(ip), pruned_at, before.window_len()),
    ensures
        recent(after.hits_for(ip), later, after.window_len()) == recent(
            before.hits_for(ip),
            later,
            before.window_len(),
        ),
{
    lemma_recent_later(before.hits_for(ip), pruned_at, later, before.window_len());
}

} // verus!
