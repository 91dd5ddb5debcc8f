//! Sliding-window request limits per API key, and the limits of each plan.
use vstd::prelude::*;
use crate::text::str_eq;

verus! {

/// Nanoseconds in a second.
pub const NANOS_PER_SEC: u64 = 1_000_000_000;

/// Whole seconds from `t` to `now`, zero when `t` is later than `now`
/// (timestamps are nanoseconds on a monotonic clock).
pub open spec fn elapsed_secs(now: u64, t: u64) -> int {
    if now >= t {
        (now - t) / (NANOS_PER_SEC as int)
    } else {
        0
    }
}

/// The timestamps of `ts` less than `window` whole seconds old at `now`,
/// in their order.
pub open spec fn fresh(ts: Seq<u64>, now: u64, window: u64) -> Seq<u64>
    decreases ts.len(),
{
    if ts.len() == 0 {
        ts
    } else {
        let r = fresh(ts.drop_last(), now, window);
        if elapsed_secs(now, ts.last()) < window {
            r.push(ts.last())
        } else {
            r
        }
    }
}

/// Every timestamp kept by `fresh` is within the window.
pub proof fn lemma_fresh_within(ts: Seq<u64>, now: u64, window: u64)
    ensures
        fresh(ts, now, window).len() <= ts.len(),
        forall|i: int|
            0 <= i < fresh(ts, now, window).len() ==> elapsed_secs(now, #[trigger] fresh(
                ts,
                now,
                window,
            )[i]) < window,
    decreases ts.len(),
{
    if ts.len() > 0 {
        lemma_fresh_within(ts.drop_last(), now, window);
    }
}

/// Dropping old timestamps twice is dropping them once.
pub proof fn lemma_fresh_idempotent(ts: Seq<u64>, now: u64, window: u64)
    ensures
        fresh(fresh(ts, now, window), now, window) == fresh(ts, now, window),
{
    lemma_fresh_within(ts, now, window);
    lemma_fresh_keeps_all(fresh(ts, now, window), now, window);
}

/// A sequence whose timestamps are all within the window is kept whole.
pub proof fn lemma_fresh_keeps_all(ts: Seq<u64>, now: u64, window: u64)
    requires
        forall|i: int| 0 <= i < ts.len() ==> elapsed_secs(now, #[trigger] ts[i]) < window,
    ensures
        fresh(ts, now, window) == ts,
    decreases ts.len(),
{
    if ts.len() > 0 {
        let d = ts.drop_last();
        assert forall|i: int| 0 <= i < d.len() implies elapsed_secs(now, #[trigger] d[i]) < window by {
            assert(d[i] == ts[i]);
        }
        lemma_fresh_keeps_all(d, now, window);
        assert(ts.drop_last().push(ts.last()) =~= ts);
    }
}

/// The outcome of a check: whether the request is allowed and, when it is
/// not, in how many seconds the oldest counted request leaves the window.
pub open spec fn check_outcome(ts: Seq<u64>, now: u64, window: u64, limit: nat) -> (bool, Option<u64>) {
    let kept = fresh(ts, now, window);
    if kept.len() < limit {
        (true, None)
    } else {
        (false, Some((window - elapsed_secs(now, kept[0])) as u64))
    }
}

/// The timestamps kept for a key after a check.
pub open spec fn after_check(ts: Seq<u64>, now: u64, window: u64, limit: nat) -> Seq<u64> {
    let kept = fresh(ts, now, window);
    if kept.len() < limit {
        kept.push(now)
    } else {
        kept
    }
}

/// The timestamps of `ts` less than `window` seconds old at `now`.
fn fresh_vec(ts: &Vec<u64>, now: u64, window: u64) -> (r: Vec<u64>)
    ensures
        r@ == fresh(ts@, now, window),
{
    let mut kept: Vec<u64> = Vec::new();
    let mut i: usize = 0;
    while i < ts.len()
        invariant
            i <= ts.len(),
            kept@ == fresh(ts@.take(i as int), now, window),
        decreases ts.len() - i,
    {
        let t = ts[i];
        proof {
            assert(ts@.take(i + 1).drop_last() =~= ts@.take(i as int));
            assert(ts@.take(i + 1).last() == t);
        }
        let secs = if now >= t { (now - t) / NANOS_PER_SEC } else { 0 };
        if secs < window {
            kept.push(t);
        }
        i = i + 1;
    }
    proof {
        assert(ts@.take(ts.len() as int) =~= ts@);
    }
    kept
}

/// The timestamps recorded for `key` in `m`, none when it has no entry.
pub open spec fn times_in(m: Map<Seq<char>, Seq<u64>>, key: Seq<char>) -> Seq<u64> {
    if m.dom().contains(key) {
        m[key]
    } else {
        Seq::<u64>::empty()
    }
}

/// `m` after dropping every timestamp that has left the window at `now`
/// and every key left with none.
pub open spec fn cleaned(m: Map<Seq<char>, Seq<u64>>, now: u64, window: u64) -> Map<Seq<char>, Seq<u64>> {
    Map::new(
        |k: Seq<char>| m.dom().contains(k) && fresh(m[k], now, window).len() > 0,
        |k: Seq<char>| fresh(m[k], now, window),
    )
}

/// One key's request timestamps.
struct WindowEntry {
    key: String,
    timestamps: Vec<u64>,
}

/// Keys and timestamps of a list of entries.
pub open spec fn pairs_map(ps: Seq<(Seq<char>, Seq<u64>)>) -> Map<Seq<char>, Seq<u64>>
    decreases ps.len(),
{
    if ps.len() == 0 {
        Map::empty()
    } else {
        pairs_map(ps.drop_last()).insert(ps.last().0, ps.last().1)
    }
}

/// No key occurs twice.
pub open spec fn distinct_keys(ps: Seq<(Seq<char>, Seq<u64>)>) -> bool {
    forall|i: int, j: int| 0 <= i < j < ps.len() ==> #[trigger] ps[i].0 != #[trigger] ps[j].0
}

proof fn lemma_pairs_lookup(ps: Seq<(Seq<char>, Seq<u64>)>, i: int)
    requires
        distinct_keys(ps),
        0 <= i < ps.len(),
    ensures
        pairs_map(ps).dom().contains(ps[i].0),
        pairs_map(ps)[ps[i].0] == ps[i].1,
    decreases ps.len(),
{
    if i < ps.len() - 1 {
        let d = ps.drop_last();
        assert(d[i] == ps[i]);
        assert(ps.last().0 != ps[i].0);
        lemma_pairs_lookup(d, i);
    }
}

proof fn lemma_pairs_absent(ps: Seq<(Seq<char>, Seq<u64>)>, k: Seq<char>)
    requires
        forall|i: int| 0 <= i < ps.len() ==> #[trigger] ps[i].0 != k,
    ensures
        !pairs_map(ps).dom().contains(k),
    decreases ps.len(),
{
    if ps.len() > 0 {
        let d = ps.drop_last();
        assert forall|i: int| 0 <= i < d.len() implies #[trigger] d[i].0 != k by {
            assert(d[i] == ps[i]);
        }
        lemma_pairs_absent(d, k);
    }
}

proof fn lemma_pairs_update(ps: Seq<(Seq<char>, Seq<u64>)>, i: int, ts: Seq<u64>)
    requires
        distinct_keys(ps),
        0 <= i < ps.len(),
    ensures
        distinct_keys(ps.update(i, (ps[i].0, ts))),
        pairs_map(ps.update(i, (ps[i].0, ts))) == pairs_map(ps).insert(ps[i].0, ts),
    decreases ps.len(),
{
    let q = ps.update(i, (ps[i].0, ts));
    assert forall|a: int, b: int| 0 <= a < b < q.len() implies #[trigger] q[a].0 != #[trigger] q[b].0 by {
        assert(q[a].0 == ps[a].0);
        assert(q[b].0 == ps[b].0);
    }
    if i == ps.len() - 1 {
        assert(q.drop_last() =~= ps.drop_last());
        lemma_pairs_absent(ps.drop_last(), ps[i].0);
        assert(pairs_map(q) =~= pairs_map(ps).insert(ps[i].0, ts));
    } else {
        let d = ps.drop_last();
        assert(q.drop_last() =~= d.update(i, (d[i].0, ts)));
        assert(d[i] == ps[i]);
        lemma_pairs_update(d, i, ts);
        assert(ps.last().0 != ps[i].0);
        assert(pairs_map(q) =~= pairs_map(ps).insert(ps[i].0, ts));
    }
}

/// In-memory limiter counting, per key, the requests of the last
/// `window_secs` seconds.
pub struct RateLimiter {
    windows: Vec<WindowEntry>,
    window_secs: u64,
}

/// Requests a minute for a plan: 60 for `pro`, 10 otherwise.
pub open spec fn plan_rate(plan: Seq<char>) -> nat {
    if plan == "pro"@ { 60 } else { 10 }
}

/// Requests a month for a plan: 10000 for `pro`, 100 otherwise.
pub open spec fn plan_monthly(plan: Seq<char>) -> int {
    if plan == "pro"@ { 10000 } else { 100 }
}

impl RateLimiter {
    spec fn entries(&self) -> Seq<(Seq<char>, Seq<u64>)> {
        self.windows@.map_values(|e: WindowEntry| (e.key@, e.timestamps@))
    }

    /// Request timestamps by key.
    pub closed spec fn view(&self) -> Map<Seq<char>, Seq<u64>> {
        pairs_map(self.entries())
    }

    /// Length of the window in seconds.
    pub closed spec fn window(&self) -> u64 {
        self.window_secs
    }

    /// The limiter's invariant: each key has one entry.
    pub closed spec fn wf(&self) -> bool {
        distinct_keys(self.entries())
    }

    /// The timestamps recorded for `key`, none when it has no entry.
    pub open spec fn times_of(&self, key: Seq<char>) -> Seq<u64> {
        if self.view().dom().contains(key) {
            self.view()[key]
        } else {
            Seq::<u64>::empty()
        }
    }

    /// A limiter with no request recorded and a one-minute window.
    pub fn new() -> (r: Self)
        ensures
            r.wf(),
            r.view() == Map::<Seq<char>, Seq<u64>>::empty(),
            r.window() == 60,
    {
        let r = RateLimiter { windows: Vec::new(), window_secs: 60 };
        assert(r.entries() =~= Seq::<(Seq<char>, Seq<u64>)>::empty());
        r
    }

    /// Checks a request of `key` at time `now` (nanoseconds) against the
    /// free limit of 10 requests per window; see `check_with_limit`.
    pub fn check(&mut self, key: &str, now: u64) -> (r: (bool, Option<u64>))
        requires
            old(self).wf(),
        ensures
            final(self).wf(),
            final(self).window() == old(self).window(),
            r == check_outcome(old(self).times_of(key@), now, old(self).window(), 10),
            final(self).view() == old(self).view().insert(
                key@,
                after_check(old(self).times_of(key@), now, old(self).window(), 10),
            ),
    {
        self.check_with_limit(key, 10, now)
    }

    /// Checks a request of `key` at time `now` (nanoseconds): the key's
    /// timestamps that have left the window are dropped; when fewer than
    /// `limit` remain the request is allowed and recorded, otherwise it is
    /// refused and the answer says in how many seconds the oldest one
    /// leaves the window.
    pub fn check_with_limit(&mut self, key: &str, limit: usize, now: u64) -> (r: (bool, Option<u64>))
        requires
            old(self).wf(),
            limit > 0 || fresh(old(self).times_of(key@), now, old(self).window()).len() > 0,
        ensures
            final(self).wf(),
            final(self).window() == old(self).window(),
            r == check_outcome(old(self).times_of(key@), now, old(self).window(), limit as nat),
            final(self).view() == old(self).view().insert(
                key@,
                after_check(old(self).times_of(key@), now, old(self).window(), limit as nat),
            ),
    {
        let window = self.window_secs;
        let ghost es = self.entries();
        let mut idx: usize = 0;
        let mut found = false;
        while idx < self.windows.len()
            invariant_except_break
                !found,
            invariant
                idx <= self.windows.len(),
                es == self.entries(),
                forall|j: int| 0 <= j < idx ==> #[trigger] es[j].0 != key@,
            ensures
                found ==> idx < self.windows.len() && es[idx as int].0 == key@,
                !found ==> forall|j: int| 0 <= j < self.windows.len() ==> #[trigger] es[j].0 != key@,
            decreases self.windows.len() - idx,
        {
            assert(es[idx as int].0 == self.windows@[idx as int].key@);
            if str_eq(self.windows[idx].key.as_str(), key) {
                found = true;
                break;
            }
            idx = idx + 1;
        }
        let old_ts: Vec<u64> = if found {
            proof {
                assert(es[idx as int].0 == key@);
                lemma_pairs_lookup(es, idx as int);
            }
            self.windows[idx].timestamps.clone()
        } else {
            proof {
                lemma_pairs_absent(es, key@);
            }
            Vec::new()
        };
        assert(old_ts@ == self.times_of(key@));
        let mut kept = fresh_vec(&old_ts, now, window);
        proof {
            lemma_fresh_within(old_ts@, now, window);
        }
        let result = if kept.len() < limit {
            kept.push(now);
            (true, None)
        } else {
            let oldest = kept[0];
            let secs = if now >= oldest { (now - oldest) / NANOS_PER_SEC } else { 0 };
            (false, Some(window - secs))
        };
        let ghost new_ts = kept@;
        if found {
            self.windows.set(idx, WindowEntry { key: self.windows[idx].key.clone(), timestamps: kept });
            proof {
                assert(self.entries() =~= es.update(idx as int, (es[idx as int].0, new_ts)));
                lemma_pairs_update(es, idx as int, new_ts);
            }
        } else {
            self.windows.push(WindowEntry { key: key.to_string(), timestamps: kept });
            proof {
                assert(self.entries() =~= es.push((key@, new_ts)));
                assert(self.entries().drop_last() =~= es);
            }
        }
        result
    }

    /// Drops, at time `now`, the timestamps that have left the window and
    /// the keys left with none.
    pub fn cleanup(&mut self, now: u64)
        requires
            old(self).wf(),
        ensures
            final(self).wf(),
            final(self).window() == old(self).window(),
            final(self).view() == cleaned(old(self).view(), now, old(self).window()),
    {
        let window = self.window_secs;
        let ghost es = self.entries();
        let mut out: Vec<WindowEntry> = Vec::new();
        let mut i: usize = 0;
        proof {
            assert(es.take(0) =~= Seq::<(Seq<char>, Seq<u64>)>::empty());
            assert(pairs_map(Seq::<(Seq<char>, Seq<u64>)>::empty()) =~= cleaned(pairs_map(es.take(0)), now, window));
        }
        while i < self.windows.len()
            invariant
                i <= self.windows.len(),
                es == self.entries(),
                distinct_keys(es),
                window == self.window_secs,
                distinct_keys(out@.map_values(|e: WindowEntry| (e.key@, e.timestamps@))),
                forall|a: int, j: int|
                    0 <= a < out.len() && i <= j < es.len() ==> #[trigger] out@[a].key@ != #[trigger] es[j].0,
                pairs_map(out@.map_values(|e: WindowEntry| (e.key@, e.timestamps@))) == cleaned(
                    pairs_map(es.take(i as int)),
                    now,
                    window,
                ),
            decreases self.windows.len() - i,
        {
            let ghost before = es.take(i as int);
            let ghost outp = out@.map_values(|e: WindowEntry| (e.key@, e.timestamps@));
            let kept = fresh_vec(&self.windows[i].timestamps, now, window);
            let ghost k = es[i as int].0;
            proof {
                assert(es.take(i + 1).drop_last() =~= before);
                assert(es.take(i + 1).last() == es[i as int]);
                assert forall|j: int| 0 <= j < before.len() implies #[trigger] before[j].0 != k by {
                    assert(before[j] == es[j]);
                }
                lemma_pairs_absent(before, k);
                assert(self.windows@[i as int].key@ == k);
            }
            if kept.len() > 0 {
                let e = WindowEntry { key: self.windows[i].key.clone(), timestamps: kept };
                out.push(e);
                proof {
                    let outq = out@.map_values(|e: WindowEntry| (e.key@, e.timestamps@));
                    assert(outq.drop_last() =~= outp);
                    assert(outq.last() == (k, fresh(es[i as int].1, now, window)));
                    assert forall|a: int, b: int| 0 <= a < b < outq.len() implies #[trigger] outq[a].0 != #[trigger] outq[b].0 by {
                        if b == outq.len() - 1 {
                            assert(outq[a].0 == out@[a].key@);
                        } else {
                            assert(outq[a] == outp[a]);
                            assert(outq[b] == outp[b]);
                        }
                    }
                    assert(pairs_map(outq) =~= cleaned(pairs_map(es.take(i + 1)), now, window));
                }
            } else {
                proof {
                    assert(pairs_map(outp) =~= cleaned(pairs_map(es.take(i + 1)), now, window));
                }
            }
            i = i + 1;
        }
        proof {
            assert(es.take(self.windows.len() as int) =~= es);
        }
        self.windows = out;
    }

    /// The requests a minute allowed to a plan.
    pub fn limit_for_plan(plan: &str) -> (r: usize)
        ensures
            r == plan_rate(plan@),
    {
        if str_eq(plan, "pro") {
            60
        } else {
            10
        }
    }

    /// The requests a month allowed to a plan.
    pub fn monthly_limit_for_plan(plan: &str) -> (r: i64)
        ensures
            r == plan_monthly(plan@),
    {
        if str_eq(plan, "pro") {
            10_000
        } else {
            100
        }
    }
}


/// A request is allowed only while fewer than `limit` of the key's requests
/// are in the window, so after an allowed request at most `limit` are.
pub proof fn lemma_allowed_within_limit(ts: Seq<u64>, now: u64, window: u64, limit: nat)
    requires
        window > 0,
        check_outcome(ts, now, window, limit).0,
    ensures
        fresh(after_check(ts, now, window, limit), now, window).len() <= limit,
{
    let kept = fresh(ts, now, window);
    lemma_fresh_idempotent(ts, now, window);
    assert(kept.push(now).drop_last() =~= kept);
}

/// A refused request names a wait of at least one second and at most the
/// window, and asking again at the same moment is refused the same way.
pub proof fn lemma_refusal_is_stable(ts: Seq<u64>, now: u64, window: u64, limit: nat)
    requires
        !check_outcome(ts, now, window, limit).0,
        fresh(ts, now, window).len() > 0,
    ensures
        check_outcome(ts, now, window, limit).1 matches Some(w) && 1 <= w <= window,
        check_outcome(after_check(ts, now, window, limit), now, window, limit) == check_outcome(
            ts,
            now,
            window,
            limit,
        ),
        after_check(after_check(ts, now, window, limit), now, window, limit) == after_check(
            ts,
            now,
            window,
            limit,
        ),
{
    lemma_fresh_within(ts, now, window);
    lemma_fresh_idempotent(ts, now, window);
}

/// Dropping expired entries never changes what a check at the same moment
/// answers or records.
pub proof fn lemma_cleanup_preserves_checks(
    m: Map<Seq<char>, Seq<u64>>,
    key: Seq<char>,
    now: u64,
    window: u64,
    limit: nat,
)
    ensures
        fresh(times_in(cleaned(m, now, window), key), now, window) == fresh(times_in(m, key), now, window),
        check_outcome(times_in(cleaned(m, now, window), key), now, window, limit) == check_outcome(
            times_in(m, key),
            now,
            window,
            limit,
        ),
        after_check(times_in(cleaned(m, now, window), key), now, window, limit) == after_check(
            times_in(m, key),
            now,
            window,
            limit,
        ),
{
    if m.dom().contains(key) {
        lemma_fresh_idempotent(m[key], now, window);
        if fresh(m[key], now, window).len() == 0 {
            assert(fresh(m[key], now, window) =~= Seq::<u64>::empty());
        }
    }
}

} // verus!
