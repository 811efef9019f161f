//! A naive leaky-bucket rate limiter.
//!
//! The bucket records the timestamps of recent events. Each push appends
//! "now", discards every entry that has aged past the configured window
//! (an entry exactly at the boundary ages out), and then fails if more
//! entries remain than the configured allowance.

use vstd::prelude::*;

verus! {

/// Configuration for a [`NaiveLeakyBucket`]: at most `times` events may
/// remain within any sliding window of `within_ms` milliseconds.
#[derive(Debug, Clone, Copy, PartialEq, Eq, Structural)]
pub struct NaiveLeakyBucketConfig {
    pub times: usize,
    pub within_ms: u64,
}

impl NaiveLeakyBucketConfig {
    pub fn new(times: usize, within_ms: u64) -> (c: Self)
        ensures
            c.times == times,
            c.within_ms == within_ms,
    {
        Self { times, within_ms }
    }
}

/// How long ago `t` was, seen from `now`; clamped at zero for timestamps
/// that lie in the future (mirroring saturating duration arithmetic).
pub open spec fn age_of(now: u64, t: u64) -> int {
    if t <= now {
        now - t
    } else {
        0
    }
}

/// Whether an entry stamped `t` is still young enough to stay in the
/// bucket when a push happens at `now`. The comparison is strict, so an
/// entry exactly `within_ms` old ages out.
pub open spec fn keeps(now: u64, within_ms: u64, t: u64) -> bool {
    age_of(now, t) < within_ms
}

/// The entries of `h` that survive a cleanup at `now`, in order.
pub open spec fn retained(h: Seq<u64>, now: u64, within_ms: u64) -> Seq<u64>
    decreases h.len(),
{
    if h.len() == 0 {
        Seq::empty()
    } else {
        let rest = retained(h.drop_last(), now, within_ms);
        if keeps(now, within_ms, h.last()) {
            rest.push(h.last())
        } else {
            rest
        }
    }
}

/// The history after a push at `now` on top of history `h`: `now` is
/// appended and everything too old is discarded.
pub open spec fn pushed_history(h: Seq<u64>, now: u64, within_ms: u64) -> Seq<u64> {
    retained(h.push(now), now, within_ms)
}

/// The error returned when a bucket overflows, carrying the allowance and
/// the surviving history for diagnostic display.
#[derive(Debug, Clone, PartialEq)]
pub struct LeakyBucketOverflowed {
    pub times: usize,
    pub within_ms: u64,
    pub history: Vec<u64>,
}

/// The diagnostic text of an overflow: the allowance that was exceeded.
pub open spec fn overflow_text(times: nat, within_ms: nat) -> Seq<char> {
    "NaiveLeakyBucket overflowed: more than "@ + crate::strfmt::dec_str(times) + " times within "@
        + crate::strfmt::dec_str(within_ms) + "ms"@
}

impl LeakyBucketOverflowed {
    /// Render the diagnostic text of this overflow.
    pub fn describe(&self) -> (s: String)
        ensures
            s@ == overflow_text(self.times as nat, self.within_ms as nat),
    {
        let mut s = String::from_str("NaiveLeakyBucket overflowed: more than ");
        let times = crate::strfmt::usize_to_string(self.times);
        s.append(times.as_str());
        s.append(" times within ");
        let within = crate::strfmt::u64_to_string(self.within_ms);
        s.append(within.as_str());
        s.append("ms");
        proof {
            assert(s@ =~= overflow_text(self.times as nat, self.within_ms as nat));
        }
        s
    }
}

/// A leaky-bucket instance: a configuration plus the timestamps (in
/// milliseconds) of the recent events it has admitted.
#[derive(Debug, Clone, PartialEq)]
pub struct NaiveLeakyBucket {
    pub times: usize,
    pub within_ms: u64,
    pub history: Vec<u64>,
}

impl From<NaiveLeakyBucketConfig> for NaiveLeakyBucket {
    fn from(c: NaiveLeakyBucketConfig) -> (b: Self) {
        Self::from_config(c)
    }
}

/// The conversion's spec hook stays switched off: no particular vector
/// value can be named in spec code for the fresh history, so nothing is
/// claimed of `from` itself. Verified callers use [`NaiveLeakyBucket::from_config`],
/// whose contract pins every field.
impl vstd::std_specs::convert::FromSpecImpl<NaiveLeakyBucketConfig> for NaiveLeakyBucket {
    open spec fn obeys_from_spec() -> bool {
        false
    }

    open spec fn from_spec(c: NaiveLeakyBucketConfig) -> Self {
        choose|b: NaiveLeakyBucket|
            b.times == c.times && b.within_ms == c.within_ms && b.history@ == Seq::<u64>::empty()
    }
}

impl NaiveLeakyBucket {
    /// A fresh, empty bucket obeying the allowance in `c`.
    pub fn from_config(c: NaiveLeakyBucketConfig) -> (b: Self)
        ensures
            b.times == c.times,
            b.within_ms == c.within_ms,
            b.history@ == Seq::<u64>::empty(),
    {
        Self { times: c.times, within_ms: c.within_ms, history: Vec::new() }
    }

    /// Record an event stamped `now_ms`, age out old entries, and report
    /// whether the allowance is still respected.
    pub fn push_at(&mut self, now_ms: u64) -> (r: Result<(), LeakyBucketOverflowed>)
        ensures
            final(self).times == old(self).times,
            final(self).within_ms == old(self).within_ms,
            final(self).history@ == pushed_history(old(self).history@, now_ms, old(self).within_ms),
            r is Ok <==> pushed_history(old(self).history@, now_ms, old(self).within_ms).len()
                <= old(self).times,
            r is Err ==> (r->Err_0).times == old(self).times
                && (r->Err_0).within_ms == old(self).within_ms
                && (r->Err_0).history@ == final(self).history@,
    {
        self.history.push(now_ms);
        let ghost full = self.history@;
        let mut kept: Vec<u64> = Vec::new();
        let n: usize = self.history.len();
        for i in 0..n
            invariant
                n == full.len(),
                self.history@ == full,
                self.within_ms == old(self).within_ms,
                kept@ == retained(full.subrange(0, i as int), now_ms, self.within_ms),
        {
            let t = self.history[i];
            let age: u64 = if t <= now_ms {
                now_ms - t
            } else {
                0
            };
            if age < self.within_ms {
                kept.push(t);
            }
            proof {
                assert(full.subrange(0, i + 1).drop_last() =~= full.subrange(0, i as int));
            }
        }
        proof {
            assert(full.subrange(0, n as int) =~= full);
        }
        self.history = kept;
        if self.history.len() <= self.times {
            Ok(())
        } else {
            Err(LeakyBucketOverflowed {
                times: self.times,
                within_ms: self.within_ms,
                history: self.history.clone(),
            })
        }
    }

    /// Record an event stamped with the current wall-clock time.
    pub fn push(&mut self) -> (r: Result<(), LeakyBucketOverflowed>)
        ensures
            exists|now_ms: u64|
                {
                    &&& final(self).times == old(self).times
                    &&& final(self).within_ms == old(self).within_ms
                    &&& final(self).history@ == #[trigger] pushed_history(
                        old(self).history@,
                        now_ms,
                        old(self).within_ms,
                    )
                    &&& (r is Ok <==> pushed_history(
                        old(self).history@,
                        now_ms,
                        old(self).within_ms,
                    ).len() <= old(self).times)
                },
            r is Err ==> (r->Err_0).times == old(self).times
                && (r->Err_0).within_ms == old(self).within_ms
                && (r->Err_0).history@ == final(self).history@,
    {
        let now_ms = now_millis();
        let r = self.push_at(now_ms);
        proof {
            assert(final(self).history@ == pushed_history(
                old(self).history@,
                now_ms,
                old(self).within_ms,
            ));
        }
        r
    }
}

/// Relies on std::time::SystemTime::now: the wall-clock time, reduced to
/// whole milliseconds since the Unix epoch (zero if the clock reads
/// earlier than the epoch). Nothing is promised of the value.
#[verifier::external_body]
fn now_millis() -> u64 {
    match std::time::SystemTime::now().duration_since(std::time::UNIX_EPOCH) {
        Ok(d) => d.as_millis() as u64,
        Err(_) => 0,
    }
}

/// The history after pushing at each time in `ts` in order, starting from
/// history `h`.
pub open spec fn history_after_pushes(h: Seq<u64>, ts: Seq<u64>, within_ms: u64) -> Seq<u64>
    decreases ts.len(),
{
    if ts.len() == 0 {
        h
    } else {
        pushed_history(history_after_pushes(h, ts.drop_last(), within_ms), ts.last(), within_ms)
    }
}

/// A burst of nondecreasing stamps that all fall inside one window.
pub open spec fn burst_within(ts: Seq<u64>, within_ms: u64) -> bool {
    &&& within_ms > 0
    &&& ts.len() > 0
    &&& forall|i: int, j: int| 0 <= i <= j < ts.len() ==> #[trigger] ts[i] <= #[trigger] ts[j]
    &&& ts.last() - ts.first() < within_ms
}

proof fn lemma_retained_all(s: Seq<u64>, now: u64, within_ms: u64)
    requires
        forall|i: int| 0 <= i < s.len() ==> keeps(now, within_ms, #[trigger] s[i]),
    ensures
        retained(s, now, within_ms) == s,
    decreases s.len(),
{
    if s.len() > 0 {
        lemma_retained_all(s.drop_last(), now, within_ms);
        assert(retained(s, now, within_ms) =~= s);
    }
}

/// During a burst no entry ages out, so after the first `k` pushes of the
/// burst the history holds exactly those `k` stamps.
pub proof fn lemma_bucket_run(ts: Seq<u64>, within_ms: u64)
    requires
        burst_within(ts, within_ms),
    ensures
        history_after_pushes(Seq::empty(), ts, within_ms) == ts,
    decreases ts.len(),
{
    let now = ts.last();
    assert forall|i: int| 0 <= i < ts.len() implies keeps(now, within_ms, #[trigger] ts[i]) by {
        assert(ts[i] <= ts[ts.len() - 1]);
        assert(ts[0] <= ts[i]);
    }
    if ts.len() == 1 {
        reveal_with_fuel(history_after_pushes, 2);
        assert(Seq::<u64>::empty().push(now) =~= ts);
        lemma_retained_all(ts, now, within_ms);
        assert(history_after_pushes(Seq::empty(), ts, within_ms) == retained(ts, now, within_ms));
    } else {
        let prefix = ts.drop_last();
        assert forall|i: int, j: int| 0 <= i <= j < prefix.len() implies #[trigger] prefix[i]
            <= #[trigger] prefix[j] by {
            assert(ts[i] <= ts[j]);
        }
        assert(prefix.last() == ts[ts.len() - 2] && prefix.first() == ts[0]);
        assert(ts[ts.len() - 2] <= ts[ts.len() - 1]);
        lemma_bucket_run(prefix, within_ms);
        assert(prefix.push(now) =~= ts);
        lemma_retained_all(ts, now, within_ms);
        assert(history_after_pushes(Seq::empty(), ts, within_ms) == retained(ts, now, within_ms));
    }
}

/// Law: a bucket configured with allowance `times = N` admits exactly the
/// first N pushes of a burst and refuses every later one. For stamps `ts`
/// forming a burst inside one window and starting from an empty history,
/// the k-th push (counting from zero) leaves history `ts.take(k + 1)` and
/// succeeds if and only if `k < N`.
pub proof fn lemma_bucket_threshold(cfg: NaiveLeakyBucketConfig, ts: Seq<u64>)
    requires
        burst_within(ts, cfg.within_ms),
    ensures
        forall|k: int|
            0 <= k < ts.len() ==> #[trigger] pushed_history(ts.take(k), ts[k], cfg.within_ms)
                =~= ts.take(k + 1),
        forall|k: int|
            0 <= k < ts.len() ==> (#[trigger] pushed_history(
                ts.take(k),
                ts[k],
                cfg.within_ms,
            ).len() <= cfg.times <==> k < cfg.times),
        history_after_pushes(Seq::empty(), ts, cfg.within_ms) == ts,
{
    lemma_bucket_run(ts, cfg.within_ms);
    assert forall|k: int| 0 <= k < ts.len() implies #[trigger] pushed_history(
        ts.take(k),
        ts[k],
        cfg.within_ms,
    ) =~= ts.take(k + 1) by {
        assert(ts.take(k).push(ts[k]) =~= ts.take(k + 1));
        lemma_retained_all(ts.take(k + 1), ts[k], cfg.within_ms);
    }
}

} // verus!
