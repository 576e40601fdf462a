//! Sliding-window rate limiter keyed by client address. Each key holds a
//! count and a window start; a request outside the window resets the count,
//! one inside it increments the count unless the endpoint's limit is
//! reached. The map is a vector of unique keys; the caller serializes
//! access and supplies the clock. An explicit sweep can remove entries
//! whose window has fully expired; the server does not run it on a
//! schedule, accepting growth under the modeled traffic pattern.

use vstd::prelude::*;
use vstd::string::*;

verus! {

/// Requests per hour allowed on the edit endpoint.
pub const EDIT_LIMIT: u64 = 100;

/// Requests per hour allowed on every other endpoint.
pub const GENERAL_LIMIT: u64 = 1000;

/// The window length in seconds: one hour.
pub const WINDOW_SECS: u64 = 3600;

/// Per-key state: how many requests were admitted since the window started.
#[derive(Clone, Copy, PartialEq, Eq, Structural, Debug)]
pub struct RateLimitEntry {
    /// Requests admitted in the current window.
    pub count: u64,
    /// When the current window started, in seconds.
    pub window_start: u64,
}

/// Seconds elapsed from `start` to `now`; zero when the clock reads earlier
/// than the recorded start.
pub open spec fn elapsed_since(now: u64, start: u64) -> int {
    if now >= start {
        now - start
    } else {
        0
    }
}

/// One request against one entry: reset the window if it has expired, then
/// reject when the count has reached the limit (with the seconds left in the
/// window as the retry hint) or admit and count the request.
pub open spec fn entry_step(e: RateLimitEntry, now: u64, limit: u64, window: u64) -> (
    RateLimitEntry,
    Result<(), u64>,
) {
    let e1 = if elapsed_since(now, e.window_start) > window {
        RateLimitEntry { count: 0, window_start: now }
    } else {
        e
    };
    if e1.count >= limit {
        let el = elapsed_since(now, e1.window_start);
        let retry = if el <= window {
            (window - el) as u64
        } else {
            0u64
        };
        (e1, Err(retry))
    } else {
        (RateLimitEntry { count: (e1.count + 1) as u64, window_start: e1.window_start }, Ok(()))
    }
}

/// The limit that applies to a request path: the edit endpoint is stricter.
pub open spec fn spec_limit_for_path(path: Seq<char>) -> u64 {
    if path.len() >= 9 && path.take(9) == "/api/edit"@ {
        EDIT_LIMIT
    } else {
        GENERAL_LIMIT
    }
}

/// Exec counterpart of `spec_limit_for_path`.
pub fn limit_for_path(path: &str) -> (r: u64)
    ensures
        r == spec_limit_for_path(path@),
{
    proof {
        reveal_strlit("/api/edit");
    }
    if path.unicode_len() < 9 {
        return GENERAL_LIMIT;
    }
    let is_edit = path.get_char(0) == '/' && path.get_char(1) == 'a' && path.get_char(2) == 'p'
        && path.get_char(3) == 'i' && path.get_char(4) == '/' && path.get_char(5) == 'e'
        && path.get_char(6) == 'd' && path.get_char(7) == 'i' && path.get_char(8) == 't';
    if is_edit {
        proof {
            assert(path@.take(9) =~= "/api/edit"@);
        }
        EDIT_LIMIT
    } else {
        proof {
            if path@.take(9) == "/api/edit"@ {
                assert forall|i: int| 0 <= i < 9 implies path@[i] == "/api/edit"@[i] by {
                    assert(path@.take(9)[i] == path@[i]);
                }
                assert(false);
            }
        }
        GENERAL_LIMIT
    }
}

/// Apply one request per entry in `times`, in order, to one key's entry.
pub open spec fn run_entry(e: RateLimitEntry, times: Seq<u64>, limit: u64, window: u64)
    -> RateLimitEntry
    decreases times.len(),
{
    if times.len() == 0 {
        e
    } else {
        run_entry(entry_step(e, times[0], limit, window).0, times.skip(1), limit, window)
    }
}

/// Requests within one window never move its start, and the count grows by
/// one per request until it reaches the limit and then stays.
pub proof fn lemma_rate_limit_saturates(e: RateLimitEntry, times: Seq<u64>, limit: u64, window: u64)
    requires
        forall|i: int| 0 <= i < times.len() ==> elapsed_since(#[trigger] times[i], e.window_start) <= window,
    ensures
        run_entry(e, times, limit, window).window_start == e.window_start,
        run_entry(e, times, limit, window).count == if e.count >= limit {
            e.count as int
        } else if e.count + times.len() <= limit {
            e.count + times.len()
        } else {
            limit as int
        },
    decreases times.len(),
{
    if times.len() > 0 {
        let (e1, _) = entry_step(e, times[0], limit, window);
        assert(elapsed_since(times[0], e.window_start) <= window);
        lemma_rate_limit_saturates(e1, times.skip(1), limit, window);
    }
}

/// Law: with limit `L` and window `W`, a key whose window started at `t0`
/// admits `L` requests within the window; the `(L+1)`-th request still
/// within the window is rejected, with a retry hint of at most `W` seconds.
pub proof fn lemma_rate_limit_rejects_over_limit(
    t0: u64,
    times: Seq<u64>,
    t_next: u64,
    limit: u64,
    window: u64,
)
    requires
        limit >= 1,
        times.len() == limit,
        forall|i: int| 0 <= i < times.len() ==> elapsed_since(#[trigger] times[i], t0) <= window,
        elapsed_since(t_next, t0) <= window,
    ensures
        ({
            let fresh = RateLimitEntry { count: 0, window_start: t0 };
            let e = run_entry(fresh, times, limit, window);
            let (e2, r) = entry_step(e, t_next, limit, window);
            &&& r is Err
            &&& r->Err_0 <= window
            &&& e2 == e
        }),
{
    let fresh = RateLimitEntry { count: 0, window_start: t0 };
    lemma_rate_limit_saturates(fresh, times, limit, window);
}

/// Law: the first request after the window has elapsed is admitted and
/// resets the counter to one, with the window restarting at that request.
pub proof fn lemma_rate_limit_window_reset(e: RateLimitEntry, now: u64, limit: u64, window: u64)
    requires
        limit >= 1,
        elapsed_since(now, e.window_start) > window,
    ensures
        entry_step(e, now, limit, window) == (
            RateLimitEntry { count: 1, window_start: now },
            Result::<(), u64>::Ok(()),
        ),
{
}

/// First entry in `s` whose key reads `key`, if any.
pub open spec fn lookup(s: Seq<(String, RateLimitEntry)>, key: Seq<char>) -> Option<RateLimitEntry>
    decreases s.len(),
{
    if s.len() == 0 {
        None
    } else if s[0].0@ == key {
        Some(s[0].1)
    } else {
        lookup(s.skip(1), key)
    }
}

/// No two entries share a key.
pub open spec fn unique_keys(s: Seq<(String, RateLimitEntry)>) -> bool {
    forall|i: int, j: int| 0 <= i < j < s.len() ==> (#[trigger] s[i]).0@ != (#[trigger] s[j]).0@
}

proof fn lemma_lookup_at(s: Seq<(String, RateLimitEntry)>, i: int)
    requires
        0 <= i < s.len(),
        forall|j: int| 0 <= j < i ==> (#[trigger] s[j]).0@ != s[i].0@,
    ensures
        lookup(s, s[i].0@) == Some(s[i].1),
    decreases i,
{
    if i > 0 {
        lemma_lookup_at(s.skip(1), i - 1);
    }
}

proof fn lemma_lookup_none(s: Seq<(String, RateLimitEntry)>, key: Seq<char>)
    requires
        forall|j: int| 0 <= j < s.len() ==> (#[trigger] s[j]).0@ != key,
    ensures
        lookup(s, key) is None,
    decreases s.len(),
{
    if s.len() > 0 {
        lemma_lookup_none(s.skip(1), key);
    }
}

proof fn lemma_lookup_update_other(
    s: Seq<(String, RateLimitEntry)>,
    i: int,
    p: (String, RateLimitEntry),
    key: Seq<char>,
)
    requires
        0 <= i < s.len(),
        p.0@ == s[i].0@,
        key != s[i].0@,
    ensures
        lookup(s.update(i, p), key) == lookup(s, key),
    decreases i,
{
    let t = s.update(i, p);
    if i == 0 {
        assert(t.skip(1) =~= s.skip(1));
    } else {
        assert(t[0] == s[0]);
        lemma_lookup_update_other(s.skip(1), i - 1, p, key);
        assert(t.skip(1) =~= s.skip(1).update(i - 1, p));
    }
}

proof fn lemma_lookup_push_other(
    s: Seq<(String, RateLimitEntry)>,
    p: (String, RateLimitEntry),
    key: Seq<char>,
)
    requires
        key != p.0@,
    ensures
        lookup(s.push(p), key) == lookup(s, key),
    decreases s.len(),
{
    if s.len() == 0 {
        assert(s.push(p)[0] == p);
        assert(s.push(p).skip(1) =~= Seq::<(String, RateLimitEntry)>::empty());
        assert(lookup(Seq::<(String, RateLimitEntry)>::empty(), key) is None);
    } else {
        assert(s.push(p)[0] == s[0]);
        lemma_lookup_push_other(s.skip(1), p, key);
        assert(s.push(p).skip(1) =~= s.skip(1).push(p));
    }
}

/// Whether an entry's window still covers the present moment; the sweep
/// keeps exactly these.
pub open spec fn keep_entry(p: (String, RateLimitEntry), now: u64) -> bool {
    elapsed_since(now, p.1.window_start) <= WINDOW_SECS
}

/// The entries left after sweeping out those whose window has fully expired.
pub open spec fn sweep(s: Seq<(String, RateLimitEntry)>, now: u64) -> Seq<(String, RateLimitEntry)>
    decreases s.len(),
{
    if s.len() == 0 {
        Seq::empty()
    } else if keep_entry(s[0], now) {
        seq![s[0]] + sweep(s.skip(1), now)
    } else {
        sweep(s.skip(1), now)
    }
}

proof fn lemma_sweep_push(s: Seq<(String, RateLimitEntry)>, p: (String, RateLimitEntry), now: u64)
    ensures
        sweep(s.push(p), now) == if keep_entry(p, now) {
            sweep(s, now).push(p)
        } else {
            sweep(s, now)
        },
    decreases s.len(),
{
    if s.len() == 0 {
        assert(s.push(p)[0] == p);
        assert(s.push(p).skip(1) =~= Seq::<(String, RateLimitEntry)>::empty());
        if keep_entry(p, now) {
            assert(seq![p] + sweep(Seq::empty(), now) =~= sweep(s, now).push(p));
        }
    } else {
        assert(s.push(p)[0] == s[0]);
        lemma_sweep_push(s.skip(1), p, now);
        assert(s.push(p).skip(1) =~= s.skip(1).push(p));
        if keep_entry(s[0], now) && keep_entry(p, now) {
            assert(seq![s[0]] + sweep(s.skip(1), now).push(p) =~= (seq![s[0]] + sweep(
                s.skip(1),
                now,
            )).push(p));
        }
    }
}

proof fn lemma_sweep_element_of(s: Seq<(String, RateLimitEntry)>, now: u64, j: int)
    requires
        0 <= j < sweep(s, now).len(),
    ensures
        exists|i: int| 0 <= i < s.len() && sweep(s, now)[j] == s[i],
    decreases s.len(),
{
    if keep_entry(s[0], now) {
        if j == 0 {
            assert(sweep(s, now)[0] == s[0]);
        } else {
            lemma_sweep_element_of(s.skip(1), now, j - 1);
            let i = choose|i: int|
                0 <= i < s.skip(1).len() && sweep(s.skip(1), now)[j - 1] == s.skip(1)[i];
            assert(sweep(s, now)[j] == sweep(s.skip(1), now)[j - 1]);
            assert(s.skip(1)[i] == s[i + 1]);
        }
    } else {
        lemma_sweep_element_of(s.skip(1), now, j);
        let i = choose|i: int|
            0 <= i < s.skip(1).len() && sweep(s.skip(1), now)[j] == s.skip(1)[i];
        assert(s.skip(1)[i] == s[i + 1]);
    }
}

proof fn lemma_sweep_unique(s: Seq<(String, RateLimitEntry)>, now: u64)
    requires
        unique_keys(s),
    ensures
        unique_keys(sweep(s, now)),
    decreases s.len(),
{
    if s.len() > 0 {
        assert forall|i: int, j: int|
            0 <= i < j < s.skip(1).len() implies (#[trigger] s.skip(1)[i]).0@ != (
        #[trigger] s.skip(1)[j]).0@ by {
            assert(s.skip(1)[i] == s[i + 1]);
            assert(s.skip(1)[j] == s[j + 1]);
        }
        lemma_sweep_unique(s.skip(1), now);
        if keep_entry(s[0], now) {
            let t = sweep(s, now);
            assert forall|i: int, j: int|
                0 <= i < j < t.len() implies (#[trigger] t[i]).0@ != (#[trigger] t[j]).0@ by {
                if i == 0 {
                    lemma_sweep_element_of(s.skip(1), now, j - 1);
                    let m = choose|m: int|
                        0 <= m < s.skip(1).len() && sweep(s.skip(1), now)[j - 1] == s.skip(1)[m];
                    assert(s.skip(1)[m] == s[m + 1]);
                    assert(t[j] == sweep(s.skip(1), now)[j - 1]);
                    assert(s[0].0@ != s[m + 1].0@);
                } else {
                    assert(t[i] == sweep(s.skip(1), now)[i - 1]);
                    assert(t[j] == sweep(s.skip(1), now)[j - 1]);
                }
            }
        }
    }
}

proof fn lemma_sweep_lookup(s: Seq<(String, RateLimitEntry)>, now: u64, k: Seq<char>)
    requires
        unique_keys(s),
    ensures
        lookup(sweep(s, now), k) == match lookup(s, k) {
            Some(e) => if elapsed_since(now, e.window_start) <= WINDOW_SECS {
                Some(e)
            } else {
                None
            },
            None => None,
        },
    decreases s.len(),
{
    if s.len() > 0 {
        assert forall|i: int, j: int|
            0 <= i < j < s.skip(1).len() implies (#[trigger] s.skip(1)[i]).0@ != (
        #[trigger] s.skip(1)[j]).0@ by {
            assert(s.skip(1)[i] == s[i + 1]);
            assert(s.skip(1)[j] == s[j + 1]);
        }
        lemma_sweep_lookup(s.skip(1), now, k);
        let t = sweep(s, now);
        if s[0].0@ == k {
            if keep_entry(s[0], now) {
                assert(t[0] == s[0]);
                assert(lookup(t, k) == Some(s[0].1));
            } else {
                assert forall|j: int|
                    0 <= j < sweep(s.skip(1), now).len() implies (#[trigger] sweep(
                    s.skip(1),
                    now,
                )[j]).0@ != k by {
                    lemma_sweep_element_of(s.skip(1), now, j);
                    let m = choose|m: int|
                        0 <= m < s.skip(1).len() && sweep(s.skip(1), now)[j] == s.skip(1)[m];
                    assert(s.skip(1)[m] == s[m + 1]);
                    assert(s[0].0@ != s[m + 1].0@);
                }
                lemma_lookup_none(sweep(s.skip(1), now), k);
            }
        } else {
            if keep_entry(s[0], now) {
                assert(t[0] == s[0]);
                assert(t.skip(1) =~= sweep(s.skip(1), now));
            }
        }
    }
}

/// The shared counter map: one entry per client key.
pub struct RateLimiter {
    entries: Vec<(String, RateLimitEntry)>,
}

impl RateLimiter {
    /// The entries held, as a sequence of key-entry pairs.
    pub closed spec fn spec_entries(&self) -> Seq<(String, RateLimitEntry)> {
        self.entries@
    }

    /// The entry recorded for a key, if any.
    pub open spec fn spec_get(&self, key: Seq<char>) -> Option<RateLimitEntry> {
        lookup(self.spec_entries(), key)
    }

    /// The limiter's keys are unique.
    pub open spec fn wf(&self) -> bool {
        unique_keys(self.spec_entries())
    }

    /// A limiter with no entries.
    pub fn new() -> (r: RateLimiter)
        ensures
            r.wf(),
            forall|k: Seq<char>| r.spec_get(k) is None,
    {
        let r = RateLimiter { entries: Vec::new() };
        proof {
            assert forall|k: Seq<char>| r.spec_get(k) is None by {
                lemma_lookup_none(r.spec_entries(), k);
            }
        }
        r
    }

    /// Record one request from `ip` against `path` at time `now`: admit it,
    /// or reject it with the seconds left until the window resets. The
    /// caller's key is stepped by `entry_step` (a missing key starts fresh
    /// at `now`); every other key is untouched.
    pub fn check_rate_limit(&mut self, ip: &str, path: &str, now: u64) -> (r: Result<(), u64>)
        requires
            old(self).wf(),
        ensures
            final(self).wf(),
            ({
                let e0 = match old(self).spec_get(ip@) {
                    Some(e) => e,
                    None => RateLimitEntry { count: 0, window_start: now },
                };
                let (e1, res) = entry_step(e0, now, spec_limit_for_path(path@), WINDOW_SECS);
                &&& r == res
                &&& final(self).spec_get(ip@) == Some(e1)
            }),
            forall|k: Seq<char>| k != ip@ ==> final(self).spec_get(k) == old(self).spec_get(k),
    {
        let limit = limit_for_path(path);
        let key = String::from_str(ip);
        let n = self.entries.len();
        let mut idx: usize = 0;
        let mut found = false;
        while idx < n && !found
            invariant
                0 <= idx <= n,
                n == self.entries@.len(),
                forall|j: int| 0 <= j < idx ==> (#[trigger] self.entries@[j]).0@ != key@,
                found ==> idx < n && self.entries@[idx as int].0@ == key@,
            decreases n - idx, (if found { 0int } else { 1int }),
        {
            if self.entries[idx].0 == key {
                found = true;
            } else {
                idx = idx + 1;
            }
        }
        let e0 = if found {
            proof {
                lemma_lookup_at(self.entries@, idx as int);
            }
            self.entries[idx].1
        } else {
            proof {
                lemma_lookup_none(self.entries@, key@);
            }
            RateLimitEntry { count: 0, window_start: now }
        };
        let mut e1 = e0;
        if now >= e1.window_start && now - e1.window_start > WINDOW_SECS {
            e1 = RateLimitEntry { count: 0, window_start: now };
        }
        let res: Result<(), u64> = if e1.count >= limit {
            let el = if now >= e1.window_start {
                now - e1.window_start
            } else {
                0
            };
            let retry = if el <= WINDOW_SECS {
                WINDOW_SECS - el
            } else {
                0
            };
            Err(retry)
        } else {
            e1 = RateLimitEntry { count: e1.count + 1, window_start: e1.window_start };
            Ok(())
        };
        let ghost old_entries = self.entries@;
        if found {
            let ghost oi = self.entries@[idx as int];
            self.entries.set(idx, (key, e1));
            proof {
                assert forall|j: int|
                    0 <= j < self.entries@.len() implies (#[trigger] self.entries@[j]).0@
                    == old_entries[j].0@ by {}
                assert(self.wf());
                lemma_lookup_at(self.entries@, idx as int);
                assert forall|k: Seq<char>| k != ip@ implies lookup(self.entries@, k) == lookup(
                    old_entries,
                    k,
                ) by {
                    lemma_lookup_update_other(old_entries, idx as int, (key, e1), k);
                }
            }
        } else {
            self.entries.push((key, e1));
            proof {
                assert(self.entries@ =~= old_entries.push((key, e1)));
                assert(self.wf());
                lemma_lookup_at(self.entries@, old_entries.len() as int);
                assert forall|k: Seq<char>| k != ip@ implies lookup(self.entries@, k) == lookup(
                    old_entries,
                    k,
                ) by {
                    lemma_lookup_push_other(old_entries, (key, e1), k);
                }
            }
        }
        res
    }

    /// Sweep out entries whose window has fully expired: afterwards a key
    /// reads its old entry when that entry's window still covers `now`, and
    /// nothing otherwise.
    pub fn cleanup(&mut self, now: u64)
        requires
            old(self).wf(),
        ensures
            final(self).wf(),
            forall|k: Seq<char>|
                final(self).spec_get(k) == match old(self).spec_get(k) {
                    Some(e) => if elapsed_since(now, e.window_start) <= WINDOW_SECS {
                        Some(e)
                    } else {
                        None
                    },
                    None => None,
                },
    {
        let ghost orig = self.entries@;
        let mut kept: Vec<(String, RateLimitEntry)> = Vec::new();
        let ghost mut taken: int = 0;
        while self.entries.len() > 0
            invariant
                0 <= taken <= orig.len(),
                self.entries@ =~= orig.skip(taken),
                kept@ =~= sweep(orig.take(taken), now),
            decreases self.entries@.len(),
        {
            let pair = self.entries.remove(0);
            let within = now < pair.1.window_start || now - pair.1.window_start <= WINDOW_SECS;
            proof {
                assert(pair == orig[taken]);
                assert(within == keep_entry(orig[taken], now));
                lemma_sweep_push(orig.take(taken), orig[taken], now);
                assert(orig.take(taken).push(orig[taken]) =~= orig.take(taken + 1));
                assert(self.entries@ =~= orig.skip(taken + 1));
                taken = taken + 1;
            }
            if within {
                kept.push(pair);
            }
        }
        proof {
            assert(orig.take(taken) =~= orig);
        }
        self.entries = kept;
        proof {
            lemma_sweep_unique(orig, now);
            assert forall|k: Seq<char>|
                lookup(self.entries@, k) == match lookup(orig, k) {
                    Some(e) => if elapsed_since(now, e.window_start) <= WINDOW_SECS {
                        Some(e)
                    } else {
                        None
                    },
                    None => None,
                } by {
                lemma_sweep_lookup(orig, now, k);
            }
        }
    }
}

} // verus!
