//! Request gating of the HTTP front door: the per-tier rate limiter (a
//! one-second window per tier and client address) and the bounded audit log
//! of requests.

use vstd::prelude::*;
use std::time::Instant;
use crate::clock::{instant_now, micros_since};
use crate::text::{owned, push_str, str_eq};

verus! {

/// Requests allowed per second in each tier; 100 for any other tier.
pub open spec fn tier_limit(tier: Seq<char>) -> u64 {
    if tier == "public"@ {
        200
    } else if tier == "auth"@ {
        20
    } else if tier == "trading"@ {
        2000
    } else if tier == "admin"@ {
        100
    } else if tier == "webhook"@ {
        500
    } else {
        100
    }
}

/// The requests allowed per second in a tier.
pub fn tier_limit_of(tier: &str) -> (r: u64)
    ensures
        r == tier_limit(tier@),
{
    proof {
        reveal_strlit("public");
        reveal_strlit("auth");
        reveal_strlit("trading");
        reveal_strlit("admin");
        reveal_strlit("webhook");
    }
    if str_eq(tier, "public") {
        200
    } else if str_eq(tier, "auth") {
        20
    } else if str_eq(tier, "trading") {
        2000
    } else if str_eq(tier, "admin") {
        100
    } else if str_eq(tier, "webhook") {
        500
    } else {
        100
    }
}

/// The key a client's window is kept under: the tier, a colon, the address.
pub open spec fn rate_key(tier: Seq<char>, ip: Seq<char>) -> Seq<char> {
    tier + ":"@ + ip
}

/// One client's window: its key, the requests counted in it and when it
/// began (microseconds after the limiter was made).
#[derive(Debug)]
pub struct RateWindow {
    pub key: String,
    pub count: u64,
    pub window_start: u64,
}

/// The key, count and start of a window.
pub open spec fn window_view(w: RateWindow) -> (Seq<char>, u64, u64) {
    (w.key@, w.count, w.window_start)
}

/// The index of the first window among the first `n` with the key `key`, or
/// -1 when there is none.
pub open spec fn key_index(s: Seq<(Seq<char>, u64, u64)>, key: Seq<char>, n: int) -> int
    decreases n,
{
    if n <= 0 {
        -1
    } else {
        let i = key_index(s, key, n - 1);
        if i >= 0 {
            i
        } else if s[n - 1].0 == key {
            n - 1
        } else {
            -1
        }
    }
}

/// The windows after a request of `ip` in `tier` at time `now`, and whether
/// the request is allowed: a client seen for the first time, or whose window
/// began at least a second ago, starts a new window with this request;
/// otherwise the request counts in the window while under the tier's limit,
/// and is refused (nothing changes) once the limit is reached.
pub open spec fn rate_check(s: Seq<(Seq<char>, u64, u64)>, tier: Seq<char>, ip: Seq<char>, now: u64) -> (Seq<(Seq<char>, u64, u64)>, bool) {
    let key = rate_key(tier, ip);
    let i = key_index(s, key, s.len() as int);
    if i < 0 {
        (s.push((key, 1u64, now)), true)
    } else if now >= s[i].2 + 1_000_000 {
        (s.update(i, (key, 1u64, now)), true)
    } else if s[i].1 < tier_limit(tier) {
        (s.update(i, (key, (s[i].1 + 1) as u64, s[i].2)), true)
    } else {
        (s, false)
    }
}

/// Requests per second per tier and client address.
pub struct RateLimiter {
    windows: Vec<RateWindow>,
    started: Instant,
}

impl RateLimiter {
    /// The windows, in the order their clients were first seen.
    pub closed spec fn windows(&self) -> Seq<(Seq<char>, u64, u64)> {
        self.windows@.map_values(|w: RateWindow| window_view(w))
    }

    /// A limiter that has seen no request.
    pub fn new() -> (r: RateLimiter)
        ensures
            r.windows() == Seq::<(Seq<char>, u64, u64)>::empty(),
    {
        let r = RateLimiter { windows: Vec::new(), started: instant_now() };
        assert(r.windows() =~= Seq::<(Seq<char>, u64, u64)>::empty());
        r
    }

    /// Whether a request of `ip` in `tier` at time `now` (microseconds after
    /// the limiter was made) is allowed; it is counted when it is.
    pub fn check_at(&mut self, ip: &str, tier: &str, now: u64) -> (r: bool)
        ensures
            (final(self).windows(), r) == rate_check(old(self).windows(), tier@, ip@, now),
    {
        let max_per_sec = tier_limit_of(tier);
        let mut key = owned(tier);
        push_str(&mut key, ":");
        push_str(&mut key, ip);
        proof {
            reveal_strlit(":");
        }
        let ghost k = rate_key(tier@, ip@);
        assert(key@ == k);
        let ghost s = self.windows();
        let mut i: usize = 0;
        while i < self.windows.len()
            invariant
                i <= self.windows@.len(),
                s == self.windows(),
                s == old(self).windows(),
                key@ == k,
                k == rate_key(tier@, ip@),
                max_per_sec == tier_limit(tier@),
                key_index(s, k, i as int) == -1,
            decreases self.windows@.len() - i,
        {
            if str_eq(self.windows[i].key.as_str(), key.as_str()) {
                assert(s[i as int] == window_view(self.windows@[i as int]));
                assert(key_index(s, k, i + 1) == i);
                proof {
                    lemma_key_index_stays(s, k, i as int + 1, s.len() as int);
                }
                let count = self.windows[i].count;
                let start = self.windows[i].window_start;
                let ghost rc = rate_check(s, tier@, ip@, now);
                assert(key_index(s, k, s.len() as int) == i as int);
                assert(s[i as int].1 == count && s[i as int].2 == start);
                assert(max_per_sec == tier_limit(tier@));
                if now >= start && now - start >= 1_000_000 {
                    assert(rc == (s.update(i as int, (k, 1u64, now)), true));
                    let w = RateWindow { key, count: 1, window_start: now };
                    self.windows.set(i, w);
                    assert(self.windows() =~= s.update(i as int, (k, 1u64, now)));
                    return true;
                } else if count < max_per_sec {
                    assert(rc == (s.update(i as int, (k, (count + 1) as u64, start)), true));
                    let w = RateWindow { key, count: count + 1, window_start: start };
                    self.windows.set(i, w);
                    assert(self.windows() =~= s.update(i as int, (k, (count + 1) as u64, start)));
                    return true;
                } else {
                    assert(rc == (s, false));
                    return false;
                }
            }
            assert(s[i as int].0 != k);
            i = i + 1;
        }
        self.windows.push(RateWindow { key, count: 1, window_start: now });
        assert(self.windows() =~= s.push((k, 1u64, now)));
        true
    }

    /// Whether a request of `ip` in `tier` is allowed now; it is counted
    /// when it is. The time is read from the monotonic clock.
    pub fn check(&mut self, ip: &str, tier: &str) -> (r: bool)
        ensures
            exists|now: u64| (final(self).windows(), r) == #[trigger] rate_check(old(self).windows(), tier@, ip@, now),
    {
        let now = micros_since(&self.started);
        self.check_at(ip, tier, now)
    }
}

/// Once found among the first `n`, the first index of a key stays the same
/// among the first `m >= n`.
proof fn lemma_key_index_stays(s: Seq<(Seq<char>, u64, u64)>, key: Seq<char>, n: int, m: int)
    requires
        0 <= n <= m,
        key_index(s, key, n) >= 0,
    ensures
        key_index(s, key, m) == key_index(s, key, n),
    decreases m - n,
{
    if m > n {
        lemma_key_index_stays(s, key, n, m - 1);
    }
}

/// One audited request.
#[derive(Debug)]
pub struct AuditEntry {
    pub timestamp: i64,
    pub tenant_id: Option<u128>,
    pub action: String,
    pub resource: String,
    pub ip: String,
    pub status: u16,
}

/// What an audit entry holds.
pub open spec fn audit_view(e: AuditEntry) -> (i64, Option<u128>, Seq<char>, Seq<char>, Seq<char>, u16) {
    (e.timestamp, e.tenant_id, e.action@, e.resource@, e.ip@, e.status)
}

impl AuditEntry {
    /// A copy holding the same data.
    pub fn duplicate(&self) -> (r: AuditEntry)
        ensures
            audit_view(r) == audit_view(*self),
    {
        AuditEntry {
            timestamp: self.timestamp,
            tenant_id: self.tenant_id,
            action: self.action.clone(),
            resource: self.resource.clone(),
            ip: self.ip.clone(),
            status: self.status,
        }
    }
}

/// The most recent audited requests, at most a given number of them.
pub struct AuditLog {
    entries: Vec<AuditEntry>,
    max_entries: usize,
}

impl AuditLog {
    /// The entries kept, oldest first.
    pub closed spec fn entries(&self) -> Seq<(i64, Option<u128>, Seq<char>, Seq<char>, Seq<char>, u16)> {
        self.entries@.map_values(|e: AuditEntry| audit_view(e))
    }

    /// How many entries are kept at most.
    pub closed spec fn max_entries(&self) -> usize {
        self.max_entries
    }

    /// An empty log keeping at most `max_entries` entries.
    pub fn new(max_entries: usize) -> (r: AuditLog)
        ensures
            r.entries() == Seq::<(i64, Option<u128>, Seq<char>, Seq<char>, Seq<char>, u16)>::empty(),
            r.max_entries() == max_entries,
    {
        let r = AuditLog { entries: Vec::new(), max_entries };
        assert(r.entries() =~= Seq::<(i64, Option<u128>, Seq<char>, Seq<char>, Seq<char>, u16)>::empty());
        r
    }

    /// Records an entry; when the log is full the oldest entry goes.
    pub fn log(&mut self, entry: AuditEntry)
        requires
            old(self).max_entries() > 0 || old(self).entries().len() > 0,
        ensures
            final(self).max_entries() == old(self).max_entries(),
            final(self).entries() == if old(self).entries().len() >= old(self).max_entries() {
                old(self).entries().skip(1).push(audit_view(entry))
            } else {
                old(self).entries().push(audit_view(entry))
            },
    {
        let ghost before = self.entries();
        let ghost e = audit_view(entry);
        if self.entries.len() >= self.max_entries {
            self.entries.remove(0);
            assert(self.entries() =~= before.skip(1));
        }
        self.entries.push(entry);
        proof {
            if before.len() >= self.max_entries {
                assert(self.entries() =~= before.skip(1).push(e));
            } else {
                assert(self.entries() =~= before.push(e));
            }
        }
    }

    /// The last `limit` entries (all of them when there are fewer), oldest
    /// first.
    pub fn recent(&self, limit: usize) -> (r: Vec<AuditEntry>)
        ensures
            r@.map_values(|e: AuditEntry| audit_view(e)) == self.entries().skip(
                if self.entries().len() > limit { self.entries().len() - limit } else { 0 },
            ),
    {
        let n = self.entries.len();
        let start = n.saturating_sub(limit);
        let mut out: Vec<AuditEntry> = Vec::new();
        let mut i: usize = start;
        while i < n
            invariant
                start <= i <= n,
                n == self.entries@.len(),
                out@.map_values(|e: AuditEntry| audit_view(e)) == self.entries().subrange(start as int, i as int),
            decreases n - i,
        {
            let e = self.entries[i].duplicate();
            assert(self.entries()[i as int] == audit_view(self.entries@[i as int]));
            let ghost before = out@.map_values(|e: AuditEntry| audit_view(e));
            out.push(e);
            assert(out@.map_values(|e: AuditEntry| audit_view(e)) =~= before.push(audit_view(e)));
            assert(out@.map_values(|e: AuditEntry| audit_view(e)) =~= self.entries().subrange(start as int, i + 1));
            i = i + 1;
        }
        assert(self.entries().subrange(start as int, n as int) =~= self.entries().skip(start as int));
        out
    }
}

} // verus!
