//! In-memory TTL cache used to avoid repeated AdGuard lookups for hot domains.
//!
//! Time is measured in nanoseconds on a monotonic clock that starts when the
//! cache is created.

use vstd::prelude::*;
use vstd::hash_map::StringHashMap;

use crate::clock::{max_duration_nanos, MonotonicClock};
use crate::models::{utc_now, DomainCheckResponse, ResponseView, UtcClock, UtcTimestamp};

verus! {

/// Nanoseconds in one second.
pub const NANOS_PER_SEC: u128 = 1_000_000_000;

/// A cached response and the clock reading at which it stops being fresh.
pub struct CacheEntry {
    pub expires_at: u128,
    pub response: DomainCheckResponse,
}

/// The clock reading at which an entry stored at `now` with `ttl` seconds expires.
pub open spec fn expiry(now: u128, ttl: u64) -> int {
    now + ttl * NANOS_PER_SEC
}

/// Whether an entry stored at `now` with `ttl` seconds has an expiry that a
/// clock reading can hold.
pub open spec fn expiry_fits(now: u128, ttl: u64) -> bool {
    expiry(now, ttl) <= u128::MAX
}

/// The TTL handed out for an entry still fresh at `now`: the whole seconds
/// left, at least one, and at most what a `u64` holds.
pub open spec fn remaining_ttl(expires_at: u128, now: u128) -> u64 {
    let left: int = if expires_at > now { (expires_at - now) / (NANOS_PER_SEC as int) } else { 0 };
    if left < 1 {
        1
    } else if left > u64::MAX {
        u64::MAX
    } else {
        left as u64
    }
}

/// The response that a lookup of `domain` at `now` serves from `m`, if any.
pub open spec fn fresh_lookup(m: Map<Seq<char>, CacheEntry>, domain: Seq<char>, now: u128) -> Option<
    ResponseView,
> {
    if m.contains_key(domain) && m[domain].expires_at > now {
        Some(ResponseView { ttl: remaining_ttl(m[domain].expires_at, now), ..m[domain].response@ })
    } else {
        None
    }
}

/// The contents after a lookup of `domain` at `now`: an expired entry is dropped.
pub open spec fn after_lookup(m: Map<Seq<char>, CacheEntry>, domain: Seq<char>, now: u128) -> Map<
    Seq<char>,
    CacheEntry,
> {
    if m.contains_key(domain) && m[domain].expires_at <= now {
        m.remove(domain)
    } else {
        m
    }
}

/// Whether `after` is `before` with `response` stored at `now` under its domain.
pub open spec fn stored(
    before: Map<Seq<char>, CacheEntry>,
    after: Map<Seq<char>, CacheEntry>,
    response: ResponseView,
    now: u128,
) -> bool {
    let key = response.domain@;
    &&& after.dom() == before.dom().insert(key)
    &&& forall|k: Seq<char>| #[trigger] after.contains_key(k) && k != key ==> after[k] == before[k]
    &&& after[key].expires_at == expiry(now, response.ttl)
    &&& after[key].response@ == response
}

/// A response stored at `stored_at` is served by every lookup of its domain
/// before it expires: the same response, with the seconds left as its TTL.
/// Looked up no earlier than it was stored, that TTL is at least one second
/// and never more than the stored TTL (or one, for a TTL of zero).
pub proof fn lemma_stored_response_is_served(
    before: Map<Seq<char>, CacheEntry>,
    after: Map<Seq<char>, CacheEntry>,
    response: ResponseView,
    stored_at: u128,
    now: u128,
)
    requires
        stored(before, after, response, stored_at),
        now < expiry(stored_at, response.ttl),
    ensures
        fresh_lookup(after, response.domain@, now) == Some(
            ResponseView { ttl: remaining_ttl(expiry(stored_at, response.ttl) as u128, now), ..response },
        ),
        after_lookup(after, response.domain@, now) == after,
        stored_at <= now ==> 1 <= remaining_ttl(expiry(stored_at, response.ttl) as u128, now) <= if response.ttl == 0 { 1 } else { response.ttl },
{
    let key = response.domain@;
    assert(after.contains_key(key));
    let e = expiry(stored_at, response.ttl);
    if stored_at <= now {
        let left = (e - now) / (NANOS_PER_SEC as int);
        assert(e - now <= response.ttl * NANOS_PER_SEC);
        assert(left <= response.ttl) by (nonlinear_arith)
            requires
                left == (e - now) / (NANOS_PER_SEC as int),
                0 < e - now <= response.ttl * NANOS_PER_SEC,
                NANOS_PER_SEC == 1_000_000_000,
        ;
    }
}

/// Once its TTL has run out, a stored response is no longer served, and the
/// lookup drops it.
pub proof fn lemma_expired_response_is_dropped(
    before: Map<Seq<char>, CacheEntry>,
    after: Map<Seq<char>, CacheEntry>,
    response: ResponseView,
    stored_at: u128,
    now: u128,
)
    requires
        stored(before, after, response, stored_at),
        now >= expiry(stored_at, response.ttl),
    ensures
        fresh_lookup(after, response.domain@, now) is None,
        after_lookup(after, response.domain@, now) == after.remove(response.domain@),
        !after_lookup(after, response.domain@, now).contains_key(response.domain@),
{
    assert(after.contains_key(response.domain@));
}

/// Storing a response for one domain changes no lookup of another domain.
pub proof fn lemma_store_keeps_other_domains(
    before: Map<Seq<char>, CacheEntry>,
    after: Map<Seq<char>, CacheEntry>,
    response: ResponseView,
    stored_at: u128,
    domain: Seq<char>,
    now: u128,
)
    requires
        stored(before, after, response, stored_at),
        domain != response.domain@,
    ensures
        fresh_lookup(after, domain, now) == fresh_lookup(before, domain, now),
{
    if before.contains_key(domain) {
        assert(after.dom().contains(domain));
        assert(after[domain] == before[domain]);
    }
    if after.contains_key(domain) {
        assert(before.dom().insert(response.domain@).contains(domain));
    }
}

/// A lookup changes nothing but the dropping of an expired entry: entries of
/// other domains, and a fresh entry of the looked-up domain, stay as they were.
pub proof fn lemma_lookup_only_drops_expired(m: Map<Seq<char>, CacheEntry>, domain: Seq<char>, now: u128)
    ensures
        forall|k: Seq<char>|
            k != domain ==> (#[trigger] after_lookup(m, domain, now).contains_key(k) == m.contains_key(k)
                && (m.contains_key(k) ==> after_lookup(m, domain, now)[k] == m[k])),
        fresh_lookup(m, domain, now) is Some ==> after_lookup(m, domain, now) == m,
        fresh_lookup(after_lookup(m, domain, now), domain, now) == fresh_lookup(m, domain, now),
{
}

impl CacheEntry {
    /// Returns the remaining TTL exposed back to the caller.
    fn remaining_ttl_secs(&self, now: u128) -> (t: u64)
        ensures
            t == remaining_ttl(self.expires_at, now),
    {
        let left = if self.expires_at > now {
            (self.expires_at - now) / NANOS_PER_SEC
        } else {
            0
        };
        if left < 1 {
            1
        } else if left > u64::MAX as u128 {
            u64::MAX
        } else {
            left as u64
        }
    }
}

/// The entries of a cache, each filed under the domain of its response.
struct CacheEntries {
    map: StringHashMap<CacheEntry>,
}

impl CacheEntries {
    /// Every entry is filed under the domain of the response it holds.
    #[verifier::type_invariant]
    closed spec fn entries_filed_by_domain(self) -> bool {
        forall|k: Seq<char>| #[trigger]
            self.map@.contains_key(k) ==> self.map@[k].response.domain@ == k
    }
}

/// Cache of responses keyed by normalized domain name, with its own
/// monotonic clock for expiry and the UTC clock that stamps decisions.
pub struct DecisionCache {
    entries: CacheEntries,
    clock: MonotonicClock,
    utc: UtcClock,
}

impl View for DecisionCache {
    type V = Map<Seq<char>, CacheEntry>;

    closed spec fn view(&self) -> Map<Seq<char>, CacheEntry> {
        self.entries.map@
    }
}

impl DecisionCache {
    /// The latest reading of the cache clock, in nanoseconds since the cache
    /// was created; zero before the first reading.
    pub closed spec fn clock(self) -> u128 {
        self.clock.last()
    }

    /// The latest reading of the UTC clock, `None` before the first one.
    pub closed spec fn last_checked_at(self) -> Option<UtcTimestamp> {
        self.utc.last()
    }
}

impl Default for DecisionCache {
    fn default() -> (c: Self)
        ensures
            c@ == Map::<Seq<char>, CacheEntry>::empty(),
            c.clock() == 0,
            c.last_checked_at() is None,
    {
        DecisionCache::new()
    }
}

impl DecisionCache {
    /// An empty cache whose clock starts now.
    pub fn new() -> (c: Self)
        ensures
            c@ == Map::<Seq<char>, CacheEntry>::empty(),
            c.clock() == 0,
            c.last_checked_at() is None,
    {
        DecisionCache { entries: CacheEntries { map: StringHashMap::new() }, clock: MonotonicClock::start(),
            utc: UtcClock::new(),
        }
    }

    /// Reads the cache clock: nanoseconds since the cache was created, never
    /// less than the reading before.
    fn now(&mut self) -> (r: u128)
        ensures
            old(self).clock() <= r <= max_duration_nanos(),
            final(self).clock() == r,
            final(self)@ == old(self)@,
            final(self).last_checked_at() == old(self).last_checked_at(),
    {
        self.clock.read()
    }

    /// Reads the UTC clock: the time at which a decision is checked.
    pub(crate) fn read_utc(&mut self) -> (t: UtcTimestamp)
        ensures
            final(self).last_checked_at() == Some(t),
            final(self)@ == old(self)@,
            final(self).clock() == old(self).clock(),
    {
        utc_now(&mut self.utc)
    }

    /// Looks `domain` up at clock reading `now`: a fresh entry is served with
    /// its remaining TTL, an expired one is removed.
    pub fn get_fresh_at(&mut self, domain: &str, now: u128) -> (r: Option<DomainCheckResponse>)
        ensures
            r matches Some(resp) ==> fresh_lookup(old(self)@, domain@, now) == Some(resp@),
            r matches Some(resp) ==> resp.domain@ == domain@,
            r is None ==> fresh_lookup(old(self)@, domain@, now) is None,
            final(self)@ == after_lookup(old(self)@, domain@, now),
            final(self).clock() == old(self).clock(),
            final(self).last_checked_at() == old(self).last_checked_at(),
    {
        proof {
            use_type_invariant(&self.entries);
        }
        let mut expired = false;
        match self.entries.map.get(domain) {
            Some(entry) => {
                if entry.expires_at > now {
                    let mut response = entry.response.clone();
                    response.ttl = entry.remaining_ttl_secs(now);
                    return Some(response);
                } else {
                    expired = true;
                }
            },
            None => {},
        }
        if expired {
            let mut map = StringHashMap::new();
            std::mem::swap(&mut map, &mut self.entries.map);
            map.remove(domain);
            self.entries = CacheEntries { map };
        }
        None
    }

    /// Returns a cached response when it is still fresh, removing expired
    /// entries lazily. The clock is read once, and the lookup is the one that
    /// [`DecisionCache::get_fresh_at`] makes at that reading.
    pub fn get_fresh(&mut self, domain: &str) -> (r: Option<DomainCheckResponse>)
        ensures
            old(self).clock() <= final(self).clock() <= max_duration_nanos(),
            r matches Some(resp) ==> resp.domain@ == domain@,
            r matches Some(resp) ==> fresh_lookup(old(self)@, domain@, final(self).clock()) == Some(
                resp@,
            ),
            r is None ==> fresh_lookup(old(self)@, domain@, final(self).clock()) is None,
            final(self)@ == after_lookup(old(self)@, domain@, final(self).clock()),
            final(self).last_checked_at() == old(self).last_checked_at(),
    {
        let now = self.now();
        self.get_fresh_at(domain, now)
    }

    /// Stores `response` at clock reading `now`, to stay fresh for its TTL.
    pub fn insert_at(&mut self, response: DomainCheckResponse, now: u128)
        requires
            expiry_fits(now, response.ttl),
        ensures
            stored(old(self)@, final(self)@, response@, now),
            final(self).clock() == old(self).clock(),
            final(self).last_checked_at() == old(self).last_checked_at(),
    {
        let ghost view = response@;
        let expires_at = now + (response.ttl as u128) * NANOS_PER_SEC;
        let domain = response.domain.clone();
        let entry = CacheEntry { expires_at, response };
        proof {
            use_type_invariant(&self.entries);
        }
        let mut map = StringHashMap::new();
        std::mem::swap(&mut map, &mut self.entries.map);
        map.insert(domain, entry);
        self.entries = CacheEntries { map };
    }

    /// Stores a new response using the response TTL as the cache expiry. The
    /// clock is read once, and the response is stored at that reading.
    pub fn insert(&mut self, response: DomainCheckResponse)
        ensures
            old(self).clock() <= final(self).clock() <= max_duration_nanos(),
            stored(old(self)@, final(self)@, response@, final(self).clock()),
            final(self).last_checked_at() == old(self).last_checked_at(),
    {
        let now = self.now();
        assert(expiry_fits(now, response.ttl));
        self.insert_at(response, now);
    }
}

} // verus!

verus! {

/// A response stored at reading `stored_at` with a TTL of `n` seconds, and
/// looked up at a reading `now` from the store until its expiry, is served
/// with exactly the whole seconds left until the expiry, `(stored_at + n·10⁹
/// − now) / 10⁹`, or one second when less than one is left; looked up at the
/// store instant itself, it is served with its own TTL `n`.
pub proof fn lemma_served_ttl_is_seconds_left(
    before: Map<Seq<char>, CacheEntry>,
    after: Map<Seq<char>, CacheEntry>,
    response: ResponseView,
    stored_at: u128,
    now: u128,
)
    requires
        stored(before, after, response, stored_at),
        stored_at <= now,
        now < stored_at + response.ttl * 1_000_000_000,
    ensures
        fresh_lookup(after, response.domain@, now) is Some,
        ({
            let left = (stored_at + response.ttl * 1_000_000_000 - now) / 1_000_000_000;
            fresh_lookup(after, response.domain@, now)->Some_0.ttl == if left >= 1 {
                left
            } else {
                1
            }
        }),
        now == stored_at ==> fresh_lookup(after, response.domain@, now)->Some_0.ttl
            == response.ttl,
{
    lemma_stored_response_is_served(before, after, response, stored_at, now);
    let n = response.ttl as int;
    let left = (stored_at + n * 1_000_000_000 - now) / 1_000_000_000;
    assert(left <= n) by (nonlinear_arith)
        requires
            left == (stored_at + n * 1_000_000_000 - now) / 1_000_000_000,
            stored_at <= now,
            n >= 0,
    ;
    if now == stored_at {
        assert(left == n) by (nonlinear_arith)
            requires
                left == (stored_at + n * 1_000_000_000 - now) / 1_000_000_000,
                stored_at == now,
        ;
    }
}

} // verus!
