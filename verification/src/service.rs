//! The request pipeline of the relay: authorization, the cache-then-AdGuard
//! decision flow, and the errors that clients see.

use vstd::prelude::*;

use crate::adguard::{AdguardCheckHostResponse, AdguardError};
use crate::clock::max_duration_nanos;
use crate::cache::{after_lookup, expiry, fresh_lookup, remaining_ttl, stored, DecisionCache};
use crate::config::Settings;
use crate::domain::{domain_error_text, normalize_domain, normalized_domain};
use crate::models::{
    is_blocked_reason, is_response_from_adguard, reason_blocks, reason_category,
    CacheStatus, DecisionReason, DomainCheckResponse, ErrorResponse, ResponseView, UtcTimestamp,
};
use crate::text::{chars_of, has_prefix, same_chars, skip_chars, starts_with};

verus! {

/// Minimal error surface returned to clients.
#[derive(Debug)]
pub enum ApiError {
    Unauthorized,
    BadRequest(String),
    Upstream,
}

impl ApiError {
    /// The HTTP status code and the JSON body that answer this error. The
    /// body of an upstream failure is fixed text: nothing AdGuard sent is
    /// passed on to clients.
    pub fn into_parts(self) -> (r: (u16, ErrorResponse))
        ensures
            match self {
                ApiError::Unauthorized => r.0 == 401 && r.1.error@ == "unauthorized"@,
                ApiError::BadRequest(m) => r.0 == 400 && r.1.error == m,
                ApiError::Upstream => r.0 == 502 && r.1.error@ == "upstream service unavailable"@,
            },
    {
        match self {
            ApiError::Unauthorized => (401, ErrorResponse { error: "unauthorized".to_owned() }),
            ApiError::BadRequest(message) => (400, ErrorResponse { error: message }),
            ApiError::Upstream => (
                502,
                ErrorResponse { error: "upstream service unavailable".to_owned() },
            ),
        }
    }
}

/// The scheme prefix of an `Authorization` header that carries a bearer token.
pub open spec fn bearer_prefix() -> Seq<char> {
    "Bearer "@
}

/// Whether an `Authorization` header value carries `expected` as a non-empty
/// bearer token.
pub open spec fn bearer_matches(header: Option<Seq<char>>, expected: Seq<char>) -> bool {
    match header {
        Some(v) => {
            let token = v.subrange(bearer_prefix().len() as int, v.len() as int);
            has_prefix(v, bearer_prefix()) && token.len() > 0 && token == expected
        },
        None => false,
    }
}

/// Validates the bearer token supplied by the caller. `header` is the
/// `Authorization` header value, `None` when it is missing or not visible ASCII.
pub fn authorize(header: Option<&str>, expected_token: &str) -> (r: Result<(), ApiError>)
    ensures
        r is Ok <==> bearer_matches(
            match header {
                Some(h) => Some(h@),
                None => None,
            },
            expected_token@,
        ),
        r matches Err(e) ==> e is Unauthorized,
{
    let value = match header {
        Some(h) => chars_of(h),
        None => return Err(ApiError::Unauthorized),
    };
    let prefix = chars_of("Bearer ");
    if !starts_with(&value, &prefix) {
        return Err(ApiError::Unauthorized);
    }
    let provided = skip_chars(&value, prefix.len());
    if provided.len() == 0 {
        return Err(ApiError::Unauthorized);
    }
    if same_chars(&provided, &chars_of(expected_token)) {
        Ok(())
    } else {
        Err(ApiError::Unauthorized)
    }
}

/// How a domain check goes on after the cache was consulted: served from
/// the cache, or to be asked of AdGuard under its normalized name.
pub enum DomainLookup {
    Cached(DomainCheckResponse),
    Upstream(String),
}

/// Whether `r` is the first step of a domain check of `raw` when the cache
/// held `before`, was left as `after`, and its clock read `now`.
pub open spec fn first_step(
    before: Map<Seq<char>, crate::cache::CacheEntry>,
    after: Map<Seq<char>, crate::cache::CacheEntry>,
    raw: Seq<char>,
    r: Result<DomainLookup, ApiError>,
    now: u128,
) -> bool {
    match normalized_domain(raw) {
        Err(e) => after == before && (r matches Err(ApiError::BadRequest(m)) && m@
            == domain_error_text(e)),
        Ok(d) => after == after_lookup(before, d, now) && match r {
            Ok(DomainLookup::Cached(c)) => match fresh_lookup(before, d, now) {
                Some(v) => c@ == (ResponseView { cache_status: CacheStatus::Hit, ..v }),
                None => false,
            },
            Ok(DomainLookup::Upstream(n)) => n@ == d && fresh_lookup(before, d, now) is None,
            Err(_) => false,
        },
    }
}

/// Normalizes the requested domain and consults the cache. A fresh cached
/// decision is served with the `hit` status; otherwise the normalized name
/// is handed back for an AdGuard lookup. The cache clock is read once.
pub fn begin_domain_check(cache: &mut DecisionCache, raw_domain: &str) -> (r: Result<
    DomainLookup,
    ApiError,
>)
    ensures
        old(cache).clock() <= final(cache).clock(),
        final(cache).last_checked_at() == old(cache).last_checked_at(),
        first_step(old(cache)@, final(cache)@, raw_domain@, r, final(cache).clock()),
        r matches Ok(DomainLookup::Cached(c)) ==> normalized_domain(raw_domain@) == Ok::<
            Seq<char>,
            crate::domain::DomainError,
        >(c.domain@),
{
    let domain = match normalize_domain(raw_domain) {
        Ok(d) => d,
        Err(e) => {
            let r = Err(ApiError::BadRequest(e.message().to_owned()));
            assert(first_step(old(cache)@, cache@, raw_domain@, r, cache.clock()));
            return r;
        },
    };
    let ghost before = cache@;
    let cached = cache.get_fresh(domain.as_str());
    let ghost now = cache.clock();
    let r = match cached {
        Some(c) => Ok(DomainLookup::Cached(c.with_cache_status(CacheStatus::Hit))),
        None => Ok(DomainLookup::Upstream(domain)),
    };
    assert(first_step(before, cache@, raw_domain@, r, now));
    r
}

/// The TTL a fresh decision is cached and served with: the blocked TTL when
/// the AdGuard reason blocks the domain, the allowed TTL otherwise.
pub open spec fn decision_ttl_of(settings: Settings, reason: Seq<char>) -> u64 {
    if reason_blocks(reason_category(reason)) {
        settings.blocked_ttl_secs
    } else {
        settings.allowed_ttl_secs
    }
}

/// Picks the TTL for a fresh decision.
pub fn decision_ttl(settings: &Settings, reason: &str) -> (t: u64)
    ensures
        t == decision_ttl_of(*settings, reason@),
        t == (if reason_category(reason@) == DecisionReason::BlockedAdult || reason_category(
            reason@,
        ) == DecisionReason::BlockedRule || reason_category(reason@)
            == DecisionReason::BlockedService {
            settings.blocked_ttl_secs
        } else {
            settings.allowed_ttl_secs
        }),
{
    if is_blocked_reason(reason) {
        settings.blocked_ttl_secs
    } else {
        settings.allowed_ttl_secs
    }
}

/// Turns the AdGuard answer for `domain` into the public decision, caches it
/// and returns it. A failed lookup becomes the upstream error and leaves the
/// cache alone. The decision is stamped with the current UTC time.
pub fn finish_domain_check(
    cache: &mut DecisionCache,
    settings: &Settings,
    domain: String,
    upstream: Result<AdguardCheckHostResponse, AdguardError>,
) -> (r: Result<DomainCheckResponse, ApiError>)
    ensures
        match upstream {
            Err(_) => r is Err && r->Err_0 is Upstream && final(cache)@ == old(cache)@
                && final(cache).clock() == old(cache).clock() && final(cache).last_checked_at()
                == old(cache).last_checked_at(),
            Ok(up) => match r {
                Ok(resp) => {
                    &&& is_response_from_adguard(
                        resp@,
                        domain,
                        up,
                        decision_ttl_of(*settings, up.reason@),
                        CacheStatus::Miss,
                        resp.checked_at,
                    )
                    &&& final(cache).last_checked_at() == Some(resp.checked_at)
                    &&& old(cache).clock() <= final(cache).clock() <= max_duration_nanos()
                    &&& stored(old(cache)@, final(cache)@, resp@, final(cache).clock())
                },
                Err(_) => false,
            },
        },
{
    let up = match upstream {
        Ok(up) => up,
        Err(_) => return Err(ApiError::Upstream),
    };
    let ttl = decision_ttl(settings, up.reason.as_str());
    let checked_at = cache.read_utc();
    let response = DomainCheckResponse::from_adguard(domain, up, ttl, CacheStatus::Miss, checked_at);
    cache.insert(response.clone());
    Ok(response)
}

/// A decision that was just stored is what the next check of the same name
/// gets from the cache until it expires: the same decision, marked as a
/// cache hit, with the seconds it has left as its TTL.
pub proof fn lemma_stored_decision_is_served(
    before: Map<Seq<char>, crate::cache::CacheEntry>,
    after: Map<Seq<char>, crate::cache::CacheEntry>,
    response: ResponseView,
    stored_at: u128,
    raw: Seq<char>,
    r: Result<DomainLookup, ApiError>,
    later: Map<Seq<char>, crate::cache::CacheEntry>,
    now: u128,
)
    requires
        stored(before, after, response, stored_at),
        normalized_domain(raw) == Ok::<Seq<char>, crate::domain::DomainError>(response.domain@),
        now < expiry(stored_at, response.ttl),
        first_step(after, later, raw, r, now),
    ensures
        r matches Ok(DomainLookup::Cached(c)) && c@ == (ResponseView {
            ttl: remaining_ttl(expiry(stored_at, response.ttl) as u128, now),
            cache_status: CacheStatus::Hit,
            ..response
        }),
        later == after,
{
    crate::cache::lemma_stored_response_is_served(before, after, response, stored_at, now);
}

} // verus!

verus! {

/// The pipeline's central law, over two real calls. Say
/// `finish_domain_check` took the cache from `before` to `after`, storing
/// `response` at its clock reading, and the next check, `begin_domain_check`
/// on a name that normalizes to the same domain, took it from `after` to
/// `later`. If that check's clock reading came before the decision's TTL
/// ran out, it is served from the cache as a hit: the same decision, with
/// the whole seconds it has left (at least one, at most its TTL) as its TTL,
/// and the cache is left as it was. No AdGuard lookup is asked for.
pub proof fn lemma_next_check_is_served_from_cache(
    before: DecisionCache,
    after: DecisionCache,
    response: ResponseView,
    raw: Seq<char>,
    r: Result<DomainLookup, ApiError>,
    later: DecisionCache,
)
    requires
        stored(before@, after@, response, after.clock()),
        after.clock() <= later.clock(),
        first_step(after@, later@, raw, r, later.clock()),
        normalized_domain(raw) == Ok::<Seq<char>, crate::domain::DomainError>(response.domain@),
        later.clock() < expiry(after.clock(), response.ttl),
    ensures
        r matches Ok(DomainLookup::Cached(c)) && c@ == (ResponseView {
            ttl: remaining_ttl(expiry(after.clock(), response.ttl) as u128, later.clock()),
            cache_status: CacheStatus::Hit,
            ..response
        }),
        1 <= remaining_ttl(expiry(after.clock(), response.ttl) as u128, later.clock()) <= if response.ttl == 0 {
            1
        } else {
            response.ttl
        },
        later@ == after@,
{
    crate::cache::lemma_stored_response_is_served(
        before@,
        after@,
        response,
        after.clock(),
        later.clock(),
    );
    lemma_stored_decision_is_served(
        before@,
        after@,
        response,
        after.clock(),
        raw,
        r,
        later@,
        later.clock(),
    );
}

} // verus!

verus! {

/// A fresh decision is cached with the blocked TTL exactly when its
/// category is adult content, a filter rule or a blocked service, and with
/// the allowed TTL otherwise: every `Filtered...` reason gets the blocked
/// TTL, every `NotFiltered...` reason the allowed one.
pub proof fn lemma_ttl_follows_blocking(settings: Settings, reason: Seq<char>)
    ensures
        (reason_category(reason) == DecisionReason::BlockedAdult || reason_category(reason)
            == DecisionReason::BlockedRule || reason_category(reason)
            == DecisionReason::BlockedService) ==> decision_ttl_of(settings, reason)
            == settings.blocked_ttl_secs,
        !(reason_category(reason) == DecisionReason::BlockedAdult || reason_category(reason)
            == DecisionReason::BlockedRule || reason_category(reason)
            == DecisionReason::BlockedService) ==> decision_ttl_of(settings, reason)
            == settings.allowed_ttl_secs,
        has_prefix(reason, "Filtered"@) ==> decision_ttl_of(settings, reason)
            == settings.blocked_ttl_secs,
        has_prefix(reason, "NotFiltered"@) ==> decision_ttl_of(settings, reason)
            == settings.allowed_ttl_secs,
{
    crate::models::lemma_blocked_reason_exactly_for_blocking_categories(reason);
}

} // verus!

verus! {

/// A decision carries the UTC time at which it was checked: the reading that
/// `finish_domain_check` took of the UTC clock. Served later from the cache,
/// before its TTL runs out, it carries that same time, not the time of the
/// later check.
pub proof fn lemma_cached_decision_keeps_its_check_time(
    before: DecisionCache,
    after: DecisionCache,
    response: ResponseView,
    raw: Seq<char>,
    r: Result<DomainLookup, ApiError>,
    later: DecisionCache,
)
    requires
        stored(before@, after@, response, after.clock()),
        after.last_checked_at() == Some(response.checked_at),
        after.clock() <= later.clock(),
        first_step(after@, later@, raw, r, later.clock()),
        normalized_domain(raw) == Ok::<Seq<char>, crate::domain::DomainError>(response.domain@),
        later.clock() < expiry(after.clock(), response.ttl),
    ensures
        r matches Ok(DomainLookup::Cached(c)) && Some(c.checked_at) == after.last_checked_at(),
{
    lemma_next_check_is_served_from_cache(before, after, response, raw, r, later);
}

} // verus!
