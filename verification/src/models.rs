//! Request and response models of the relay API, and the mapping from
//! AdGuard decisions to the public schema.

use vstd::prelude::*;

use crate::adguard::{AdguardCheckHostResponse, AdguardMatchedRule};
use crate::text::{chars_of, has_prefix, same_chars, starts_with};

verus! {

/// A point in UTC time: whole seconds since the Unix epoch and the
/// nanoseconds within that second.
#[derive(Clone, Copy, Debug, PartialEq, Eq, Structural)]
pub struct UtcTimestamp {
    pub secs: i64,
    pub nanos: u32,
}

/// The UTC clock of the system, with its latest reading as ghost state.
pub struct UtcClock {
    last: Ghost<Option<UtcTimestamp>>,
}

impl UtcClock {
    /// The latest reading of this clock, `None` before the first one.
    pub closed spec fn last(self) -> Option<UtcTimestamp> {
        self.last@
    }

    /// A clock that has not been read yet.
    pub fn new() -> (c: Self)
        ensures
            c.last() is None,
    {
        UtcClock { last: Ghost(None) }
    }
}

/// Calls `chrono::Utc::now` and takes the result apart into seconds and
/// nanoseconds. The time is read from the system clock, so nothing is stated
/// of its value: the one claim is that `clock` records the reading returned.
#[verifier::external_body]
pub(crate) fn utc_now(clock: &mut UtcClock) -> (t: UtcTimestamp)
    ensures
        final(clock).last() == Some(t),
{
    let now = chrono::Utc::now();
    let t = UtcTimestamp { secs: now.timestamp(), nanos: now.timestamp_subsec_nanos() };
    clock.last = Ghost(Some(t));
    t
}

/// Query parameters accepted by the domain-check route.
pub struct DomainCheckQuery {
    pub domain: String,
}

/// Matched filter rule metadata forwarded from AdGuard when available.
pub struct MatchedRule {
    pub text: String,
    pub filter_list_id: Option<u64>,
}

impl Clone for MatchedRule {
    fn clone(&self) -> (r: Self)
        ensures
            r == *self,
    {
        MatchedRule { text: self.text.clone(), filter_list_id: self.filter_list_id }
    }
}

/// Stable reason categories exposed by the public relay API.
#[derive(Clone, Copy, Debug, PartialEq, Eq, Structural)]
pub enum DecisionReason {
    BlockedAdult,
    BlockedRule,
    BlockedService,
    Allowed,
    AllowedAllowlist,
    Rewritten,
    Unknown,
}

/// Indicates whether a response came from the in-memory cache or a live lookup.
#[derive(Clone, Copy, Debug, PartialEq, Eq, Structural)]
pub enum CacheStatus {
    Hit,
    Miss,
}

/// Error payload returned by the HTTP API.
pub struct ErrorResponse {
    pub error: String,
}

/// Normalized response returned to clients after a cache or AdGuard lookup.
pub struct DomainCheckResponse {
    pub domain: String,
    pub blocked: bool,
    pub reason: DecisionReason,
    pub ttl: u64,
    pub checked_at: UtcTimestamp,
    pub source: &'static str,
    pub cache_status: CacheStatus,
    pub raw_reason: Option<String>,
    pub rule: Option<String>,
    pub service_name: Option<String>,
    pub rules: Vec<MatchedRule>,
    pub cname: Option<String>,
    pub ip_addrs: Vec<String>,
}

/// The mathematical form of [`DomainCheckResponse`]: lists become sequences.
pub struct ResponseView {
    pub domain: String,
    pub blocked: bool,
    pub reason: DecisionReason,
    pub ttl: u64,
    pub checked_at: UtcTimestamp,
    pub source: &'static str,
    pub cache_status: CacheStatus,
    pub raw_reason: Option<String>,
    pub rule: Option<String>,
    pub service_name: Option<String>,
    pub rules: Seq<MatchedRule>,
    pub cname: Option<String>,
    pub ip_addrs: Seq<String>,
}

impl View for DomainCheckResponse {
    type V = ResponseView;

    open spec fn view(&self) -> ResponseView {
        ResponseView {
            domain: self.domain,
            blocked: self.blocked,
            reason: self.reason,
            ttl: self.ttl,
            checked_at: self.checked_at,
            source: self.source,
            cache_status: self.cache_status,
            raw_reason: self.raw_reason,
            rule: self.rule,
            service_name: self.service_name,
            rules: self.rules@,
            cname: self.cname,
            ip_addrs: self.ip_addrs@,
        }
    }
}

/// A copy of an optional string.
fn clone_optional(o: &Option<String>) -> (r: Option<String>)
    ensures
        r == *o,
{
    match o {
        Some(s) => Some(s.clone()),
        None => None,
    }
}

/// A copy of a list of strings.
pub(crate) fn clone_strings(v: &Vec<String>) -> (r: Vec<String>)
    ensures
        r@ == v@,
{
    let mut r: Vec<String> = Vec::new();
    let n = v.len();
    let mut i: usize = 0;
    while i < n
        invariant
            n == v@.len(),
            i <= n,
            r@ == v@.subrange(0, i as int),
        decreases n - i,
    {
        r.push(v[i].clone());
        i = i + 1;
        assert(r@ =~= v@.subrange(0, i as int));
    }
    assert(v@.subrange(0, n as int) =~= v@);
    r
}

/// A copy of a list of matched rules.
fn clone_rules(v: &Vec<MatchedRule>) -> (r: Vec<MatchedRule>)
    ensures
        r@ == v@,
{
    let mut r: Vec<MatchedRule> = Vec::new();
    let n = v.len();
    let mut i: usize = 0;
    while i < n
        invariant
            n == v@.len(),
            i <= n,
            r@ == v@.subrange(0, i as int),
        decreases n - i,
    {
        r.push(v[i].clone());
        i = i + 1;
        assert(r@ =~= v@.subrange(0, i as int));
    }
    assert(v@.subrange(0, n as int) =~= v@);
    r
}

impl Clone for DomainCheckResponse {
    fn clone(&self) -> (r: Self)
        ensures
            r@ == self@,
    {
        let r = DomainCheckResponse {
            domain: self.domain.clone(),
            blocked: self.blocked,
            reason: self.reason,
            ttl: self.ttl,
            checked_at: self.checked_at,
            source: self.source,
            cache_status: self.cache_status,
            raw_reason: clone_optional(&self.raw_reason),
            rule: clone_optional(&self.rule),
            service_name: clone_optional(&self.service_name),
            rules: clone_rules(&self.rules),
            cname: clone_optional(&self.cname),
            ip_addrs: clone_strings(&self.ip_addrs),
        };
        assert(r.rules@ =~= self.rules@);
        assert(r.ip_addrs@ =~= self.ip_addrs@);
        r
    }
}

/// The public category of an AdGuard reason string.
pub open spec fn reason_category(r: Seq<char>) -> DecisionReason {
    if r == "FilteredParental"@ {
        DecisionReason::BlockedAdult
    } else if r == "FilteredBlockedService"@ {
        DecisionReason::BlockedService
    } else if r == "NotFilteredAllowList"@ {
        DecisionReason::AllowedAllowlist
    } else if r == "NotFilteredNotFound"@ {
        DecisionReason::Allowed
    } else if r == "Rewrite"@ || r == "RewriteEtcHosts"@ || r == "RewriteRule"@ || r
        == "Rewritten"@ {
        DecisionReason::Rewritten
    } else if has_prefix(r, "Filtered"@) {
        DecisionReason::BlockedRule
    } else if has_prefix(r, "NotFiltered"@) {
        DecisionReason::Allowed
    } else {
        DecisionReason::Unknown
    }
}

/// Whether a category means that the domain is blocked.
pub open spec fn reason_blocks(r: DecisionReason) -> bool {
    r == DecisionReason::BlockedAdult || r == DecisionReason::BlockedRule || r
        == DecisionReason::BlockedService
}

/// Whether `s` is exactly the literal `lit`.
fn is_literal(s: &Vec<char>, lit: &str) -> (b: bool)
    ensures
        b == (s@ == lit@),
{
    same_chars(s, &chars_of(lit))
}

impl DecisionReason {
    /// Maps AdGuard-specific reason strings into a smaller public enum.
    pub fn from_adguard_reason(reason: &str) -> (r: Self)
        ensures
            r == reason_category(reason@),
    {
        let s = chars_of(reason);
        if is_literal(&s, "FilteredParental") {
            DecisionReason::BlockedAdult
        } else if is_literal(&s, "FilteredBlockedService") {
            DecisionReason::BlockedService
        } else if is_literal(&s, "NotFilteredAllowList") {
            DecisionReason::AllowedAllowlist
        } else if is_literal(&s, "NotFilteredNotFound") {
            DecisionReason::Allowed
        } else if is_literal(&s, "Rewrite") || is_literal(&s, "RewriteEtcHosts") || is_literal(
            &s,
            "RewriteRule",
        ) || is_literal(&s, "Rewritten") {
            DecisionReason::Rewritten
        } else if starts_with(&s, &chars_of("Filtered")) {
            DecisionReason::BlockedRule
        } else if starts_with(&s, &chars_of("NotFiltered")) {
            DecisionReason::Allowed
        } else {
            DecisionReason::Unknown
        }
    }

    /// Whether this category blocks the domain.
    pub fn is_blocked(self) -> (b: bool)
        ensures
            b == reason_blocks(self),
            b == (self == DecisionReason::BlockedAdult || self == DecisionReason::BlockedRule
                || self == DecisionReason::BlockedService),
    {
        match self {
            DecisionReason::BlockedAdult => true,
            DecisionReason::BlockedRule => true,
            DecisionReason::BlockedService => true,
            _ => false,
        }
    }
}

/// Convenience helper used by the request pipeline when only the blocked bit is needed.
pub fn is_blocked_reason(reason: &str) -> (b: bool)
    ensures
        b == reason_blocks(reason_category(reason@)),
{
    DecisionReason::from_adguard_reason(reason).is_blocked()
}

/// `Some(s)` for a non-empty string, `None` for an empty one.
pub open spec fn non_empty(s: String) -> Option<String> {
    if s@.len() == 0 {
        None
    } else {
        Some(s)
    }
}

/// The public form of one rule that AdGuard matched: list id 0 means no list.
pub open spec fn matched_rule_of(e: AdguardMatchedRule) -> MatchedRule {
    MatchedRule {
        text: e.text,
        filter_list_id: if e.filter_list_id == 0 {
            None
        } else {
            Some(e.filter_list_id)
        },
    }
}

/// The rule text reported for a decision: the first matched rule's text,
/// else AdGuard's own `rule` field when it is not empty.
pub open spec fn reported_rule(up: AdguardCheckHostResponse) -> Option<String> {
    if up.rules@.len() > 0 {
        Some(up.rules@[0].text)
    } else {
        non_empty(up.rule)
    }
}

/// Whether `r` is the public response built from the AdGuard answer `up`.
pub open spec fn is_response_from_adguard(
    r: ResponseView,
    domain: String,
    up: AdguardCheckHostResponse,
    ttl: u64,
    cache_status: CacheStatus,
    checked_at: UtcTimestamp,
) -> bool {
    let reason = reason_category(up.reason@);
    &&& r.domain == domain
    &&& r.reason == reason
    &&& r.blocked == reason_blocks(reason)
    &&& r.ttl == ttl
    &&& r.checked_at == checked_at
    &&& r.source@ == "adguard"@
    &&& r.cache_status == cache_status
    &&& r.raw_reason == non_empty(up.reason)
    &&& r.rule == reported_rule(up)
    &&& r.service_name == non_empty(up.service_name)
    &&& r.rules == up.rules@.map_values(|e: AdguardMatchedRule| matched_rule_of(e))
    &&& r.cname == non_empty(up.cname)
    &&& r.ip_addrs == up.ip_addrs@
}

/// Moves a string into an option that is `None` when it is empty.
fn take_non_empty(s: String) -> (r: Option<String>)
    ensures
        r == non_empty(s),
{
    if s.as_str().is_empty() {
        None
    } else {
        Some(s)
    }
}

impl DomainCheckResponse {
    /// Converts the raw AdGuard response into the stable public relay schema.
    pub fn from_adguard(
        domain: String,
        upstream: AdguardCheckHostResponse,
        ttl: u64,
        cache_status: CacheStatus,
        checked_at: UtcTimestamp,
    ) -> (r: Self)
        ensures
            is_response_from_adguard(r@, domain, upstream, ttl, cache_status, checked_at),
            r.blocked == (r.reason == DecisionReason::BlockedAdult || r.reason
                == DecisionReason::BlockedRule || r.reason == DecisionReason::BlockedService),
    {
        let ghost up = upstream;
        let rule = if upstream.rules.len() > 0 {
            Some(upstream.rules[0].text.clone())
        } else {
            take_non_empty(upstream.rule.clone())
        };
        let mut rules: Vec<MatchedRule> = Vec::new();
        let n = upstream.rules.len();
        let mut i: usize = 0;
        while i < n
            invariant
                n == upstream.rules@.len(),
                i <= n,
                rules@ == upstream.rules@.subrange(0, i as int).map_values(
                    |e: AdguardMatchedRule| matched_rule_of(e),
                ),
            decreases n - i,
        {
            let entry = &upstream.rules[i];
            let filter_list_id = if entry.filter_list_id != 0 {
                Some(entry.filter_list_id)
            } else {
                None
            };
            rules.push(MatchedRule { text: entry.text.clone(), filter_list_id });
            i = i + 1;
            assert(rules@ =~= upstream.rules@.subrange(0, i as int).map_values(
                |e: AdguardMatchedRule| matched_rule_of(e),
            ));
        }
        assert(upstream.rules@.subrange(0, n as int) =~= upstream.rules@);
        let reason = DecisionReason::from_adguard_reason(upstream.reason.as_str());
        let AdguardCheckHostResponse { reason: raw, rule: _, rules: _, service_name, cname, ip_addrs } =
            upstream;
        DomainCheckResponse {
            domain,
            blocked: reason.is_blocked(),
            reason,
            ttl,
            checked_at,
            source: "adguard",
            cache_status,
            raw_reason: take_non_empty(raw),
            rule,
            service_name: take_non_empty(service_name),
            rules,
            cname: take_non_empty(cname),
            ip_addrs,
        }
    }

    /// Re-labels the cache status when an existing response is served from cache.
    pub fn with_cache_status(self, cache_status: CacheStatus) -> (r: Self)
        ensures
            r@ == (ResponseView { cache_status, ..self@ }),
    {
        let mut s = self;
        s.cache_status = cache_status;
        s
    }
}

} // verus!

verus! {

/// The three categories that block a domain.
proof fn lemma_blocking_categories(d: DecisionReason)
    ensures
        reason_blocks(d) <==> (d == DecisionReason::BlockedAdult || d == DecisionReason::BlockedRule
            || d == DecisionReason::BlockedService),
{
}

/// Every AdGuard reason that starts with `Filtered` blocks the domain:
/// `FilteredParental` as adult content, `FilteredBlockedService` as a blocked
/// service, and every other one (`FilteredBlackList`, `FilteredSafeSearch`,
/// `FilteredSafeBrowsing`, ...) as a filter rule. Every reason that starts
/// with `NotFiltered` allows it: `NotFilteredAllowList` as an allowlist
/// match, every other one as plainly allowed.
pub proof fn lemma_filtered_reasons_block(r: Seq<char>)
    ensures
        r == "FilteredParental"@ ==> reason_category(r) == DecisionReason::BlockedAdult,
        r == "FilteredBlockedService"@ ==> reason_category(r) == DecisionReason::BlockedService,
        has_prefix(r, "Filtered"@) && r != "FilteredParental"@ && r != "FilteredBlockedService"@
            ==> reason_category(r) == DecisionReason::BlockedRule,
        has_prefix(r, "Filtered"@) ==> (reason_category(r) == DecisionReason::BlockedAdult
            || reason_category(r) == DecisionReason::BlockedRule || reason_category(r)
            == DecisionReason::BlockedService),
        r == "NotFilteredAllowList"@ ==> reason_category(r) == DecisionReason::AllowedAllowlist,
        has_prefix(r, "NotFiltered"@) && r != "NotFilteredAllowList"@ ==> reason_category(r)
            == DecisionReason::Allowed,
        has_prefix(r, "NotFiltered"@) ==> !(reason_category(r) == DecisionReason::BlockedAdult
            || reason_category(r) == DecisionReason::BlockedRule || reason_category(r)
            == DecisionReason::BlockedService),
{
    reveal_strlit("FilteredParental");
    reveal_strlit("FilteredBlockedService");
    reveal_strlit("NotFilteredAllowList");
    reveal_strlit("NotFilteredNotFound");
    reveal_strlit("Rewrite");
    reveal_strlit("RewriteEtcHosts");
    reveal_strlit("RewriteRule");
    reveal_strlit("Rewritten");
    reveal_strlit("Filtered");
    reveal_strlit("NotFiltered");
    if has_prefix(r, "Filtered"@) {
        assert(r[0] == 'F') by {
            assert(r.subrange(0, 8)[0] == r[0]);
        }
        assert(r != "NotFilteredAllowList"@ && r != "NotFilteredNotFound"@) by {
            if r == "NotFilteredAllowList"@ || r == "NotFilteredNotFound"@ {
                assert(r[0] == 'N');
            }
        }
        assert(r != "Rewrite"@ && r != "RewriteEtcHosts"@ && r != "RewriteRule"@ && r
            != "Rewritten"@) by {
            if r == "Rewrite"@ || r == "RewriteEtcHosts"@ || r == "RewriteRule"@ || r
                == "Rewritten"@ {
                assert(r[0] == 'R');
            }
        }
    }
    if has_prefix(r, "NotFiltered"@) {
        assert(r[0] == 'N') by {
            assert(r.subrange(0, 11)[0] == r[0]);
        }
        assert(!has_prefix(r, "Filtered"@)) by {
            if has_prefix(r, "Filtered"@) {
                assert(r.subrange(0, 8)[0] == r[0]);
            }
        }
        assert(r != "FilteredParental"@ && r != "FilteredBlockedService"@) by {
            if r == "FilteredParental"@ || r == "FilteredBlockedService"@ {
                assert(r[0] == 'F');
            }
        }
        assert(r != "Rewrite"@ && r != "RewriteEtcHosts"@ && r != "RewriteRule"@ && r
            != "Rewritten"@) by {
            if r == "Rewrite"@ || r == "RewriteEtcHosts"@ || r == "RewriteRule"@ || r
                == "Rewritten"@ {
                assert(r[0] == 'R');
            }
        }
    }
}

/// A public response from AdGuard is marked blocked exactly when its
/// category is adult content, a filter rule or a blocked service; a
/// `Filtered...` answer is always blocked, a `NotFiltered...` answer never.
pub proof fn lemma_response_blocked_exactly_for_blocking_categories(
    r: ResponseView,
    domain: String,
    up: AdguardCheckHostResponse,
    ttl: u64,
    cache_status: CacheStatus,
    checked_at: UtcTimestamp,
)
    requires
        is_response_from_adguard(r, domain, up, ttl, cache_status, checked_at),
    ensures
        r.blocked <==> (r.reason == DecisionReason::BlockedAdult || r.reason
            == DecisionReason::BlockedRule || r.reason == DecisionReason::BlockedService),
        up.reason@ == "FilteredBlockedService"@ ==> r.reason == DecisionReason::BlockedService
            && r.blocked,
        up.reason@ == "FilteredParental"@ ==> r.reason == DecisionReason::BlockedAdult && r.blocked,
        has_prefix(up.reason@, "Filtered"@) ==> r.blocked,
        has_prefix(up.reason@, "NotFiltered"@) ==> !r.blocked,
{
    lemma_blocking_categories(r.reason);
    lemma_filtered_reasons_block(up.reason@);
}

/// The blocked bit of a reason string is set exactly for reasons whose
/// category is adult content, a filter rule or a blocked service.
pub proof fn lemma_blocked_reason_exactly_for_blocking_categories(r: Seq<char>)
    ensures
        reason_blocks(reason_category(r)) <==> (reason_category(r) == DecisionReason::BlockedAdult
            || reason_category(r) == DecisionReason::BlockedRule || reason_category(r)
            == DecisionReason::BlockedService),
        has_prefix(r, "Filtered"@) ==> reason_blocks(reason_category(r)),
        has_prefix(r, "NotFiltered"@) ==> !reason_blocks(reason_category(r)),
{
    lemma_blocking_categories(reason_category(r));
    lemma_filtered_reasons_block(r);
}

} // verus!
