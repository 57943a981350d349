use rule_relay::adguard::{AdguardCheckHostResponse, AdguardMatchedRule};
use rule_relay::models::{
    is_blocked_reason, CacheStatus, DecisionReason, DomainCheckResponse, UtcTimestamp,
};

#[test]
fn maps_parental_reason() {
    assert!(matches!(
        DecisionReason::from_adguard_reason("FilteredParental"),
        DecisionReason::BlockedAdult
    ));
}

#[test]
fn maps_unknown_filtered_to_blocked_rule() {
    assert!(is_blocked_reason("FilteredBlackList"));
}

#[test]
fn maps_allowlist_reason() {
    assert!(matches!(
        DecisionReason::from_adguard_reason("NotFilteredAllowList"),
        DecisionReason::AllowedAllowlist
    ));
}

#[test]
fn maps_every_reason_category() {
    let cases = [
        ("FilteredBlockedService", DecisionReason::BlockedService),
        ("NotFilteredNotFound", DecisionReason::Allowed),
        ("NotFilteredWhiteList", DecisionReason::Allowed),
        ("Rewrite", DecisionReason::Rewritten),
        ("RewriteEtcHosts", DecisionReason::Rewritten),
        ("RewriteRule", DecisionReason::Rewritten),
        ("Rewritten", DecisionReason::Rewritten),
        ("FilteredSafeBrowsing", DecisionReason::BlockedRule),
        ("Filtered", DecisionReason::BlockedRule),
        ("", DecisionReason::Unknown),
        ("filteredparental", DecisionReason::Unknown),
        ("RewriteSomething", DecisionReason::Unknown),
    ];
    for (raw, expected) in cases {
        assert_eq!(DecisionReason::from_adguard_reason(raw), expected, "{raw}");
    }
}

#[test]
fn only_blocking_categories_block() {
    assert!(DecisionReason::BlockedAdult.is_blocked());
    assert!(DecisionReason::BlockedRule.is_blocked());
    assert!(DecisionReason::BlockedService.is_blocked());
    assert!(!DecisionReason::Allowed.is_blocked());
    assert!(!DecisionReason::AllowedAllowlist.is_blocked());
    assert!(!DecisionReason::Rewritten.is_blocked());
    assert!(!DecisionReason::Unknown.is_blocked());
    assert!(!is_blocked_reason("NotFilteredNotFound"));
    assert!(!is_blocked_reason("Rewrite"));
}

fn sample_upstream() -> AdguardCheckHostResponse {
    AdguardCheckHostResponse {
        reason: "FilteredBlackList".to_string(),
        rule: "||ads.example^".to_string(),
        rules: vec![
            AdguardMatchedRule { text: "||ads.example^$important".to_string(), filter_list_id: 0 },
            AdguardMatchedRule { text: "||ads.example^".to_string(), filter_list_id: 7 },
        ],
        service_name: String::new(),
        cname: "cdn.example".to_string(),
        ip_addrs: vec!["10.0.0.1".to_string()],
    }
}

#[test]
fn converts_adguard_answer() {
    let at = UtcTimestamp { secs: 1_773_230_400, nanos: 5 };
    let r = DomainCheckResponse::from_adguard(
        "ads.example".to_string(),
        sample_upstream(),
        86_400,
        CacheStatus::Miss,
        at,
    );
    assert_eq!(r.domain, "ads.example");
    assert!(r.blocked);
    assert_eq!(r.reason, DecisionReason::BlockedRule);
    assert_eq!(r.ttl, 86_400);
    assert_eq!(r.checked_at, at);
    assert_eq!(r.source, "adguard");
    assert_eq!(r.cache_status, CacheStatus::Miss);
    assert_eq!(r.raw_reason.as_deref(), Some("FilteredBlackList"));
    assert_eq!(r.rule.as_deref(), Some("||ads.example^$important"));
    assert_eq!(r.service_name, None);
    assert_eq!(r.rules.len(), 2);
    assert_eq!(r.rules[0].text, "||ads.example^$important");
    assert_eq!(r.rules[0].filter_list_id, None);
    assert_eq!(r.rules[1].filter_list_id, Some(7));
    assert_eq!(r.cname.as_deref(), Some("cdn.example"));
    assert_eq!(r.ip_addrs, vec!["10.0.0.1".to_string()]);
}

#[test]
fn falls_back_to_the_rule_field() {
    let mut up = sample_upstream();
    up.rules.clear();
    up.reason = "NotFilteredNotFound".to_string();
    let r = DomainCheckResponse::from_adguard(
        "example.com".to_string(),
        up,
        3600,
        CacheStatus::Miss,
        UtcTimestamp { secs: 0, nanos: 0 },
    );
    assert!(!r.blocked);
    assert_eq!(r.reason, DecisionReason::Allowed);
    assert_eq!(r.rule.as_deref(), Some("||ads.example^"));
    assert!(r.rules.is_empty());

    let empty = AdguardCheckHostResponse {
        reason: String::new(),
        rule: String::new(),
        rules: Vec::new(),
        service_name: "youtube".to_string(),
        cname: String::new(),
        ip_addrs: Vec::new(),
    };
    let r = DomainCheckResponse::from_adguard(
        "example.com".to_string(),
        empty,
        3600,
        CacheStatus::Miss,
        UtcTimestamp { secs: 0, nanos: 0 },
    );
    assert_eq!(r.reason, DecisionReason::Unknown);
    assert_eq!(r.raw_reason, None);
    assert_eq!(r.rule, None);
    assert_eq!(r.service_name.as_deref(), Some("youtube"));
    assert_eq!(r.cname, None);
}

#[test]
fn relabels_cache_status_only() {
    let r = DomainCheckResponse::from_adguard(
        "ads.example".to_string(),
        sample_upstream(),
        60,
        CacheStatus::Miss,
        UtcTimestamp { secs: 1, nanos: 2 },
    );
    let copy = r.clone();
    let hit = r.with_cache_status(CacheStatus::Hit);
    assert_eq!(hit.cache_status, CacheStatus::Hit);
    assert_eq!(hit.domain, copy.domain);
    assert_eq!(hit.ttl, copy.ttl);
    assert_eq!(hit.rules.len(), copy.rules.len());
    assert_eq!(copy.cache_status, CacheStatus::Miss);
}
