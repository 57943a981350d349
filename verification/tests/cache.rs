use rule_relay::adguard::{AdguardCheckHostResponse, AdguardMatchedRule};
use rule_relay::cache::{DecisionCache, NANOS_PER_SEC};
use rule_relay::models::{CacheStatus, DomainCheckResponse, UtcTimestamp};

fn response(domain: &str, ttl: u64) -> DomainCheckResponse {
    DomainCheckResponse::from_adguard(
        domain.to_string(),
        AdguardCheckHostResponse {
            reason: "FilteredParental".to_string(),
            rule: String::new(),
            rules: vec![AdguardMatchedRule { text: "||adult.example^".to_string(), filter_list_id: 3 }],
            service_name: String::new(),
            cname: String::new(),
            ip_addrs: Vec::new(),
        },
        ttl,
        CacheStatus::Miss,
        UtcTimestamp { secs: 100, nanos: 0 },
    )
}

#[test]
fn serves_a_stored_response_with_the_seconds_left() {
    let mut cache = DecisionCache::new();
    cache.insert_at(response("adult.example", 10), 0);
    let r = cache.get_fresh_at("adult.example", 4 * NANOS_PER_SEC + 1).unwrap();
    assert_eq!(r.ttl, 5);
    assert_eq!(r.domain, "adult.example");
    assert_eq!(r.rules[0].text, "||adult.example^");
    assert_eq!(r.checked_at, UtcTimestamp { secs: 100, nanos: 0 });
    let r = cache.get_fresh_at("adult.example", 0).unwrap();
    assert_eq!(r.ttl, 10);
}

#[test]
fn remaining_ttl_is_at_least_one_second() {
    let mut cache = DecisionCache::new();
    cache.insert_at(response("a.example", 10), 0);
    let r = cache.get_fresh_at("a.example", 10 * NANOS_PER_SEC - 1).unwrap();
    assert_eq!(r.ttl, 1);
}

#[test]
fn expired_entries_are_dropped() {
    let mut cache = DecisionCache::new();
    cache.insert_at(response("a.example", 10), 5);
    assert!(cache.get_fresh_at("a.example", 10 * NANOS_PER_SEC + 5).is_none());
    assert!(cache.get_fresh_at("a.example", 0).is_none());
}

#[test]
fn zero_ttl_is_never_fresh() {
    let mut cache = DecisionCache::new();
    cache.insert_at(response("a.example", 0), 7);
    assert!(cache.get_fresh_at("a.example", 7).is_none());
}

#[test]
fn domains_are_kept_apart() {
    let mut cache = DecisionCache::new();
    cache.insert_at(response("a.example", 10), 0);
    cache.insert_at(response("b.example", 20), 0);
    assert!(cache.get_fresh_at("c.example", 1).is_none());
    assert_eq!(cache.get_fresh_at("a.example", 1).unwrap().ttl, 9);
    assert_eq!(cache.get_fresh_at("b.example", 1).unwrap().ttl, 19);
    assert!(cache.get_fresh_at("a.example", 10 * NANOS_PER_SEC).is_none());
    assert_eq!(cache.get_fresh_at("b.example", 10 * NANOS_PER_SEC).unwrap().ttl, 10);
}

#[test]
fn a_new_store_replaces_the_old_one() {
    let mut cache = DecisionCache::new();
    cache.insert_at(response("a.example", 10), 0);
    cache.insert_at(response("a.example", 100), 0);
    assert_eq!(cache.get_fresh_at("a.example", 50 * NANOS_PER_SEC).unwrap().ttl, 50);
}

#[test]
fn clock_driven_insert_and_lookup() {
    let mut cache = DecisionCache::default();
    cache.insert(response("a.example", 3600));
    let r = cache.get_fresh("a.example").unwrap();
    assert!(r.ttl >= 3599 && r.ttl <= 3600);
    assert!(cache.get_fresh("b.example").is_none());
    cache.insert(response("z.example", 0));
    assert!(cache.get_fresh("z.example").is_none());
}
