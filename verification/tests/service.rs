use rule_relay::adguard::{AdguardCheckHostResponse, AdguardError};
use rule_relay::cache::DecisionCache;
use rule_relay::config::{EnvValues, Settings};
use rule_relay::models::{CacheStatus, DecisionReason};
use rule_relay::service::{
    authorize, begin_domain_check, decision_ttl, finish_domain_check, ApiError, DomainLookup,
};

fn settings() -> Settings {
    Settings::from_values(EnvValues {
        bind_addr: None,
        auth_token: Some("tok".to_string()),
        adguard_base_url: None,
        adguard_username: None,
        adguard_password: None,
        allowed_ttl_secs: Some("3600".to_string()),
        blocked_ttl_secs: Some("86400".to_string()),
    })
    .unwrap()
}

fn answer(reason: &str) -> AdguardCheckHostResponse {
    AdguardCheckHostResponse {
        reason: reason.to_string(),
        rule: String::new(),
        rules: Vec::new(),
        service_name: String::new(),
        cname: String::new(),
        ip_addrs: Vec::new(),
    }
}

#[test]
fn accepts_only_the_expected_bearer_token() {
    assert!(authorize(Some("Bearer tok"), "tok").is_ok());
    assert!(matches!(authorize(Some("Bearer other"), "tok"), Err(ApiError::Unauthorized)));
    assert!(matches!(authorize(Some("Bearer "), ""), Err(ApiError::Unauthorized)));
    assert!(matches!(authorize(Some("bearer tok"), "tok"), Err(ApiError::Unauthorized)));
    assert!(matches!(authorize(Some("Basic tok"), "tok"), Err(ApiError::Unauthorized)));
    assert!(matches!(authorize(Some("Bearer tok "), "tok"), Err(ApiError::Unauthorized)));
    assert!(matches!(authorize(None, "tok"), Err(ApiError::Unauthorized)));
}

#[test]
fn errors_map_to_status_and_body() {
    let (status, body) = ApiError::Unauthorized.into_parts();
    assert_eq!((status, body.error.as_str()), (401, "unauthorized"));
    let (status, body) = ApiError::BadRequest("invalid hostname".to_string()).into_parts();
    assert_eq!((status, body.error.as_str()), (400, "invalid hostname"));
    let (status, body) = ApiError::Upstream.into_parts();
    assert_eq!((status, body.error.as_str()), (502, "upstream service unavailable"));
}

#[test]
fn picks_the_ttl_by_decision() {
    let s = settings();
    assert_eq!(decision_ttl(&s, "FilteredParental"), 86_400);
    assert_eq!(decision_ttl(&s, "NotFilteredNotFound"), 3600);
    assert_eq!(decision_ttl(&s, "Rewrite"), 3600);
}

#[test]
fn bad_domains_are_bad_requests() {
    let mut cache = DecisionCache::new();
    match begin_domain_check(&mut cache, "https://example.com") {
        Err(ApiError::BadRequest(m)) => {
            assert_eq!(m, "domain must be a hostname without scheme or path")
        }
        _ => panic!("expected a bad request"),
    }
}

#[test]
fn a_decision_is_cached_and_then_served_as_a_hit() {
    let s = settings();
    let mut cache = DecisionCache::new();
    let domain = match begin_domain_check(&mut cache, " Adult.Example. ") {
        Ok(DomainLookup::Upstream(d)) => d,
        _ => panic!("expected an upstream lookup"),
    };
    assert_eq!(domain, "adult.example");
    let fresh =
        finish_domain_check(&mut cache, &s, domain, Ok(answer("FilteredParental"))).unwrap();
    assert!(fresh.blocked);
    assert_eq!(fresh.reason, DecisionReason::BlockedAdult);
    assert_eq!(fresh.ttl, 86_400);
    assert_eq!(fresh.cache_status, CacheStatus::Miss);
    assert_eq!(fresh.source, "adguard");
    match begin_domain_check(&mut cache, "ADULT.example") {
        Ok(DomainLookup::Cached(c)) => {
            assert_eq!(c.cache_status, CacheStatus::Hit);
            assert_eq!(c.domain, "adult.example");
            assert!(c.blocked);
            assert!(c.ttl >= 86_399 && c.ttl <= 86_400);
            assert_eq!(c.checked_at, fresh.checked_at);
        }
        _ => panic!("expected a cache hit"),
    }
}

#[test]
fn upstream_failures_are_not_cached() {
    let s = settings();
    let mut cache = DecisionCache::new();
    let r = finish_domain_check(
        &mut cache,
        &s,
        "example.com".to_string(),
        Err(AdguardError::UnexpectedStatus { status: 503 }),
    );
    assert!(matches!(r, Err(ApiError::Upstream)));
    assert!(matches!(
        begin_domain_check(&mut cache, "example.com"),
        Ok(DomainLookup::Upstream(_))
    ));
}
