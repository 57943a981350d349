use rule_relay::config::{
    bind_addr_text, parse_u64, read_optional_var, read_u64, read_var, ConfigError, EnvValues,
    Settings,
};

fn env() -> EnvValues {
    EnvValues {
        bind_addr: None,
        auth_token: Some("SECRET-REDACTED".to_string()),
        adguard_base_url: None,
        adguard_username: None,
        adguard_password: None,
        allowed_ttl_secs: None,
        blocked_ttl_secs: None,
    }
}

#[test]
fn parses_unsigned_numbers_like_std() {
    let cases = [
        "", "+", "-", "0", "+7", "-7", "007", "12a", " 1", "18446744073709551615",
        "18446744073709551616", "99999999999999999999999", "+18446744073709551615",
    ];
    for s in cases {
        assert_eq!(parse_u64(s), s.parse::<u64>().ok(), "{s:?}");
    }
}

#[test]
fn reads_variables() {
    assert_eq!(read_var("X", Some("v".to_string())).unwrap(), "v");
    assert!(matches!(read_var("X", None), Err(ConfigError::MissingVar("X"))));
    assert_eq!(read_optional_var(Some(String::new())), None);
    assert_eq!(read_optional_var(Some("u".to_string())).as_deref(), Some("u"));
    assert_eq!(read_optional_var(None), None);
    assert_eq!(read_u64("N", None, 9).unwrap(), 9);
    assert_eq!(read_u64("N", Some("12".to_string()), 9).unwrap(), 12);
    match read_u64("N", Some("twelve".to_string()), 9) {
        Err(ConfigError::InvalidNumber(name, text)) => {
            assert_eq!(name, "N");
            assert_eq!(text, "twelve");
        }
        other => panic!("unexpected {other:?}"),
    }
}

#[test]
fn applies_defaults() {
    let s = Settings::from_values(env()).unwrap();
    assert_eq!(s.bind_addr, "0.0.0.0:8080");
    assert_eq!(s.auth_token, "SECRET-REDACTED");
    assert_eq!(s.adguard_base_url, "http://adguardhome:3000");
    assert_eq!(s.adguard_username, None);
    assert_eq!(s.adguard_password, None);
    assert_eq!(s.allowed_ttl_secs, 3600);
    assert_eq!(s.blocked_ttl_secs, 86_400);
    assert_eq!(bind_addr_text(Some("127.0.0.1:9".to_string())), "127.0.0.1:9");
}

#[test]
fn takes_configured_values() {
    let mut e = env();
    e.bind_addr = Some("127.0.0.1:8081".to_string());
    e.adguard_base_url = Some("http://10.0.0.2:3000/".to_string());
    e.adguard_username = Some("admin".to_string());
    e.adguard_password = Some(String::new());
    e.allowed_ttl_secs = Some("60".to_string());
    e.blocked_ttl_secs = Some("+120".to_string());
    let s = Settings::from_values(e).unwrap();
    assert_eq!(s.bind_addr, "127.0.0.1:8081");
    assert_eq!(s.adguard_base_url, "http://10.0.0.2:3000/");
    assert_eq!(s.adguard_username.as_deref(), Some("admin"));
    assert_eq!(s.adguard_password, None);
    assert_eq!(s.allowed_ttl_secs, 60);
    assert_eq!(s.blocked_ttl_secs, 120);
}

#[test]
fn requires_the_auth_token() {
    let mut e = env();
    e.auth_token = None;
    e.allowed_ttl_secs = Some("x".to_string());
    assert!(matches!(Settings::from_values(e), Err(ConfigError::MissingVar("RELAY_AUTH_TOKEN"))));
}

#[test]
fn reports_the_first_bad_number() {
    let mut e = env();
    e.allowed_ttl_secs = Some("-1".to_string());
    e.blocked_ttl_secs = Some("y".to_string());
    match Settings::from_values(e) {
        Err(ConfigError::InvalidNumber(name, text)) => {
            assert_eq!(name, "RELAY_ALLOWED_TTL_SECS");
            assert_eq!(text, "-1");
        }
        _ => panic!("expected an invalid number"),
    }
    let mut e = env();
    e.blocked_ttl_secs = Some("y".to_string());
    match Settings::from_values(e) {
        Err(ConfigError::InvalidNumber(name, text)) => {
            assert_eq!(name, "RELAY_BLOCKED_TTL_SECS");
            assert_eq!(text, "y");
        }
        _ => panic!("expected an invalid number"),
    }
}
