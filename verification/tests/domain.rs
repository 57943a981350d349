use rule_relay::domain::{
    domain_from_host, normalize_domain, prepare_host_input, DomainError, ParsedHost,
};

#[test]
fn normalizes_hostname() {
    assert_eq!(normalize_domain("WWW.Example.COM.").unwrap(), "www.example.com");
}

#[test]
fn rejects_url() {
    assert!(normalize_domain("https://example.com").is_err());
}

#[test]
fn rejects_ip_literal() {
    assert!(normalize_domain("1.1.1.1").is_err());
}

#[test]
fn trims_surrounding_white_space_and_dots() {
    assert_eq!(normalize_domain("  \tExample.Org...\n").unwrap(), "example.org");
    assert_eq!(normalize_domain("\u{3000}sub.example.net\u{a0}").unwrap(), "sub.example.net");
}

#[test]
fn rejects_empty_input() {
    assert_eq!(normalize_domain("").unwrap_err(), DomainError::Empty);
    assert_eq!(normalize_domain("   ").unwrap_err(), DomainError::Empty);
    assert_eq!(normalize_domain("...").unwrap_err(), DomainError::Empty);
}

#[test]
fn rejects_inner_white_space() {
    assert_eq!(normalize_domain("exa mple.com").unwrap_err(), DomainError::ContainsWhitespace);
    assert_eq!(
        normalize_domain("exa\u{2003}mple.com").unwrap_err(),
        DomainError::ContainsWhitespace
    );
}

#[test]
fn rejects_paths_queries_and_fragments() {
    assert_eq!(normalize_domain("https://example.com").unwrap_err(), DomainError::ExpectedHostname);
    assert_eq!(normalize_domain("example.com/ads").unwrap_err(), DomainError::ExpectedHostname);
    assert_eq!(normalize_domain("example.com?x=1").unwrap_err(), DomainError::ExpectedHostname);
    assert_eq!(normalize_domain("example.com#top").unwrap_err(), DomainError::ExpectedHostname);
}

#[test]
fn rejects_address_literals() {
    assert_eq!(normalize_domain("1.1.1.1").unwrap_err(), DomainError::IpAddressNotAllowed);
    assert_eq!(normalize_domain("[::1]").unwrap_err(), DomainError::IpAddressNotAllowed);
    assert_eq!(normalize_domain("0x7f.1").unwrap_err(), DomainError::IpAddressNotAllowed);
}

#[test]
fn rejects_invalid_host_characters() {
    assert_eq!(normalize_domain("bad<host>.com").unwrap_err(), DomainError::InvalidHostname);
    assert_eq!(normalize_domain("user@example.com").unwrap_err(), DomainError::InvalidHostname);
}

#[test]
fn prepares_input_before_host_parsing() {
    assert_eq!(prepare_host_input(" WWW.Example.COM. ").unwrap(), "www.example.com");
    assert_eq!(prepare_host_input("ÄB.de").unwrap(), "Äb.de");
    assert_eq!(prepare_host_input("a/b").unwrap_err(), DomainError::ExpectedHostname);
}

#[test]
fn only_domains_are_accepted_after_parsing() {
    assert_eq!(domain_from_host(ParsedHost::Domain("example.com".to_string())).unwrap(), "example.com");
    assert_eq!(domain_from_host(ParsedHost::Ipv4).unwrap_err(), DomainError::IpAddressNotAllowed);
    assert_eq!(domain_from_host(ParsedHost::Ipv6).unwrap_err(), DomainError::IpAddressNotAllowed);
    assert_eq!(domain_from_host(ParsedHost::Invalid).unwrap_err(), DomainError::InvalidHostname);
}

#[test]
fn error_messages_match_the_api() {
    assert_eq!(DomainError::Empty.message(), "domain is required");
    assert_eq!(DomainError::ContainsWhitespace.message(), "domain must not contain whitespace");
    assert_eq!(
        DomainError::ExpectedHostname.message(),
        "domain must be a hostname without scheme or path"
    );
    assert_eq!(DomainError::InvalidHostname.message(), "invalid hostname");
    assert_eq!(DomainError::IpAddressNotAllowed.message(), "ip literals are not supported");
}

#[test]
fn international_names_become_punycode() {
    assert_eq!(normalize_domain("Bücher.example").unwrap(), "xn--bcher-kva.example");
}

#[test]
fn normalized_names_are_lower_case_visible_ascii() {
    for raw in ["Bücher.EXAMPLE", " WWW.Example.COM. ", "ÄÖÜ.de", "xn--bcher-kva.example"] {
        let d = normalize_domain(raw).unwrap();
        assert!(!d.is_empty());
        assert!(d.chars().all(|c| c.is_ascii_graphic() && !c.is_ascii_uppercase()), "{d}");
        assert_eq!(normalize_domain(&d).unwrap(), d);
    }
}
