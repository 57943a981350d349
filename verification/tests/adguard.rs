use rule_relay::adguard::{check_host_status, AdguardClient, AdguardError};

#[test]
fn builds_the_check_host_request() {
    let client = AdguardClient::new("http://adguardhome:3000//".to_string(), None, None).unwrap();
    let req = client.check_host_request("example.com");
    assert_eq!(req.url, "http://adguardhome:3000/control/filtering/check_host");
    assert_eq!(req.name, "example.com");
    assert!(req.basic_auth.is_none());
}

#[test]
fn sends_credentials_only_when_both_are_set() {
    let both = AdguardClient::new(
        "http://h".to_string(),
        Some("admin".to_string()),
        Some("pw".to_string()),
    )
    .unwrap();
    assert_eq!(
        both.check_host_request("a.b").basic_auth,
        Some(("admin".to_string(), "pw".to_string()))
    );
    let user_only =
        AdguardClient::new("http://h".to_string(), Some("admin".to_string()), None).unwrap();
    assert!(user_only.check_host_request("a.b").basic_auth.is_none());
    let pass_only =
        AdguardClient::new("http://h".to_string(), None, Some("pw".to_string())).unwrap();
    assert!(pass_only.check_host_request("a.b").basic_auth.is_none());
}

#[test]
fn accepts_only_status_200() {
    assert!(check_host_status(200).is_ok());
    assert!(matches!(check_host_status(500), Err(AdguardError::UnexpectedStatus { status: 500 })));
    assert!(matches!(check_host_status(401), Err(AdguardError::UnexpectedStatus { status: 401 })));
    assert!(matches!(check_host_status(204), Err(AdguardError::UnexpectedStatus { status: 204 })));
}

#[test]
fn builds_a_ready_to_send_request() {
    let client = AdguardClient::new(
        "http://adguardhome:3000/".to_string(),
        Some("admin".to_string()),
        Some("pw".to_string()),
    )
    .unwrap();
    let request = client.check_host_builder("ads.example").into_builder().build().unwrap();
    assert_eq!(request.method().as_str(), "GET");
    assert_eq!(
        request.url().as_str(),
        "http://adguardhome:3000/control/filtering/check_host?name=ads.example"
    );
    assert_eq!(request.headers()["authorization"], "Basic YWRtaW46cHc=");

    let anonymous = AdguardClient::new("http://h".to_string(), None, None).unwrap();
    let request = anonymous.check_host_builder("a b").into_builder().build().unwrap();
    assert_eq!(request.url().as_str(), "http://h/control/filtering/check_host?name=a+b");
    assert!(request.headers().get("authorization").is_none());
}
