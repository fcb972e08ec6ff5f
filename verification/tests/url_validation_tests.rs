use que_engine::net::IpAddress;
use que_engine::url_validation::{resolution_target, validate_and_fetch_remote_asset,
    validate_external_http_url};
use que_engine::EngineError;

fn config_message(r: Result<(), EngineError>) -> String {
    match r {
        Err(EngineError::Config(m)) => m,
        other => panic!("expected a configuration error, got {:?}", other),
    }
}

#[test]
fn rejects_other_schemes() {
    assert_eq!(config_message(validate_external_http_url("ftp://x", false, &vec![])), "unsupported URL scheme");
    assert_eq!(config_message(validate_external_http_url("ftp://x", true, &vec![])), "unsupported URL scheme");
    assert_eq!(
        config_message(validate_external_http_url("file:///etc/passwd", true, &vec![])),
        "unsupported URL scheme"
    );
}

#[test]
fn rejects_malformed_urls() {
    assert_eq!(config_message(validate_external_http_url("not a url", false, &vec![])), "invalid URL");
    assert_eq!(config_message(validate_external_http_url("", true, &vec![])), "invalid URL");
    assert_eq!(config_message(validate_external_http_url("https://", false, &vec![])), "invalid URL");
}

#[test]
fn rejects_http_without_the_allow_flag() {
    assert_eq!(
        config_message(validate_external_http_url("http://127.0.0.1/", false, &vec![])),
        "HTTP URLs are not allowed"
    );
    assert_eq!(
        config_message(validate_external_http_url("http://10.0.0.5:9999", false, &vec![])),
        "HTTP URLs are not allowed"
    );
    assert_eq!(
        config_message(validate_external_http_url("http://example.com/", false, &vec![])),
        "HTTP URLs are not allowed"
    );
}

#[test]
fn allowed_http_still_needs_the_capability() {
    match validate_external_http_url("http://example.com/", true, &vec![]) {
        Err(EngineError::Feature(name)) => assert_eq!(name, "http_urls"),
        other => panic!("expected a feature error, got {:?}", other),
    }
    match validate_external_http_url("http://10.0.0.5:9999", true, &vec![]) {
        Err(EngineError::Feature(name)) => assert_eq!(name, "http_urls"),
        other => panic!("expected a feature error, got {:?}", other),
    }
}

#[test]
fn rejects_literal_addresses_in_blocked_ranges() {
    let blocked = "URL host is not allowed (private/link-local/loopback)";
    for url in [
        "https://169.254.169.254/",
        "https://127.0.0.1/",
        "https://10.0.0.5:9999",
        "https://172.16.0.1/",
        "https://172.31.255.255/",
        "https://192.168.1.1/",
        "https://255.255.255.255/",
        "https://192.0.2.7/",
        "https://198.51.100.7/",
        "https://203.0.113.7/",
        "https://0.0.0.0/",
        "https://224.0.0.1/",
        "https://239.1.2.3/",
        "https://[::1]/",
        "https://[::]/",
        "https://[fc00::1]/",
        "https://[fd12:3456::1]/",
        "https://[fe80::1]/",
        "https://[ff02::1]/",
    ] {
        assert_eq!(config_message(validate_external_http_url(url, false, &vec![])), blocked, "{}", url);
    }
}

#[test]
fn accepts_public_literal_addresses() {
    for url in [
        "https://8.8.8.8/",
        "https://172.15.0.1/",
        "https://172.32.0.1/",
        "https://192.167.1.1/",
        "https://169.253.1.1/",
        "https://[2001:db8::1]/",
        "https://[fe00::1]/",
        "https://[fec0::1]/",
    ] {
        assert!(validate_external_http_url(url, false, &vec![]).is_ok(), "{}", url);
    }
}

#[test]
fn accepts_https_domain() {
    assert!(validate_external_http_url("https://example.com/ts", false, &vec![]).is_ok());
    let public = vec![IpAddress::V4([93, 184, 216, 34]), IpAddress::V6([0x2606, 0x2800, 0x220, 1, 0x248, 0x1893, 0x25c8, 0x1946])];
    assert!(validate_external_http_url("https://example.com/ts", false, &public).is_ok());
    assert!(validate_external_http_url("HTTPS://Example.COM/ts", false, &public).is_ok());
}

#[test]
fn rejects_domain_that_resolves_to_a_blocked_address() {
    let message = "URL resolves to a disallowed private/loopback address";
    let internal = vec![IpAddress::V4([93, 184, 216, 34]), IpAddress::V4([10, 0, 0, 5])];
    assert_eq!(config_message(validate_external_http_url("https://example.com/ts", false, &internal)), message);
    let loopback6 = vec![IpAddress::V6([0, 0, 0, 0, 0, 0, 0, 1])];
    assert_eq!(config_message(validate_external_http_url("https://example.com/ts", false, &loopback6)), message);
    let multicast = vec![IpAddress::V4([8, 8, 8, 8]), IpAddress::V4([1, 1, 1, 1]), IpAddress::V4([224, 0, 0, 251])];
    assert_eq!(config_message(validate_external_http_url("https://example.com/ts", false, &multicast)), message);
    let metadata = vec![IpAddress::V4([169, 254, 169, 254])];
    assert_eq!(config_message(validate_external_http_url("https://rebind.example/", false, &metadata)), message);
}

#[test]
fn scheme_is_judged_before_resolved_addresses() {
    let internal = vec![IpAddress::V4([127, 0, 0, 1])];
    assert_eq!(config_message(validate_external_http_url("ftp://x", false, &internal)), "unsupported URL scheme");
    assert_eq!(
        config_message(validate_external_http_url("http://example.com", false, &internal)),
        "HTTP URLs are not allowed"
    );
}

#[test]
fn resolution_target_is_host_and_default_port() {
    assert_eq!(resolution_target("https://example.com/ts", false), Some(("example.com".to_string(), 443)));
    assert_eq!(resolution_target("https://example.com:8443/ts", false), Some(("example.com".to_string(), 443)));
    assert_eq!(resolution_target("https://8.8.8.8/", false), Some(("8.8.8.8".to_string(), 443)));
    assert_eq!(resolution_target("https://[2001:db8::1]/", false), Some(("[2001:db8::1]".to_string(), 443)));
    assert_eq!(resolution_target("http://example.com/", false), None);
    assert_eq!(resolution_target("http://example.com/", true), None);
    assert_eq!(resolution_target("ftp://x", false), None);
    assert_eq!(resolution_target("https://127.0.0.1/", false), None);
    assert_eq!(resolution_target("nonsense", false), None);
}

#[test]
fn remote_fetch_always_declines() {
    match validate_and_fetch_remote_asset("https://example.com/a.jpg", false, None, &vec![]) {
        Err(EngineError::Config(m)) => assert_eq!(
            m,
            "Remote asset fetching not yet implemented - use AssetRef::Path after secure fetching"
        ),
        other => panic!("expected a configuration error, got {:?}", other.map(|_| ())),
    }
    match validate_and_fetch_remote_asset("ftp://example.com/a.jpg", false, Some(10), &vec![]) {
        Err(EngineError::Config(m)) => assert_eq!(m, "unsupported URL scheme"),
        other => panic!("expected a configuration error, got {:?}", other.map(|_| ())),
    }
}

#[test]
fn blocked_ranges_have_exact_edges() {
    assert!(IpAddress::V4([10, 255, 255, 255]).is_blocked());
    assert!(!IpAddress::V4([11, 0, 0, 0]).is_blocked());
    assert!(!IpAddress::V4([9, 255, 255, 255]).is_blocked());
    assert!(IpAddress::V4([172, 16, 0, 0]).is_blocked());
    assert!(!IpAddress::V4([172, 15, 255, 255]).is_blocked());
    assert!(IpAddress::V4([172, 31, 255, 255]).is_blocked());
    assert!(!IpAddress::V4([172, 32, 0, 0]).is_blocked());
    assert!(!IpAddress::V4([255, 255, 255, 254]).is_blocked());
    assert!(!IpAddress::V4([0, 0, 0, 1]).is_blocked());
    assert!(!IpAddress::V4([192, 0, 3, 1]).is_blocked());
    assert!(IpAddress::V4([224, 0, 0, 1]).is_blocked());
    assert!(IpAddress::V4([239, 255, 255, 255]).is_blocked());
    assert!(!IpAddress::V4([223, 255, 255, 255]).is_blocked());
    assert!(!IpAddress::V4([240, 0, 0, 1]).is_blocked());
    assert!(IpAddress::V6([0xfdff, 0, 0, 0, 0, 0, 0, 1]).is_blocked());
    assert!(!IpAddress::V6([0xfbff, 0, 0, 0, 0, 0, 0, 1]).is_blocked());
    assert!(!IpAddress::V6([0xfe00, 0, 0, 0, 0, 0, 0, 1]).is_blocked());
    assert!(IpAddress::V6([0xfebf, 0xffff, 0, 0, 0, 0, 0, 1]).is_blocked());
    assert!(!IpAddress::V6([0xfec0, 0, 0, 0, 0, 0, 0, 1]).is_blocked());
    assert!(IpAddress::V6([0xff00, 0, 0, 0, 0, 0, 0, 0]).is_blocked());
    assert!(!IpAddress::V6([0, 0, 0, 0, 0, 0, 0, 2]).is_blocked());
    assert!(!IpAddress::V6([0, 0, 0, 0, 0, 0xffff, 0x7f00, 1]).is_blocked());
}
