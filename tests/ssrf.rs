use fluxfeed::ssrf::{
    check_resolved_addresses, check_url_target, is_private_ipv4, is_private_ipv6, prepare_url_check,
    IpAddress, SsrfError, UrlTarget,
};

#[test]
fn test_private_ipv4_loopback() {
    assert!(is_private_ipv4(&[127, 0, 0, 1]));
    assert!(is_private_ipv4(&[127, 255, 255, 255]));
}

#[test]
fn test_private_ipv4_10_network() {
    assert!(is_private_ipv4(&[10, 0, 0, 1]));
    assert!(is_private_ipv4(&[10, 255, 255, 255]));
}

#[test]
fn test_private_ipv4_172_network() {
    assert!(is_private_ipv4(&[172, 16, 0, 1]));
    assert!(is_private_ipv4(&[172, 31, 255, 255]));
    assert!(!is_private_ipv4(&[172, 15, 0, 1]));
    assert!(!is_private_ipv4(&[172, 32, 0, 1]));
}

#[test]
fn test_private_ipv4_192_168_network() {
    assert!(is_private_ipv4(&[192, 168, 0, 1]));
    assert!(is_private_ipv4(&[192, 168, 255, 255]));
}

#[test]
fn test_private_ipv4_link_local() {
    assert!(is_private_ipv4(&[169, 254, 169, 254]));
    assert!(is_private_ipv4(&[169, 254, 0, 1]));
}

#[test]
fn test_public_ipv4() {
    assert!(!is_private_ipv4(&[8, 8, 8, 8]));
    assert!(!is_private_ipv4(&[1, 1, 1, 1]));
    assert!(!is_private_ipv4(&[104, 16, 0, 1]));
}

#[test]
fn test_private_ipv6_loopback() {
    assert!(is_private_ipv6(&[0, 0, 0, 0, 0, 0, 0, 1]));
}

#[test]
fn test_private_ipv6_link_local() {
    assert!(is_private_ipv6(&[0xfe80, 0, 0, 0, 0, 0, 0, 1]));
}

#[test]
fn test_private_ipv6_unique_local() {
    assert!(is_private_ipv6(&[0xfc00, 0, 0, 0, 0, 0, 0, 1]));
    assert!(is_private_ipv6(&[0xfd00, 0, 0, 0, 0, 0, 0, 1]));
}

#[test]
fn documentation_and_current_network_ranges() {
    assert!(is_private_ipv4(&[0, 1, 2, 3]));
    assert!(is_private_ipv4(&[192, 0, 2, 5]));
    assert!(is_private_ipv4(&[198, 51, 100, 5]));
    assert!(is_private_ipv4(&[203, 0, 113, 5]));
    assert!(!is_private_ipv4(&[192, 0, 3, 5]));
}

#[test]
fn ipv6_unspecified_and_mapped() {
    assert!(is_private_ipv6(&[0, 0, 0, 0, 0, 0, 0, 0]));
    // ::ffff:10.0.0.5 and ::ffff:8.8.8.8
    assert!(is_private_ipv6(&[0, 0, 0, 0, 0, 0xffff, 0x0a00, 0x0005]));
    assert!(!is_private_ipv6(&[0, 0, 0, 0, 0, 0xffff, 0x0808, 0x0808]));
    assert!(!is_private_ipv6(&[0x2001, 0x4860, 0, 0, 0, 0, 0, 0x8888]));
}

#[test]
fn validate_rejects_internal_and_accepts_public() {
    for addr in [
        IpAddress::V4([127, 0, 0, 1]),
        IpAddress::V4([10, 0, 0, 5]),
        IpAddress::V4([169, 254, 169, 254]),
        IpAddress::V6([0, 0, 0, 0, 0, 0, 0, 1]),
        IpAddress::V6([0xfc00, 0, 0, 0, 0, 0, 0, 1]),
    ] {
        assert_eq!(check_resolved_addresses(&vec![addr]), Err(SsrfError::PrivateIpAddress));
    }
    assert_eq!(check_resolved_addresses(&vec![IpAddress::V4([8, 8, 8, 8])]), Ok(()));
}

#[test]
fn any_private_address_rejects() {
    let addrs = vec![IpAddress::V4([8, 8, 8, 8]), IpAddress::V4([192, 168, 1, 1])];
    assert_eq!(check_resolved_addresses(&addrs), Err(SsrfError::PrivateIpAddress));
    assert_eq!(
        check_resolved_addresses(&vec![]),
        Err(SsrfError::DnsResolutionFailed("No addresses resolved".to_string()))
    );
}

#[test]
fn url_target_checks() {
    let t = UrlTarget { scheme: "ftp".to_string(), host: Some("x.org".to_string()), port: None };
    assert_eq!(check_url_target(&t), Err(SsrfError::InvalidScheme("ftp".to_string())));
    let t = UrlTarget { scheme: "https".to_string(), host: None, port: Some(443) };
    assert_eq!(check_url_target(&t), Err(SsrfError::InvalidUrl("No host in URL".to_string())));
    let t = UrlTarget { scheme: "http".to_string(), host: Some("x.org".to_string()), port: None };
    assert_eq!(check_url_target(&t), Ok(("x.org".to_string(), 80)));
}

#[test]
fn prepare_parses_with_url_crate() {
    assert_eq!(prepare_url_check("https://example.com/feed"), Ok(("example.com".to_string(), 443)));
    assert_eq!(prepare_url_check("http://example.com:8080/"), Ok(("example.com".to_string(), 8080)));
    assert_eq!(prepare_url_check("file:///etc/passwd"), Err(SsrfError::InvalidScheme("file".to_string())));
    assert!(matches!(prepare_url_check("not-a-url"), Err(SsrfError::InvalidUrl(_))));
}
