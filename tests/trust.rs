use game_directory::{
    extract_real_ip, first_forwarded_entry, format_address_for_challenge, render_ipv4,
    ChallengeTarget, ForwardingHeaders, IpClass, RequestError,
};

const PEER: u32 = 0x6815_0001; // 104.21.0.1
const CLIENT: u32 = 0xCB00_7109; // 203.0.113.9

fn no_headers() -> ForwardingHeaders {
    ForwardingHeaders { forwarded_for: None, cf_connecting_ip: None, real_ip: None }
}

#[test]
fn dotted_decimal_rendering() {
    assert_eq!(render_ipv4(CLIENT), "203.0.113.9");
    assert_eq!(render_ipv4(0), "0.0.0.0");
    assert_eq!(render_ipv4(u32::MAX), "255.255.255.255");
    assert_eq!(render_ipv4(0x0A00_0A64), "10.0.10.100");
}

#[test]
fn missing_peer() {
    let r = extract_real_ip(None, true, &no_headers());
    assert!(matches!(r, Err(RequestError::MissingPeerIP)));
}

#[test]
fn ipv6_peer_refused() {
    let r = extract_real_ip(Some(IpClass::V6), true, &no_headers());
    assert!(matches!(r, Err(RequestError::IPv6NotSupported)));
}

#[test]
fn untrusted_peer_refused() {
    let mut h = no_headers();
    h.forwarded_for = Some(IpClass::V4(CLIENT));
    let r = extract_real_ip(Some(IpClass::V4(0x0102_0304)), false, &h);
    match r {
        Err(e) => {
            assert_eq!(e.message(), "Request from non-Cloudflare IP: 1.2.3.4");
            assert_eq!(e.status_code(), 403);
        }
        Ok(_) => panic!("untrusted peer accepted"),
    }
}

#[test]
fn forwarded_for_comes_first() {
    let h = ForwardingHeaders {
        forwarded_for: Some(IpClass::V4(CLIENT)),
        cf_connecting_ip: Some(IpClass::V4(1)),
        real_ip: Some(IpClass::V4(2)),
    };
    assert!(matches!(extract_real_ip(Some(IpClass::V4(PEER)), true, &h), Ok(CLIENT)));
    let h = ForwardingHeaders { forwarded_for: Some(IpClass::V6), ..h };
    assert!(matches!(extract_real_ip(Some(IpClass::V4(PEER)), true, &h), Err(RequestError::IPv6NotSupported)));
}

#[test]
fn real_ip_overrides_connecting_ip() {
    let h = ForwardingHeaders {
        forwarded_for: None,
        cf_connecting_ip: Some(IpClass::V4(1)),
        real_ip: Some(IpClass::V4(CLIENT)),
    };
    assert!(matches!(extract_real_ip(Some(IpClass::V4(PEER)), true, &h), Ok(CLIENT)));
    let h = ForwardingHeaders { real_ip: Some(IpClass::V6), ..h };
    assert!(matches!(extract_real_ip(Some(IpClass::V4(PEER)), true, &h), Ok(1)));
    let h = ForwardingHeaders { cf_connecting_ip: Some(IpClass::V6), real_ip: None, ..h };
    assert!(matches!(extract_real_ip(Some(IpClass::V4(PEER)), true, &h), Err(RequestError::IPv6NotSupported)));
}

#[test]
fn real_ip_alone_is_ignored() {
    let h = ForwardingHeaders { forwarded_for: None, cf_connecting_ip: None, real_ip: Some(IpClass::V4(CLIENT)) };
    let r = extract_real_ip(Some(IpClass::V4(PEER)), true, &h);
    assert!(matches!(r, Err(RequestError::MissingCFHeader)));
}

#[test]
fn request_error_texts() {
    assert_eq!(RequestError::MissingCFHeader.message(), "Missing CF-Connecting-IP header");
    assert_eq!(RequestError::RateLimitExceeded.message(), "Rate limit exceeded");
    assert_eq!(RequestError::RateLimitExceeded.status_code(), 429);
    assert_eq!(RequestError::IPv6NotSupported.status_code(), 400);
    assert_eq!(RequestError::MissingPeerIP.message(), "Failed to extract client IP");
}

#[test]
fn first_forwarded_entry_splits_at_comma() {
    assert_eq!(first_forwarded_entry("203.0.113.9, 10.0.0.1"), "203.0.113.9");
    assert_eq!(first_forwarded_entry("203.0.113.9"), "203.0.113.9");
    assert_eq!(first_forwarded_entry(",x"), "");
    assert_eq!(first_forwarded_entry(""), "");
}

#[test]
fn challenge_address() {
    assert_eq!(format_address_for_challenge(IpClass::V4(CLIENT), 27015), Ok(ChallengeTarget { ip: CLIENT, port: 27015 }));
    assert_eq!(
        format_address_for_challenge(IpClass::V4(CLIENT), 70000),
        Err("Invalid socket address: invalid socket address syntax".to_string())
    );
    assert_eq!(format_address_for_challenge(IpClass::V6, 27015), Err("IPv6 addresses are not supported".to_string()));
}
