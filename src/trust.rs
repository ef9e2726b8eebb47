use vstd::prelude::*;
use vstd::string::*;

use crate::text::{ipv4_text, render_ipv4};

verus! {

/// An address read from the connection or from a header.
#[derive(Debug, Clone, Copy, PartialEq, Eq, Structural)]
pub enum IpClass {
    /// An IPv4 address; the first octet is the most significant byte.
    V4(u32),
    /// An IPv6 address, which this service does not support.
    V6,
}

/// The forwarding headers of a request. Each holds the address that its value
/// (for `X-Forwarded-For`, the first entry of its list) reads as, or `None`
/// when the header is absent or does not read as an address.
#[derive(Debug, Clone, Copy)]
pub struct ForwardingHeaders {
    pub forwarded_for: Option<IpClass>,
    pub cf_connecting_ip: Option<IpClass>,
    pub real_ip: Option<IpClass>,
}

/// Why a request was turned away before it reached the registry.
#[derive(Debug, Clone)]
pub enum RequestError {
    MissingPeerIP,
    NonCloudflareIP(String),
    MissingCFHeader,
    InvalidCFHeader,
    InvalidIPFormat,
    RateLimitExceeded,
    IPv6NotSupported,
}

/// The address that the forwarding headers give, if one does: the first entry
/// of `X-Forwarded-For`; else `CF-Connecting-IP`, overridden by an IPv4
/// `X-Real-IP`. `None` when no header gives one.
pub open spec fn forwarded_address(h: ForwardingHeaders) -> Option<IpClass> {
    match h.forwarded_for {
        Some(a) => Some(a),
        None => match h.cf_connecting_ip {
            Some(cf) => match h.real_ip {
                Some(IpClass::V4(x)) => Some(IpClass::V4(x)),
                _ => Some(cf),
            },
            None => None,
        },
    }
}

/// `r` is how a request is resolved from its peer address, the trust
/// predicate's answer on that peer, and its forwarding headers.
pub open spec fn resolves_to(
    r: Result<u32, RequestError>,
    peer: Option<IpClass>,
    peer_trusted: bool,
    h: ForwardingHeaders,
) -> bool {
    match peer {
        None => r matches Err(RequestError::MissingPeerIP),
        Some(IpClass::V6) => r matches Err(RequestError::IPv6NotSupported),
        Some(IpClass::V4(p)) => if !peer_trusted {
            match r {
                Err(RequestError::NonCloudflareIP(t)) => t@ == ipv4_text(p),
                _ => false,
            }
        } else {
            match forwarded_address(h) {
                Some(IpClass::V4(x)) => r == Ok::<u32, RequestError>(x),
                Some(IpClass::V6) => r matches Err(RequestError::IPv6NotSupported),
                None => r matches Err(RequestError::MissingCFHeader),
            }
        },
    }
}

/// Resolves the real client address of a request. The connection's peer must
/// be an IPv4 address that the trust predicate accepts; the client address is
/// then taken from the forwarding headers. An IPv6 address is refused
/// wherever it is met.
pub fn extract_real_ip(peer: Option<IpClass>, peer_trusted: bool, headers: &ForwardingHeaders) -> (r:
    Result<u32, RequestError>)
    ensures
        resolves_to(r, peer, peer_trusted, *headers),
{
    let p = match peer {
        None => return Err(RequestError::MissingPeerIP),
        Some(IpClass::V6) => return Err(RequestError::IPv6NotSupported),
        Some(IpClass::V4(p)) => p,
    };
    if !peer_trusted {
        return Err(RequestError::NonCloudflareIP(render_ipv4(p)));
    }
    if let Some(a) = headers.forwarded_for {
        return match a {
            IpClass::V4(x) => Ok(x),
            IpClass::V6 => Err(RequestError::IPv6NotSupported),
        };
    }
    if let Some(cf) = headers.cf_connecting_ip {
        if let Some(IpClass::V4(x)) = headers.real_ip {
            return Ok(x);
        }
        return match cf {
            IpClass::V4(x) => Ok(x),
            IpClass::V6 => Err(RequestError::IPv6NotSupported),
        };
    }
    Err(RequestError::MissingCFHeader)
}

/// The part of a comma-separated list before its first comma.
pub open spec fn first_entry(s: Seq<char>) -> Seq<char> {
    if exists|i: int| 0 <= i < s.len() && s[i] == ',' {
        let i = choose|i: int|
            0 <= i < s.len() && s[i] == ',' && forall|j: int| 0 <= j < i ==> s[j] != ',';
        s.subrange(0, i)
    } else {
        s
    }
}

/// The first entry of an `X-Forwarded-For` list: the text before the first
/// comma, or the whole text if it has none.
pub fn first_forwarded_entry(list: &str) -> (r: String)
    ensures
        r@ == first_entry(list@),
{
    let n = list.unicode_len();
    let mut i: usize = 0;
    while i < n
        invariant
            n == list@.len(),
            i <= n,
            forall|j: int| 0 <= j < i ==> list@[j] != ',',
        decreases n - i,
    {
        if list.get_char(i) == ',' {
            let r = String::from_str(list.substring_char(0, i));
            proof {
                let k = choose|k: int|
                    0 <= k < list@.len() && list@[k] == ',' && forall|j: int|
                        0 <= j < k ==> list@[j] != ',';
                assert(list@[i as int] == ',');
                if k < i {
                    assert(list@[k] != ',');
                }
                if k > i {
                    assert(list@[i as int] != ',');
                }
            }
            return r;
        }
        i += 1;
    }
    String::from_str(list)
}

/// Where a liveness challenge is sent.
#[derive(Debug, Clone, Copy, PartialEq, Eq, Structural)]
pub struct ChallengeTarget {
    pub ip: u32,
    pub port: u16,
}

/// Forms the address that a challenge is sent to. Only an IPv4 address and a
/// port in `0..=65535` form one.
pub fn format_address_for_challenge(ip: IpClass, port: i32) -> (r: Result<ChallengeTarget, String>)
    ensures
        match ip {
            IpClass::V4(a) => if 0 <= port <= 65535 {
                r == Ok::<ChallengeTarget, String>(ChallengeTarget { ip: a, port: port as u16 })
            } else {
                match r {
                    Err(e) => e@ == "Invalid socket address: invalid socket address syntax"@,
                    Ok(_) => false,
                }
            },
            IpClass::V6 => match r {
                Err(e) => e@ == "IPv6 addresses are not supported"@,
                Ok(_) => false,
            },
        },
{
    match ip {
        IpClass::V4(a) => if 0 <= port && port <= 65535 {
            Ok(ChallengeTarget { ip: a, port: port as u16 })
        } else {
            Err(String::from_str("Invalid socket address: invalid socket address syntax"))
        },
        IpClass::V6 => Err(String::from_str("IPv6 addresses are not supported")),
    }
}

/// The HTTP status of a rejection.
pub open spec fn status_of(e: RequestError) -> u16 {
    match e {
        RequestError::NonCloudflareIP(_) => 403,
        RequestError::RateLimitExceeded => 429,
        _ => 400,
    }
}

impl RequestError {
    /// The HTTP status of this rejection: 403 for an untrusted peer, 429 when
    /// rate limited, 400 otherwise.
    pub fn status_code(&self) -> (r: u16)
        ensures
            r == status_of(*self),
    {
        match self {
            RequestError::NonCloudflareIP(_) => 403,
            RequestError::RateLimitExceeded => 429,
            _ => 400,
        }
    }

    /// The human-readable reason of this rejection.
    pub fn message(&self) -> (r: String)
        ensures
            match *self {
                RequestError::MissingPeerIP => r@ == "Failed to extract client IP"@,
                RequestError::NonCloudflareIP(ip) => r@ == "Request from non-Cloudflare IP: "@ + ip@,
                RequestError::MissingCFHeader => r@ == "Missing CF-Connecting-IP header"@,
                RequestError::InvalidCFHeader => r@ == "Invalid CF-Connecting-IP header"@,
                RequestError::InvalidIPFormat => r@ == "Invalid CF-Connecting-IP format"@,
                RequestError::RateLimitExceeded => r@ == "Rate limit exceeded"@,
                RequestError::IPv6NotSupported => r@ == "IPv6 addresses are not supported"@,
            },
    {
        match self {
            RequestError::MissingPeerIP => String::from_str("Failed to extract client IP"),
            RequestError::NonCloudflareIP(ip) => {
                let mut s = String::from_str("Request from non-Cloudflare IP: ");
                s.append(ip.as_str());
                s
            },
            RequestError::MissingCFHeader => String::from_str("Missing CF-Connecting-IP header"),
            RequestError::InvalidCFHeader => String::from_str("Invalid CF-Connecting-IP header"),
            RequestError::InvalidIPFormat => String::from_str("Invalid CF-Connecting-IP format"),
            RequestError::RateLimitExceeded => String::from_str("Rate limit exceeded"),
            RequestError::IPv6NotSupported => String::from_str("IPv6 addresses are not supported"),
        }
    }
}

} // verus!
