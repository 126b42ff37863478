//! Refuses feed URLs that lead into private or internal networks.
use vstd::prelude::*;
use crate::entry::view_opt;
use crate::text::str_eq;

verus! {

/// Why a URL was refused.
#[derive(Clone, Debug, PartialEq, Eq)]
pub enum SsrfError {
    InvalidUrl(String),
    PrivateIpAddress,
    DnsResolutionFailed(String),
    InvalidScheme(String),
}

/// An address that a host name resolved to: four octets or eight 16-bit segments.
#[derive(Clone, Copy, Debug, PartialEq, Eq)]
pub enum IpAddress {
    V4([u8; 4]),
    V6([u16; 8]),
}

/// The parts of a parsed URL that the check reads.
#[derive(Clone, Debug)]
pub struct UrlTarget {
    pub scheme: String,
    pub host: Option<String>,
    pub port: Option<u16>,
}

/// Loopback, RFC 1918, link-local, "this network" and documentation ranges.
pub open spec fn ipv4_blocked(o: Seq<u8>) -> bool {
    ||| o[0] == 127
    ||| o[0] == 10
    ||| (o[0] == 172 && 16 <= o[1] <= 31)
    ||| (o[0] == 192 && o[1] == 168)
    ||| (o[0] == 169 && o[1] == 254)
    ||| o[0] == 0
    ||| (o[0] == 192 && o[1] == 0 && o[2] == 2)
    ||| (o[0] == 198 && o[1] == 51 && o[2] == 100)
    ||| (o[0] == 203 && o[1] == 0 && o[2] == 113)
}

/// The four octets that an IPv4-mapped address (`::ffff:a.b.c.d`) stands for.
pub open spec fn mapped_octets(s: Seq<u16>) -> Seq<u8> {
    seq![(s[6] / 256) as u8, (s[6] % 256) as u8, (s[7] / 256) as u8, (s[7] % 256) as u8]
}

/// Whether the segments are of the form `::ffff:a.b.c.d`.
pub open spec fn is_ipv4_mapped(s: Seq<u16>) -> bool {
    s[0] == 0 && s[1] == 0 && s[2] == 0 && s[3] == 0 && s[4] == 0 && s[5] == 0xffff
}

/// Loopback, unspecified, link-local (fe80::/10), unique-local (fc00::/7), and
/// IPv4-mapped addresses of a blocked IPv4 range.
pub open spec fn ipv6_blocked(s: Seq<u16>) -> bool {
    let zero6 = s[0] == 0 && s[1] == 0 && s[2] == 0 && s[3] == 0 && s[4] == 0 && s[5] == 0;
    ||| (zero6 && s[6] == 0 && s[7] == 1)
    ||| (zero6 && s[6] == 0 && s[7] == 0)
    ||| (0xfe80 <= s[0] <= 0xfebf)
    ||| (0xfc00 <= s[0] <= 0xfdff)
    ||| (is_ipv4_mapped(s) && ipv4_blocked(mapped_octets(s)))
}

pub open spec fn ip_blocked(ip: IpAddress) -> bool {
    match ip {
        IpAddress::V4(o) => ipv4_blocked(o@),
        IpAddress::V6(s) => ipv6_blocked(s@),
    }
}

/// Whether an IPv4 address lies in a private or internal range.
pub fn is_private_ipv4(o: &[u8; 4]) -> (r: bool)
    ensures
        r == ipv4_blocked(o@),
{
    let a = o[0];
    let b = o[1];
    let c = o[2];
    if a == 127 || a == 10 || a == 0 {
        return true;
    }
    if a == 172 && b >= 16 && b <= 31 {
        return true;
    }
    if a == 192 && b == 168 {
        return true;
    }
    if a == 169 && b == 254 {
        return true;
    }
    (a == 192 && b == 0 && c == 2) || (a == 198 && b == 51 && c == 100) || (a == 203 && b == 0
        && c == 113)
}

/// Whether an IPv6 address is loopback, unspecified, link-local, unique-local,
/// or maps an IPv4 address of a private or internal range.
pub fn is_private_ipv6(s: &[u16; 8]) -> (r: bool)
    ensures
        r == ipv6_blocked(s@),
{
    let zero5 = s[0] == 0 && s[1] == 0 && s[2] == 0 && s[3] == 0 && s[4] == 0;
    let zero6 = zero5 && s[5] == 0;
    if zero6 && s[6] == 0 && (s[7] == 1 || s[7] == 0) {
        return true;
    }
    if s[0] >= 0xfe80 && s[0] <= 0xfebf {
        return true;
    }
    if s[0] >= 0xfc00 && s[0] <= 0xfdff {
        return true;
    }
    if zero5 && s[5] == 0xffff {
        let o: [u8; 4] = [(s[6] / 256) as u8, (s[6] % 256) as u8, (s[7] / 256) as u8, (s[7] % 256) as u8];
        assert(o@ =~= mapped_octets(s@));
        return is_private_ipv4(&o);
    }
    false
}

/// Whether an address of either family is private or internal.
pub fn is_private_ip(ip: &IpAddress) -> (r: bool)
    ensures
        r == ip_blocked(*ip),
{
    match ip {
        IpAddress::V4(o) => is_private_ipv4(o),
        IpAddress::V6(s) => is_private_ipv6(s),
    }
}

/// Whether any address of the list is private or internal.
pub open spec fn any_blocked(addrs: Seq<IpAddress>) -> bool {
    exists|i: int| 0 <= i < addrs.len() && ip_blocked(#[trigger] addrs[i])
}

/// Checks every address that the host resolved to: an empty list is a
/// resolution failure, and one private or internal address refuses the URL.
pub fn check_resolved_addresses(addrs: &Vec<IpAddress>) -> (r: Result<(), SsrfError>)
    ensures
        addrs@.len() == 0 ==> (match r {
            Err(SsrfError::DnsResolutionFailed(m)) => m@ == "No addresses resolved"@,
            _ => false,
        }),
        addrs@.len() > 0 && any_blocked(addrs@) ==> r == Err::<(), SsrfError>(SsrfError::PrivateIpAddress),
        addrs@.len() > 0 && !any_blocked(addrs@) ==> r is Ok,
{
    if addrs.len() == 0 {
        return Err(SsrfError::DnsResolutionFailed(String::from_str("No addresses resolved")));
    }
    let mut i: usize = 0;
    while i < addrs.len()
        invariant
            i <= addrs@.len(),
            forall|j: int| 0 <= j < i ==> !ip_blocked(#[trigger] addrs@[j]),
        decreases addrs@.len() - i,
    {
        if is_private_ip(&addrs[i]) {
            return Err(SsrfError::PrivateIpAddress);
        }
        i += 1;
    }
    Ok(())
}

/// Whether a scheme may be fetched.
pub open spec fn allowed_scheme(scheme: Seq<char>) -> bool {
    scheme == "http"@ || scheme == "https"@
}

/// Checks the scheme and host of a parsed URL, and gives the host and port to
/// resolve (port 80 when the URL names none and its scheme has no default).
pub fn check_url_target(t: &UrlTarget) -> (r: Result<(String, u16), SsrfError>)
    ensures
        !allowed_scheme(t.scheme@) ==> r == Err::<(String, u16), SsrfError>(SsrfError::InvalidScheme(t.scheme)),
        allowed_scheme(t.scheme@) && t.host is None ==> (match r {
            Err(SsrfError::InvalidUrl(m)) => m@ == "No host in URL"@,
            _ => false,
        }),
        target_outcome(t.scheme@, view_opt(t.host), t.port, r),
        allowed_scheme(t.scheme@) && t.host is Some ==> (match r {
            Ok((h, p)) => h == t.host->Some_0 && p == (match t.port {
                Some(p) => p,
                None => 80u16,
            }),
            _ => false,
        }),
{
    if !(str_eq(t.scheme.as_str(), "http") || str_eq(t.scheme.as_str(), "https")) {
        return Err(SsrfError::InvalidScheme(t.scheme.clone()));
    }
    match &t.host {
        None => Err(SsrfError::InvalidUrl(String::from_str("No host in URL"))),
        Some(h) => {
            let port = match t.port {
                Some(p) => p,
                None => 80u16,
            };
            Ok((h.clone(), port))
        },
    }
}

/// What `url::Url::parse` makes of a string: its scheme, host and port (the
/// scheme's default where none is written), or the parse error's text.
pub uninterp spec fn url_parts_of(s: Seq<char>) -> Result<(Seq<char>, Option<Seq<char>>, Option<u16>), Seq<char>>;

/// What the scheme and host check gives for the parts of a URL.
pub open spec fn target_outcome(
    scheme: Seq<char>,
    host: Option<Seq<char>>,
    port: Option<u16>,
    r: Result<(String, u16), SsrfError>,
) -> bool {
    if !allowed_scheme(scheme) {
        r matches Err(SsrfError::InvalidScheme(x)) && x@ == scheme
    } else {
        match host {
            None => r matches Err(SsrfError::InvalidUrl(m)) && m@ == "No host in URL"@,
            Some(h) => r matches Ok((hh, p)) && hh@ == h && p == (match port {
                Some(p) => p,
                None => 80u16,
            }),
        }
    }
}

/// Relies on `url::Url::parse`, and on `Url::scheme`, `Url::host_str` and
/// `Url::port_or_known_default` to read the parts of the parsed URL; a parse
/// error is handed back as its text. The result depends on the string alone.
#[verifier::external_body]
fn parse_url_target(s: &str) -> (r: Result<UrlTarget, String>)
    ensures
        match r {
            Ok(t) => url_parts_of(s@) == Ok::<(Seq<char>, Option<Seq<char>>, Option<u16>), Seq<char>>((t.scheme@, view_opt(t.host), t.port)),
            Err(m) => url_parts_of(s@) == Err::<(Seq<char>, Option<Seq<char>>, Option<u16>), Seq<char>>(m@),
        },
{
    match url::Url::parse(s) {
        Ok(u) => Ok(UrlTarget {
            scheme: u.scheme().to_string(),
            host: u.host_str().map(|h| h.to_string()),
            port: u.port_or_known_default(),
        }),
        Err(e) => Err(e.to_string()),
    }
}

/// First half of the URL check, before the host is resolved: parses the URL
/// and checks its scheme and host. A URL that does not parse is invalid.
pub fn prepare_url_check(url_str: &str) -> (r: Result<(String, u16), SsrfError>)
    ensures
        match url_parts_of(url_str@) {
            Err(m) => r matches Err(SsrfError::InvalidUrl(x)) && x@ == m,
            Ok((scheme, host, port)) => target_outcome(scheme, host, port, r),
        },
{
    match parse_url_target(url_str) {
        Err(m) => Err(SsrfError::InvalidUrl(m)),
        Ok(t) => check_url_target(&t),
    }
}

} // verus!
