//! Proxy configuration strings and tunnel planning.
//!
//! A proxy string has the shape `scheme://[user:password@]host:port` with
//! scheme `http` or `socks5`; its absence means a direct connection.  The
//! parser here decides, before any connection step, which of the three
//! tunnel variants a connection attempt will use; a malformed string is
//! rejected at this stage, so no network I/O is ever attempted for it.

use vstd::prelude::*;
use vstd::string::StringSliceAdditionalSpecFns;
use crate::wire::{bytes_of, spec_dec_digits, u64_to_dec};

verus! {

/// ASCII bytes the grammar splits on.
pub const COLON: u8 = 58;

pub const AT_SIGN: u8 = 64;

pub const SPACE: u8 = 32;

pub const DIGIT_ZERO: u8 = 48;

pub const DIGIT_NINE: u8 = 57;

/// The scheme of a proxy string.
#[derive(Clone, Copy, PartialEq, Eq, Structural, Debug)]
pub enum ProxyScheme {
    Http,
    Socks5,
}

/// A parsed proxy configuration.
#[derive(Debug)]
pub struct ProxyConfig {
    pub scheme: ProxyScheme,
    /// Credentials, when the string carries `user:password@`.
    pub auth: Option<(Vec<u8>, Vec<u8>)>,
    pub host: Vec<u8>,
    pub port: u16,
}

/// The mathematical shadow of [`ProxyConfig`].
pub struct ProxyConfigModel {
    pub scheme: ProxyScheme,
    pub auth: Option<(Seq<u8>, Seq<u8>)>,
    pub host: Seq<u8>,
    pub port: u16,
}

impl View for ProxyConfig {
    type V = ProxyConfigModel;

    open spec fn view(&self) -> ProxyConfigModel {
        ProxyConfigModel {
            scheme: self.scheme,
            auth: match self.auth {
                Some(a) => Some((a.0@, a.1@)),
                None => None,
            },
            host: self.host@,
            port: self.port,
        }
    }
}

/// Why a proxy string was rejected.
#[derive(Clone, Copy, PartialEq, Eq, Structural, Debug)]
pub enum ProxyParseError {
    /// The string starts with neither `http://` nor `socks5://`.
    Scheme,
    /// A `@` is present but the part before it has no `:` separating user
    /// and password.
    Credentials,
    /// The part naming the target is not `host:port` with a nonempty host
    /// and a decimal port up to 65535.
    HostPort,
}

/// The index of the first occurrence of `c` in `s`.
pub open spec fn find_byte(s: Seq<u8>, c: u8) -> Option<int>
    decreases s.len(),
{
    if s.len() == 0 {
        None
    } else if s[0] == c {
        Some(0)
    } else {
        match find_byte(s.subrange(1, s.len() as int), c) {
            Some(i) => Some(i + 1),
            None => None,
        }
    }
}

proof fn lemma_find_byte_first(s: Seq<u8>, c: u8, i: int)
    requires
        0 <= i < s.len(),
        s[i] == c,
        forall|j: int| 0 <= j < i ==> s[j] != c,
    ensures
        find_byte(s, c) == Some(i),
    decreases i,
{
    if i == 0 {
    } else {
        let t = s.subrange(1, s.len() as int);
        assert(t[i - 1] == c);
        assert(forall|j: int| 0 <= j < i - 1 ==> t[j] == s[j + 1] && t[j] != c);
        lemma_find_byte_first(t, c, i - 1);
    }
}

proof fn lemma_find_byte_in_range(s: Seq<u8>, c: u8)
    ensures
        match find_byte(s, c) {
            Some(i) => 0 <= i < s.len() && s[i] == c,
            None => true,
        },
    decreases s.len(),
{
    if s.len() > 0 && s[0] != c {
        lemma_find_byte_in_range(s.subrange(1, s.len() as int), c);
    }
}

proof fn lemma_find_byte_absent(s: Seq<u8>, c: u8)
    requires
        forall|j: int| 0 <= j < s.len() ==> s[j] != c,
    ensures
        find_byte(s, c) is None,
    decreases s.len(),
{
    if s.len() > 0 {
        let t = s.subrange(1, s.len() as int);
        assert(forall|j: int| 0 <= j < t.len() ==> t[j] == s[j + 1] && t[j] != c);
        lemma_find_byte_absent(t, c);
    }
}

/// Where `c` first occurs in a byte string, if anywhere.
pub fn find_byte_at(s: &Vec<u8>, c: u8) -> (r: Option<usize>)
    ensures
        match r {
            Some(i) => find_byte(s@, c) == Some(i as int),
            None => find_byte(s@, c) is None,
        },
{
    let mut i: usize = 0;
    while i < s.len()
        invariant
            0 <= i <= s@.len(),
            forall|j: int| 0 <= j < i ==> s@[j] != c,
        decreases s@.len() - i,
    {
        if s[i] == c {
            proof {
                lemma_find_byte_first(s@, c, i as int);
            }
            return Some(i);
        }
        i += 1;
    }
    proof {
        lemma_find_byte_absent(s@, c);
    }
    None
}

/// Whether `p` is a prefix of `s`.
pub fn has_prefix(s: &Vec<u8>, p: &Vec<u8>) -> (r: bool)
    ensures
        r == p@.is_prefix_of(s@),
{
    if s.len() < p.len() {
        return false;
    }
    let mut i: usize = 0;
    while i < p.len()
        invariant
            0 <= i <= p@.len() <= s@.len(),
            forall|j: int| 0 <= j < i ==> s@[j] == p@[j],
        decreases p@.len() - i,
    {
        if s[i] != p[i] {
            assert(s@.subrange(0, p@.len() as int)[i as int] == s@[i as int]);
            return false;
        }
        i += 1;
    }
    assert(s@.subrange(0, p@.len() as int) =~= p@);
    true
}

/// A copy of `s[i..j]`.
fn sub_bytes(s: &Vec<u8>, i: usize, j: usize) -> (r: Vec<u8>)
    requires
        0 <= i <= j <= s@.len(),
    ensures
        r@ == s@.subrange(i as int, j as int),
{
    vstd::slice::slice_to_vec(vstd::slice::slice_subrange(s.as_slice(), i, j))
}

/// Whether every byte of `p` is a decimal digit.
pub open spec fn all_digits(p: Seq<u8>) -> bool {
    forall|i: int| 0 <= i < p.len() ==> DIGIT_ZERO <= #[trigger] p[i] <= DIGIT_NINE
}

/// The value of `p` read as decimal digits.
pub open spec fn dec_value(p: Seq<u8>) -> int
    decreases p.len(),
{
    if p.len() == 0 {
        0
    } else {
        dec_value(p.drop_last()) * 10 + (p.last() - DIGIT_ZERO)
    }
}

/// Whether `p` is a well-formed port: one to five decimal digits with
/// value at most 65535.
pub open spec fn spec_is_port(p: Seq<u8>) -> bool {
    1 <= p.len() <= 5 && all_digits(p) && dec_value(p) <= 65535
}

spec fn pow10(n: nat) -> int
    decreases n,
{
    if n == 0 {
        1
    } else {
        10 * pow10((n - 1) as nat)
    }
}

proof fn lemma_pow10_le(a: nat, b: nat)
    requires
        a <= b,
    ensures
        0 < pow10(a) <= pow10(b),
    decreases b,
{
    if b > 0 {
        if a == b {
            lemma_pow10_le((a - 1) as nat, (b - 1) as nat);
        } else {
            lemma_pow10_le(a, (b - 1) as nat);
        }
    }
}

/// The port number a well-formed port text denotes.
pub open spec fn spec_port_value(p: Seq<u8>) -> u16
    recommends
        spec_is_port(p),
{
    dec_value(p) as u16
}

/// Reads a port: `Some` exactly on well-formed ports.
pub fn parse_port(p: &Vec<u8>) -> (r: Option<u16>)
    ensures
        match r {
            Some(v) => spec_is_port(p@) && v == spec_port_value(p@),
            None => !spec_is_port(p@),
        },
{
    if p.len() < 1 || p.len() > 5 {
        return None;
    }
    let mut acc: u32 = 0;
    let mut i: usize = 0;
    assert(pow10(0) == 1);
    while i < p.len()
        invariant
            0 <= i <= p@.len() <= 5,
            all_digits(p@.subrange(0, i as int)),
            acc == dec_value(p@.subrange(0, i as int)),
            acc < pow10(i as nat),
        decreases p@.len() - i,
    {
        let d = p[i];
        if d < DIGIT_ZERO || d > DIGIT_NINE {
            assert(!all_digits(p@));
            return None;
        }
        proof {
            lemma_pow10_le(i as nat, 4);
            reveal_with_fuel(pow10, 6);
            assert(pow10(4) == 10000);
            assert(pow10(((i + 1) as usize) as nat) == 10 * pow10(i as nat));
            let q = p@.subrange(0, i + 1);
            assert(q.drop_last() =~= p@.subrange(0, i as int));
            assert(all_digits(q)) by {
                assert(forall|j: int| 0 <= j < i ==> q[j] == p@.subrange(0, i as int)[j]);
            }
        }
        acc = acc * 10 + (d - DIGIT_ZERO) as u32;
        i += 1;
    }
    assert(p@.subrange(0, p@.len() as int) =~= p@);
    if acc <= 65535 {
        Some(acc as u16)
    } else {
        None
    }
}

/// The target part of a proxy string: `host:port` with a nonempty host
/// that contains neither `:` nor `@`.
pub open spec fn spec_parse_hostport(h: Seq<u8>) -> Option<(Seq<u8>, u16)> {
    match find_byte(h, COLON) {
        Some(i) => {
            let host = h.subrange(0, i);
            let port = h.subrange(i + 1, h.len() as int);
            if i > 0 && find_byte(h, AT_SIGN) is None && spec_is_port(port) {
                Some((host, spec_port_value(port)))
            } else {
                None
            }
        },
        None => None,
    }
}

fn parse_hostport(h: &Vec<u8>) -> (r: Option<(Vec<u8>, u16)>)
    ensures
        match r {
            Some(hp) => spec_parse_hostport(h@) == Some((hp.0@, hp.1)),
            None => spec_parse_hostport(h@) is None,
        },
{
    match find_byte_at(h, COLON) {
        Some(i) => {
            proof {
                lemma_find_byte_in_range(h@, COLON);
            }
            if i == 0 {
                return None;
            }
            if let Some(_) = find_byte_at(h, AT_SIGN) {
                return None;
            }
            let hlen = h.len();
            let host = sub_bytes(h, 0, i);
            let port_text = sub_bytes(h, i + 1, hlen);
            match parse_port(&port_text) {
                Some(v) => Some((host, v)),
                None => None,
            }
        },
        None => None,
    }
}

/// What a proxy string parses to, if anything: the scheme prefix, then an
/// optional `user:password@`, then `host:port`.
pub open spec fn spec_parse_proxy(s: Seq<u8>) -> Option<ProxyConfigModel> {
    if ("http://").spec_bytes().is_prefix_of(s) {
        spec_parse_authority(
            s.subrange(("http://").spec_bytes().len() as int, s.len() as int),
            ProxyScheme::Http,
        )
    } else if ("socks5://").spec_bytes().is_prefix_of(s) {
        spec_parse_authority(
            s.subrange(("socks5://").spec_bytes().len() as int, s.len() as int),
            ProxyScheme::Socks5,
        )
    } else {
        None
    }
}

/// The part after the scheme: an optional `user:password@`, then
/// `host:port`.  Credentials are split at their first `:`; the part
/// before the first `@` must carry such a split to count as credentials.
pub open spec fn spec_parse_authority(r: Seq<u8>, scheme: ProxyScheme) -> Option<
    ProxyConfigModel,
> {
    match find_byte(r, AT_SIGN) {
        Some(i) => {
            let userinfo = r.subrange(0, i);
            let hostport = r.subrange(i + 1, r.len() as int);
            match find_byte(userinfo, COLON) {
                Some(k) => {
                    let user = userinfo.subrange(0, k);
                    let pass = userinfo.subrange(k + 1, userinfo.len() as int);
                    match spec_parse_hostport(hostport) {
                        Some(hp) => Some(
                            ProxyConfigModel {
                                scheme,
                                auth: Some((user, pass)),
                                host: hp.0,
                                port: hp.1,
                            },
                        ),
                        None => None,
                    }
                },
                None => None,
            }
        },
        None => match spec_parse_hostport(r) {
            Some(hp) => Some(ProxyConfigModel { scheme, auth: None, host: hp.0, port: hp.1 }),
            None => None,
        },
    }
}

/// The error a proxy string that does not parse is rejected with.
pub open spec fn spec_proxy_error(s: Seq<u8>) -> ProxyParseError {
    if ("http://").spec_bytes().is_prefix_of(s) {
        spec_authority_error(s.subrange(("http://").spec_bytes().len() as int, s.len() as int))
    } else if ("socks5://").spec_bytes().is_prefix_of(s) {
        spec_authority_error(s.subrange(("socks5://").spec_bytes().len() as int, s.len() as int))
    } else {
        ProxyParseError::Scheme
    }
}

/// Which stage after the scheme a malformed remainder fails at.
pub open spec fn spec_authority_error(r: Seq<u8>) -> ProxyParseError {
    match find_byte(r, AT_SIGN) {
        Some(i) => if find_byte(r.subrange(0, i), COLON) is None {
            ProxyParseError::Credentials
        } else {
            ProxyParseError::HostPort
        },
        None => ProxyParseError::HostPort,
    }
}

fn parse_authority(rest: Vec<u8>, scheme: ProxyScheme) -> (r: Result<ProxyConfig, ProxyParseError>)
    ensures
        match r {
            Ok(c) => spec_parse_authority(rest@, scheme) == Some(c@),
            Err(e) => spec_parse_authority(rest@, scheme) is None && e == spec_authority_error(
                rest@,
            ),
        },
{
    match find_byte_at(&rest, AT_SIGN) {
        Some(i) => {
            proof {
                lemma_find_byte_in_range(rest@, AT_SIGN);
            }
            let userinfo = sub_bytes(&rest, 0, i);
            let hostport = sub_bytes(&rest, i + 1, rest.len());
            match find_byte_at(&userinfo, COLON) {
                Some(k) => {
                    proof {
                        lemma_find_byte_in_range(userinfo@, COLON);
                    }
                    let user = sub_bytes(&userinfo, 0, k);
                    let pass = sub_bytes(&userinfo, k + 1, userinfo.len());
                    match parse_hostport(&hostport) {
                        Some(hp) => Ok(
                            ProxyConfig {
                                scheme,
                                auth: Some((user, pass)),
                                host: hp.0,
                                port: hp.1,
                            },
                        ),
                        None => Err(ProxyParseError::HostPort),
                    }
                },
                None => Err(ProxyParseError::Credentials),
            }
        },
        None => match parse_hostport(&rest) {
            Some(hp) => Ok(ProxyConfig { scheme, auth: None, host: hp.0, port: hp.1 }),
            None => Err(ProxyParseError::HostPort),
        },
    }
}

/// Parses a proxy string: `Ok` exactly on well-formed strings, with the
/// parsed configuration; `Err` says which stage a malformed string fails
/// at.  This is a pure function: no connection step is attempted here.
pub fn parse_proxy(s: &Vec<u8>) -> (r: Result<ProxyConfig, ProxyParseError>)
    ensures
        match r {
            Ok(c) => spec_parse_proxy(s@) == Some(c@),
            Err(e) => spec_parse_proxy(s@) is None && e == spec_proxy_error(s@),
        },
{
    let http = bytes_of("http://");
    let socks = bytes_of("socks5://");
    if has_prefix(s, &http) {
        let rest = sub_bytes(s, http.len(), s.len());
        parse_authority(rest, ProxyScheme::Http)
    } else if has_prefix(s, &socks) {
        let rest = sub_bytes(s, socks.len(), s.len());
        parse_authority(rest, ProxyScheme::Socks5)
    } else {
        Err(ProxyParseError::Scheme)
    }
}

/// The HTTP CONNECT request asking a proxy for a tunnel to `host:port`.
/// Credentials are not sent here; they belong to the SOCKS5 handshake.
pub open spec fn spec_connect_request(host: Seq<u8>, port: u16) -> Seq<u8> {
    ("CONNECT ").spec_bytes() + host + (":").spec_bytes() + spec_dec_digits(port as nat) + (
    " HTTP/1.1\r\nHost: ").spec_bytes() + host + (":").spec_bytes() + spec_dec_digits(port as nat)
        + ("\r\n\r\n").spec_bytes()
}

/// Builds the HTTP CONNECT request for a target.
pub fn connect_request(host: &Vec<u8>, port: u16) -> (r: Vec<u8>)
    ensures
        r@ == spec_connect_request(host@, port),
{
    let mut r = bytes_of("CONNECT ");
    let mut host1: Vec<u8> = vstd::slice::slice_to_vec(host.as_slice());
    r.append(&mut host1);
    let mut colon1 = bytes_of(":");
    r.append(&mut colon1);
    let mut port1 = u64_to_dec(port as u64);
    r.append(&mut port1);
    let mut middle = bytes_of(" HTTP/1.1\r\nHost: ");
    r.append(&mut middle);
    let mut host2: Vec<u8> = vstd::slice::slice_to_vec(host.as_slice());
    r.append(&mut host2);
    let mut colon2 = bytes_of(":");
    r.append(&mut colon2);
    let mut port2 = u64_to_dec(port as u64);
    r.append(&mut port2);
    let mut tail = bytes_of("\r\n\r\n");
    r.append(&mut tail);
    assert(r@ =~= spec_connect_request(host@, port));
    r
}

/// Whether a proxy's reply grants the tunnel: the reply opens with an
/// HTTP/1 status line whose status code is 200.
pub open spec fn spec_connect_granted(resp: Seq<u8>) -> bool {
    &&& ("HTTP/1.").spec_bytes().is_prefix_of(resp)
    &&& resp.len() >= 12
    &&& resp[8] == SPACE
    &&& resp.subrange(9, 12) == ("200").spec_bytes()
}

/// Decides whether a proxy's reply grants the tunnel.
pub fn connect_granted(resp: &Vec<u8>) -> (r: bool)
    ensures
        r == spec_connect_granted(resp@),
{
    let prefix = bytes_of("HTTP/1.");
    if !has_prefix(resp, &prefix) {
        return false;
    }
    if resp.len() < 12 {
        return false;
    }
    if resp[8] != SPACE {
        return false;
    }
    let code = sub_bytes(resp, 9, 12);
    let ok = bytes_of("200");
    let same = code == ok;
    proof {
        if same {
            assert(code@ =~= ok@);
        } else {
            assert(code@ != ok@);
        }
    }
    same
}

/// How one connection attempt will reach the feed host.
#[derive(Debug)]
pub enum TunnelPlan {
    /// Open a TCP connection to the target directly.
    Direct,
    /// Open TCP to the proxy and issue an HTTP CONNECT for the target.
    Http(ProxyConfig),
    /// Open TCP to the proxy and run the SOCKS5 handshake for the target.
    Socks5(ProxyConfig),
}

/// Decides how a connection attempt will reach the feed host: directly
/// when no proxy string is configured, otherwise through the proxy the
/// string describes.  Planning performs no I/O; a malformed string is
/// rejected here, before any connection step.
pub fn plan_tunnel(proxy: Option<&Vec<u8>>) -> (r: Result<TunnelPlan, ProxyParseError>)
    ensures
        match proxy {
            None => r matches Ok(p) && p is Direct,
            Some(s) => match spec_parse_proxy(s@) {
                Some(m) => match m.scheme {
                    ProxyScheme::Http => r matches Ok(p) && p matches TunnelPlan::Http(c) && c@
                        == m,
                    ProxyScheme::Socks5 => r matches Ok(p) && p matches TunnelPlan::Socks5(c) && c@
                        == m,
                },
                None => r matches Err(e) && e == spec_proxy_error(s@),
            },
        },
{
    match proxy {
        None => Ok(TunnelPlan::Direct),
        Some(s) => match parse_proxy(s) {
            Ok(c) => match c.scheme {
                ProxyScheme::Http => Ok(TunnelPlan::Http(c)),
                ProxyScheme::Socks5 => Ok(TunnelPlan::Socks5(c)),
            },
            Err(e) => Err(e),
        },
    }
}

} // verus!
