//! Parsing of the destination a client asks for, in each protocol.
use vstd::prelude::*;

use super::protocol::{ProxyTarget, authority};
use crate::text::{
    all_digits, is_digit, lemma_decimal_digits, lemma_find_from_absent, lemma_find_from_at,
    lemma_parse_decimal_roundtrip,
    decimal, push_decimal, utf8_to_string,
    chars_to_string, find, find_from, index_of, index_of_from, parse_u16, parse_u16_spec,
    skip_whitespace, find_token_end, skip_ws, token_end, slice_chars, str_chars,
};

verus! {

/// Why a client's destination could not be parsed.
#[derive(Debug, Clone, Copy, PartialEq, Eq, Structural)]
pub enum TargetError {
    /// An HTTP request line with fewer than two words.
    InvalidHttpRequest,
    /// A CONNECT target that is not `host:port`.
    InvalidConnectTarget,
    /// A CONNECT target whose port is not a number below 65536.
    InvalidPort,
    /// A request URL that does not start with `http://`.
    InvalidHttpUrl,
    /// A SOCKS4 request whose version byte is not 4.
    InvalidSocks4Version,
    /// A SOCKS4 request for something other than CONNECT.
    OnlyConnectSupported,
    /// A SOCKS5 greeting whose version byte is not 5.
    InvalidSocks5Version,
    /// A SOCKS5 request that is not a version-5 CONNECT.
    InvalidSocks5Request,
    /// A SOCKS5 domain name that is not UTF-8.
    InvalidDomain,
    /// A SOCKS5 address type other than IPv4, domain name or IPv6.
    UnsupportedAddressType,
    /// A raw-TCP target length of 0 or above 1024.
    InvalidTargetLength,
    /// A raw-TCP target that is not UTF-8.
    InvalidUtf8Target,
    /// A raw-TCP target that is not `host:port`.
    InvalidTargetFormat,
    /// A raw-TCP target whose port is not a number below 65536.
    InvalidPortNumber,
}

/// `s` split at its single `:` into the host and the parsed port, or `None`
/// when `s` does not hold exactly one `:` (as `split(':')` yielding two parts).
pub open spec fn host_port_spec(s: Seq<char>) -> Option<(Seq<char>, Option<u16>)> {
    let i = find(s, ':');
    if i == s.len() || find_from(s, ':', i + 1) < s.len() {
        None
    } else {
        Some((s.take(i), parse_u16_spec(s.subrange(i + 1, s.len() as int))))
    }
}

/// Whether a parse outcome carries exactly the expected host and port or error.
pub open spec fn target_is(
    r: Result<ProxyTarget, TargetError>,
    expected: Result<(Seq<char>, u16), TargetError>,
) -> bool {
    match r {
        Ok(t) => expected matches Ok((h, p)) && t.host@ == h && t.port == p,
        Err(e) => expected == Err::<(Seq<char>, u16), TargetError>(e),
    }
}

/// The target of a `host:port` string, with the given errors for a string
/// that is not `host:port` and for a bad port.
pub open spec fn host_port_target(s: Seq<char>, shape: TargetError, bad_port: TargetError) -> Result<
    (Seq<char>, u16),
    TargetError,
> {
    match host_port_spec(s) {
        None => Err(shape),
        Some((h, None)) => Err(bad_port),
        Some((h, Some(p))) => Ok((h, p)),
    }
}

/// The target of a CONNECT request's authority `host:port`.
pub open spec fn connect_target_spec(s: Seq<char>) -> Result<(Seq<char>, u16), TargetError> {
    host_port_target(s, TargetError::InvalidConnectTarget, TargetError::InvalidPort)
}

/// The target of an absolute `http://host[:port][/...]` URL; the port is 80
/// when absent or unparsable.
pub open spec fn http_target_spec(s: Seq<char>) -> Result<(Seq<char>, u16), TargetError> {
    if !(s.len() >= 7 && s.take(7) == "http://"@) {
        Err(TargetError::InvalidHttpUrl)
    } else {
        let rest = s.skip(7);
        let hp = rest.take(find(rest, '/'));
        let c = find(hp, ':');
        let host = hp.take(c);
        let port: u16 = if c < hp.len() {
            let tail = hp.skip(c + 1);
            match parse_u16_spec(tail.take(find(tail, ':'))) {
                Some(p) => p,
                None => 80,
            }
        } else {
            80
        };
        Ok((host, port))
    }
}

/// The target named by an HTTP request line `METHOD URL ...`: a CONNECT
/// authority, or else an absolute `http://` URL.
pub open spec fn request_line_spec(s: Seq<char>) -> Result<(Seq<char>, u16), TargetError> {
    let n = s.len() as int;
    let a0 = skip_ws(s, 0, n);
    let b0 = token_end(s, a0, n);
    let a1 = skip_ws(s, b0, n);
    let b1 = token_end(s, a1, n);
    if a1 == n {
        Err(TargetError::InvalidHttpRequest)
    } else if s.subrange(a0, b0) == "CONNECT"@ {
        connect_target_spec(s.subrange(a1, b1))
    } else {
        http_target_spec(s.subrange(a1, b1))
    }
}

/// Splits at the single `:`, parsing the port.
fn split_host_port(s: &Vec<char>) -> (r: Option<(Vec<char>, Option<u16>)>)
    ensures
        match (r, host_port_spec(s@)) {
            (None, None) => true,
            (Some((h, p)), Some((hs, ps))) => h@ == hs && p == ps,
            _ => false,
        },
{
    let i = index_of(s, ':');
    if i == s.len() {
        return None;
    }
    let j = index_of_from(s, ':', i + 1);
    if j < s.len() {
        return None;
    }
    let host = slice_chars(s, 0, i);
    let tail = slice_chars(s, i + 1, s.len());
    let port = parse_u16(&tail);
    Some((host, port))
}

fn host_port_target_exec(s: &Vec<char>, shape: TargetError, bad_port: TargetError) -> (r: Result<
    ProxyTarget,
    TargetError,
>)
    ensures
        target_is(r, host_port_target(s@, shape, bad_port)),
{
    match split_host_port(s) {
        None => Err(shape),
        Some((h, None)) => Err(bad_port),
        Some((h, Some(p))) => Ok(ProxyTarget { host: chars_to_string(&h), port: p }),
    }
}

/// Parses the `host:port` target of an HTTP CONNECT request.
pub fn parse_connect_target(url: &str) -> (r: Result<ProxyTarget, TargetError>)
    ensures
        target_is(r, connect_target_spec(url@)),
{
    let s = str_chars(url);
    host_port_target_exec(&s, TargetError::InvalidConnectTarget, TargetError::InvalidPort)
}

/// Parses the host and port of an absolute `http://` URL.
pub fn parse_http_target(url: &str) -> (r: Result<ProxyTarget, TargetError>)
    ensures
        target_is(r, http_target_spec(url@)),
{
    let s = str_chars(url);
    proof {
        reveal_strlit("http://");
    }
    if !(s.len() >= 7 && s[0] == 'h' && s[1] == 't' && s[2] == 't' && s[3] == 'p' && s[4] == ':'
        && s[5] == '/' && s[6] == '/') {
        proof {
            if s@.len() >= 7 && s@.take(7) == "http://"@ {
                assert(s@.take(7)[0] == 'h');
                assert(s@.take(7)[1] == 't');
                assert(s@.take(7)[2] == 't');
                assert(s@.take(7)[3] == 'p');
                assert(s@.take(7)[4] == ':');
                assert(s@.take(7)[5] == '/');
                assert(s@.take(7)[6] == '/');
            }
        }
        return Err(TargetError::InvalidHttpUrl);
    }
    proof {
        assert(s@.take(7) =~= "http://"@);
    }
    let rest = slice_chars(&s, 7, s.len());
    let slash = index_of(&rest, '/');
    let hp = slice_chars(&rest, 0, slash);
    let c = index_of(&hp, ':');
    let host = slice_chars(&hp, 0, c);
    let port: u16 = if c < hp.len() {
        let tail = slice_chars(&hp, c + 1, hp.len());
        let e = index_of(&tail, ':');
        let ps = slice_chars(&tail, 0, e);
        match parse_u16(&ps) {
            Some(p) => p,
            None => 80,
        }
    } else {
        80
    };
    Ok(ProxyTarget { host: chars_to_string(&host), port })
}

/// Parses the first line of an HTTP request: a CONNECT request names its
/// target as `host:port`, any other method as an absolute `http://` URL.
pub fn parse_http_request_line(request_line: &str) -> (r: Result<ProxyTarget, TargetError>)
    ensures
        target_is(r, request_line_spec(request_line@)),
{
    let s = str_chars(request_line);
    let n = s.len();
    let a0 = skip_whitespace(&s, 0, n);
    let b0 = find_token_end(&s, a0, n);
    let a1 = skip_whitespace(&s, b0, n);
    let b1 = find_token_end(&s, a1, n);
    if a1 == n {
        return Err(TargetError::InvalidHttpRequest);
    }
    let method = slice_chars(&s, a0, b0);
    let url = slice_chars(&s, a1, b1);
    proof {
        reveal_strlit("CONNECT");
    }
    let is_connect = method.len() == 7 && method[0] == 'C' && method[1] == 'O' && method[2] == 'N'
        && method[3] == 'N' && method[4] == 'E' && method[5] == 'C' && method[6] == 'T';
    proof {
        if method@ == "CONNECT"@ {
            assert(method@[0] == 'C' && method@[1] == 'O' && method@[2] == 'N' && method@[3] == 'N'
                && method@[4] == 'E' && method@[5] == 'C' && method@[6] == 'T');
        }
        if is_connect {
            assert(method@ =~= "CONNECT"@);
        }
    }
    if is_connect {
        host_port_target_exec(&url, TargetError::InvalidConnectTarget, TargetError::InvalidPort)
    } else {
        let url_string = chars_to_string(&url);
        parse_http_target(url_string.as_str())
    }
}

/// The value of a big-endian 16-bit field.
pub open spec fn be_u16(hi: u8, lo: u8) -> u16 {
    (hi as nat * 256 + lo as nat) as u16
}

/// Reads a big-endian 16-bit field, as `u16::from_be_bytes` does.
pub fn port_from_be_bytes(b: &[u8; 2]) -> (r: u16)
    ensures
        r == be_u16(b[0], b[1]),
{
    (b[0] as u16) * 256 + (b[1] as u16)
}

/// Dotted-decimal text of an IPv4 address, as `Ipv4Addr` displays it.
pub open spec fn dotted_quad(a: u8, b: u8, c: u8, d: u8) -> Seq<char> {
    decimal(a as nat) + seq!['.'] + decimal(b as nat) + seq!['.'] + decimal(c as nat) + seq!['.']
        + decimal(d as nat)
}

/// Formats an IPv4 address in dotted-decimal notation.
pub fn ipv4_to_string(a: u8, b: u8, c: u8, d: u8) -> (r: String)
    ensures
        r@ == dotted_quad(a, b, c, d),
{
    let mut v: Vec<char> = Vec::new();
    push_decimal(a as u64, &mut v);
    v.push('.');
    push_decimal(b as u64, &mut v);
    v.push('.');
    push_decimal(c as u64, &mut v);
    v.push('.');
    push_decimal(d as u64, &mut v);
    proof {
        assert(v@ =~= dotted_quad(a, b, c, d));
    }
    chars_to_string(&v)
}

/// The outcome of a SOCKS4 request header `VN CD DSTPORT DSTIP`.
pub open spec fn socks4_request_spec(buf: [u8; 8]) -> Result<(Seq<char>, u16), TargetError> {
    if buf[0] != 4 {
        Err(TargetError::InvalidSocks4Version)
    } else if buf[1] != 1 {
        Err(TargetError::OnlyConnectSupported)
    } else {
        Ok((dotted_quad(buf[4], buf[5], buf[6], buf[7]), be_u16(buf[2], buf[3])))
    }
}

/// Parses the fixed 8-byte header of a SOCKS4 CONNECT request (the user id
/// that follows is read separately).
pub fn parse_socks4_request(buf: &[u8; 8]) -> (r: Result<ProxyTarget, TargetError>)
    ensures
        target_is(r, socks4_request_spec(*buf)),
{
    let version = buf[0];
    let command = buf[1];
    let port = port_from_be_bytes(&[buf[2], buf[3]]);
    if version != 0x04 {
        return Err(TargetError::InvalidSocks4Version);
    }
    if command != 0x01 {
        return Err(TargetError::OnlyConnectSupported);
    }
    let host = ipv4_to_string(buf[4], buf[5], buf[6], buf[7]);
    Ok(ProxyTarget { host, port })
}

/// Checks a SOCKS5 greeting `VER NMETHODS`, giving the number of method bytes
/// that follow.
pub fn socks5_greeting(buf: &[u8; 2]) -> (r: Result<u8, TargetError>)
    ensures
        buf[0] == 5 ==> r == Ok::<u8, TargetError>(buf[1]),
        buf[0] != 5 ==> r == Err::<u8, TargetError>(TargetError::InvalidSocks5Version),
{
    if buf[0] != 0x05 {
        return Err(TargetError::InvalidSocks5Version);
    }
    Ok(buf[1])
}

/// The SOCKS5 method selection "no authentication required".
pub fn socks5_no_auth_reply() -> (r: [u8; 2])
    ensures
        r@ == seq![5u8, 0u8],
{
    [0x05, 0x00]
}

/// Address types of a SOCKS5 request.
#[derive(Debug, Clone, Copy, PartialEq, Eq, Structural)]
pub enum Socks5AddressType {
    IPv4,
    DomainName,
    IPv6,
}

/// Checks a SOCKS5 request header `VER CMD RSV ATYP`: it must be a version-5
/// CONNECT; gives the type of the address that follows.
pub fn parse_socks5_request(req: &[u8; 4]) -> (r: Result<Socks5AddressType, TargetError>)
    ensures
        r == (if req[0] != 5 || req[1] != 1 {
            Err(TargetError::InvalidSocks5Request)
        } else if req[3] == 1 {
            Ok(Socks5AddressType::IPv4)
        } else if req[3] == 3 {
            Ok(Socks5AddressType::DomainName)
        } else if req[3] == 4 {
            Ok(Socks5AddressType::IPv6)
        } else {
            Err(TargetError::UnsupportedAddressType)
        }),
{
    if req[0] != 0x05 || req[1] != 0x01 {
        return Err(TargetError::InvalidSocks5Request);
    }
    match req[3] {
        0x01 => Ok(Socks5AddressType::IPv4),
        0x03 => Ok(Socks5AddressType::DomainName),
        0x04 => Ok(Socks5AddressType::IPv6),
        _ => Err(TargetError::UnsupportedAddressType),
    }
}

/// The target of a SOCKS5 IPv4 address `A B C D PORT_HI PORT_LO`.
pub fn socks5_ipv4_target(addr: &[u8; 6]) -> (r: ProxyTarget)
    ensures
        r.host@ == dotted_quad(addr[0], addr[1], addr[2], addr[3]),
        r.port == be_u16(addr[4], addr[5]),
{
    let host = ipv4_to_string(addr[0], addr[1], addr[2], addr[3]);
    let port = port_from_be_bytes(&[addr[4], addr[5]]);
    ProxyTarget { host, port }
}

/// Decodes a SOCKS5 domain name, which must be UTF-8.
pub fn socks5_domain_name(domain: Vec<u8>) -> (r: Result<String, TargetError>)
    ensures
        r is Ok <==> vstd::utf8::valid_utf8(domain@),
        r matches Ok(s) ==> s@ == vstd::utf8::decode_utf8(domain@),
        r matches Err(e) ==> e == TargetError::InvalidDomain,
{
    match utf8_to_string(domain) {
        Some(s) => Ok(s),
        None => Err(TargetError::InvalidDomain),
    }
}

/// Splits a SOCKS5 IPv6 address field into the 16 address bytes and the port.
pub fn socks5_ipv6_address(addr: &[u8; 18]) -> (r: ([u8; 16], u16))
    ensures
        r.0@ == addr@.take(16),
        r.1 == be_u16(addr[16], addr[17]),
{
    let ip: [u8; 16] = [
        addr[0],
        addr[1],
        addr[2],
        addr[3],
        addr[4],
        addr[5],
        addr[6],
        addr[7],
        addr[8],
        addr[9],
        addr[10],
        addr[11],
        addr[12],
        addr[13],
        addr[14],
        addr[15],
    ];
    proof {
        assert(ip@ =~= addr@.take(16));
    }
    (ip, port_from_be_bytes(&[addr[16], addr[17]]))
}

/// Checks the length prefix of a raw-TCP target: 1 to 1024 bytes.
pub fn parse_target_length(length_buf: &[u8; 2]) -> (r: Result<usize, TargetError>)
    ensures
        ({
            let n = be_u16(length_buf[0], length_buf[1]);
            if n == 0 || n > 1024 {
                r == Err::<usize, TargetError>(TargetError::InvalidTargetLength)
            } else {
                r == Ok::<usize, TargetError>(n as usize)
            }
        }),
{
    let length = port_from_be_bytes(length_buf) as usize;
    if length == 0 || length > 1024 {
        return Err(TargetError::InvalidTargetLength);
    }
    Ok(length)
}

/// The target of a raw-TCP `host:port` request given as bytes.
pub open spec fn tcp_target_spec(bytes: Seq<u8>) -> Result<(Seq<char>, u16), TargetError> {
    if !vstd::utf8::valid_utf8(bytes) {
        Err(TargetError::InvalidUtf8Target)
    } else {
        host_port_target(
            vstd::utf8::decode_utf8(bytes),
            TargetError::InvalidTargetFormat,
            TargetError::InvalidPortNumber,
        )
    }
}

/// Parses the body of a raw-TCP target request: UTF-8 text `host:port`.
pub fn parse_target_bytes(target: Vec<u8>) -> (r: Result<ProxyTarget, TargetError>)
    ensures
        target_is(r, tcp_target_spec(target@)),
{
    let ghost bytes = target@;
    let text = match utf8_to_string(target) {
        Some(t) => t,
        None => return Err(TargetError::InvalidUtf8Target),
    };
    let s = str_chars(text.as_str());
    host_port_target_exec(&s, TargetError::InvalidTargetFormat, TargetError::InvalidPortNumber)
}

/// A host without `:` and a port, written as `host:port`, parse back as the
/// same CONNECT target.
pub proof fn lemma_connect_target_roundtrip(host: Seq<char>, port: u16)
    requires
        !host.contains(':'),
    ensures
        connect_target_spec(authority(host, port)) == Ok::<(Seq<char>, u16), TargetError>(
            (host, port),
        ),
{
    let d = decimal(port as nat);
    let s = authority(host, port);
    let i = host.len() as int;
    lemma_decimal_digits(port as nat);
    assert forall|j: int| 0 <= j < i implies s[j] != ':' by {
        assert(s[j] == host[j]);
    }
    assert(s[i] == ':');
    lemma_find_from_at(s, ':', 0, i);
    assert forall|j: int| i + 1 <= j < s.len() implies s[j] != ':' by {
        assert(s[j] == d[j - i - 1]);
        assert(is_digit(d[j - i - 1]));
    }
    lemma_find_from_absent(s, ':', i + 1);
    assert(s.take(i) =~= host);
    assert(s.subrange(i + 1, s.len() as int) =~= d);
    lemma_parse_decimal_roundtrip(port);
}

} // verus!
