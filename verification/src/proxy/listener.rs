//! The decisions a client connection goes through: which protocol it speaks,
//! how it must authenticate, and what it is answered.
use vstd::prelude::*;
use vstd::utf8::encode_utf8;

use super::protocol::ProxyProtocol;
use crate::text::{chars_to_string, str_chars};
use crate::utils::{http_connect_response, socks4_response, socks5_response};

verus! {

/// Whether four peeked bytes begin with the given ASCII text.
pub open spec fn bytes_are(b: [u8; 4], text: Seq<u8>) -> bool {
    b@ == text
}

/// The protocol the first four bytes of a connection announce: an HTTP method
/// (`GET `, `POST`, `PUT `, `HEAD`, `DELE`, `CONN`), a TLS handshake record
/// (0x16), SOCKS5 (0x05), SOCKS4 (0x04), or else raw TCP.
pub open spec fn detect_protocol_spec(b: [u8; 4]) -> ProxyProtocol {
    if bytes_are(b, seq![0x47u8, 0x45u8, 0x54u8, 0x20u8]) || bytes_are(
        b,
        seq![0x50u8, 0x4fu8, 0x53u8, 0x54u8],
    ) || bytes_are(b, seq![0x50u8, 0x55u8, 0x54u8, 0x20u8]) || bytes_are(
        b,
        seq![0x48u8, 0x45u8, 0x41u8, 0x44u8],
    ) || bytes_are(b, seq![0x44u8, 0x45u8, 0x4cu8, 0x45u8]) || bytes_are(
        b,
        seq![0x43u8, 0x4fu8, 0x4eu8, 0x4eu8],
    ) {
        ProxyProtocol::HTTP
    } else if b[0] == 0x16 {
        ProxyProtocol::HTTPS
    } else if b[0] == 0x05 {
        ProxyProtocol::SOCKS5
    } else if b[0] == 0x04 {
        ProxyProtocol::SOCKS4
    } else {
        ProxyProtocol::TCP
    }
}

/// Whether the four bytes are one of the six HTTP method words.
pub open spec fn is_http_word(b: [u8; 4]) -> bool {
    ||| b@ == seq![0x47u8, 0x45u8, 0x54u8, 0x20u8]
    ||| b@ == seq![0x50u8, 0x4fu8, 0x53u8, 0x54u8]
    ||| b@ == seq![0x50u8, 0x55u8, 0x54u8, 0x20u8]
    ||| b@ == seq![0x48u8, 0x45u8, 0x41u8, 0x44u8]
    ||| b@ == seq![0x44u8, 0x45u8, 0x4cu8, 0x45u8]
    ||| b@ == seq![0x43u8, 0x4fu8, 0x4eu8, 0x4eu8]
}

/// Apart from the six HTTP method words, which all begin with an ASCII
/// letter, the protocol is decided by the first byte alone: 0x16 is TLS
/// (HTTPS), 0x05 SOCKS5 and 0x04 SOCKS4 whatever the other three bytes hold,
/// and two buffers with the same first byte that are not HTTP words get the
/// same protocol.
pub proof fn lemma_protocol_by_first_byte(b: [u8; 4], c: [u8; 4])
    ensures
        is_http_word(b) ==> detect_protocol_spec(b) == ProxyProtocol::HTTP,
        is_http_word(b) ==> 0x41 <= b[0] <= 0x5a,
        b[0] == 0x16 ==> detect_protocol_spec(b) == ProxyProtocol::HTTPS,
        b[0] == 0x05 ==> detect_protocol_spec(b) == ProxyProtocol::SOCKS5,
        b[0] == 0x04 ==> detect_protocol_spec(b) == ProxyProtocol::SOCKS4,
        !is_http_word(b) && !is_http_word(c) && b[0] == c[0] ==> detect_protocol_spec(b)
            == detect_protocol_spec(c),
{
    if is_http_word(b) {
        assert(b[0] == b@[0]);
    }
}

fn is_word(b: &[u8; 4], w0: u8, w1: u8, w2: u8, w3: u8) -> (r: bool)
    ensures
        r == bytes_are(*b, seq![w0, w1, w2, w3]),
{
    let r = b[0] == w0 && b[1] == w1 && b[2] == w2 && b[3] == w3;
    proof {
        if r {
            assert(b@ =~= seq![w0, w1, w2, w3]);
        }
        if b@ == seq![w0, w1, w2, w3] {
            assert(b@[0] == w0 && b@[1] == w1 && b@[2] == w2 && b@[3] == w3);
        }
    }
    r
}

/// Classifies a connection by its first four bytes.
pub fn detect_protocol(peek_buf: &[u8; 4]) -> (r: ProxyProtocol)
    ensures
        r == detect_protocol_spec(*peek_buf),
        peek_buf[0] == 0x16 ==> r == ProxyProtocol::HTTPS,
        peek_buf[0] == 0x05 ==> r == ProxyProtocol::SOCKS5,
        peek_buf[0] == 0x04 ==> r == ProxyProtocol::SOCKS4,
{
    if is_word(peek_buf, 0x47, 0x45, 0x54, 0x20) || is_word(peek_buf, 0x50, 0x4f, 0x53, 0x54)
        || is_word(peek_buf, 0x50, 0x55, 0x54, 0x20) || is_word(peek_buf, 0x48, 0x45, 0x41, 0x44)
        || is_word(peek_buf, 0x44, 0x45, 0x4c, 0x45) || is_word(peek_buf, 0x43, 0x4f, 0x4e, 0x4e) {
        return ProxyProtocol::HTTP;
    }
    if peek_buf[0] == 0x16 {
        return ProxyProtocol::HTTPS;
    }
    if peek_buf[0] == 0x05 {
        return ProxyProtocol::SOCKS5;
    }
    if peek_buf[0] == 0x04 {
        return ProxyProtocol::SOCKS4;
    }
    ProxyProtocol::TCP
}

/// The protocol of a connection whose first bytes were peeked (`Some`), or
/// that sent nothing in time (`None`): raw TCP when nothing came.
pub fn protocol_after_peek(peeked: Option<[u8; 4]>) -> (r: ProxyProtocol)
    ensures
        r == match peeked {
            Some(b) => detect_protocol_spec(b),
            None => ProxyProtocol::TCP,
        },
{
    match peeked {
        Some(b) => detect_protocol(&b),
        None => ProxyProtocol::TCP,
    }
}

/// Whether the connection must first be upgraded to TLS (HTTPS clients).
pub fn needs_tls_upgrade(protocol: ProxyProtocol) -> (r: bool)
    ensures
        r == (protocol == ProxyProtocol::HTTPS),
{
    match protocol {
        ProxyProtocol::HTTPS => true,
        _ => false,
    }
}

/// How a client of each protocol proves its identity.
#[derive(Debug, Clone, Copy, PartialEq, Eq, Structural)]
pub enum AuthScheme {
    /// `Proxy-Authorization: Basic` (HTTP and HTTPS).
    HttpBasic,
    /// SOCKS5 username/password negotiation.
    Socks5UserPass,
    /// The SOCKS4 user id.
    Socks4UserId,
    /// The protocol cannot carry credentials; the client is turned away.
    Unsupported,
}

/// The authentication scheme for a protocol.
pub open spec fn auth_scheme_spec(protocol: ProxyProtocol) -> AuthScheme {
    match protocol {
        ProxyProtocol::HTTP | ProxyProtocol::HTTPS => AuthScheme::HttpBasic,
        ProxyProtocol::SOCKS5 => AuthScheme::Socks5UserPass,
        ProxyProtocol::SOCKS4 => AuthScheme::Socks4UserId,
        ProxyProtocol::TCP => AuthScheme::Unsupported,
    }
}

/// Whether a client goes on past the authentication step: always when no
/// credentials are required; otherwise only when the exchange completed and
/// accepted the client (`Some(true)`), not when it refused (`Some(false)`) or
/// failed (`None`).
pub fn proceed_after_auth(require_creds: bool, outcome: Option<bool>) -> (r: bool)
    ensures
        r == (!require_creds || outcome == Some(true)),
{
    if !require_creds {
        return true;
    }
    match outcome {
        Some(accepted) => accepted,
        None => false,
    }
}

/// Chooses how a client of `protocol` is authenticated when credentials are required.
pub fn auth_scheme(protocol: ProxyProtocol) -> (r: AuthScheme)
    ensures
        r == auth_scheme_spec(protocol),
{
    match protocol {
        ProxyProtocol::HTTP | ProxyProtocol::HTTPS => AuthScheme::HttpBasic,
        ProxyProtocol::SOCKS5 => AuthScheme::Socks5UserPass,
        ProxyProtocol::SOCKS4 => AuthScheme::Socks4UserId,
        ProxyProtocol::TCP => AuthScheme::Unsupported,
    }
}

/// The stage at which serving a client failed.
#[derive(Debug, Clone, Copy, PartialEq, Eq, Structural)]
pub enum ErrorType {
    Handshake,
    Connection,
    Response,
    Timeout,
    Tunnel,
}

/// The name of a failure stage, as logged.
pub open spec fn error_label_spec(e: ErrorType) -> Seq<char> {
    match e {
        ErrorType::Handshake => "handshake"@,
        ErrorType::Connection => "connection"@,
        ErrorType::Response => "response"@,
        ErrorType::Timeout => "timeout"@,
        ErrorType::Tunnel => "tunnel"@,
    }
}

impl ErrorType {
    /// The stage's name, as logged.
    pub fn label(&self) -> (r: String)
        ensures
            r@ == error_label_spec(*self),
    {
        let s: &str = match *self {
            ErrorType::Handshake => "handshake",
            ErrorType::Connection => "connection",
            ErrorType::Response => "response",
            ErrorType::Timeout => "timeout",
            ErrorType::Tunnel => "tunnel",
        };
        let v = str_chars(s);
        chars_to_string(&v)
    }
}

/// Whether a failure is reported to the client: every failure but one inside
/// an established tunnel.
pub fn should_report_error(error_type: ErrorType) -> (r: bool)
    ensures
        r == (error_type != ErrorType::Tunnel),
{
    match error_type {
        ErrorType::Tunnel => false,
        _ => true,
    }
}

/// The bytes that tell a client its request failed: an HTTP status line for
/// handshake (400), connection (502) and timeout (504) failures of HTTP
/// clients, the SOCKS failure reply for SOCKS clients, nothing otherwise.
pub open spec fn error_response_spec(protocol: ProxyProtocol, error_type: ErrorType) -> Option<Seq<u8>> {
    match (protocol, error_type) {
        (ProxyProtocol::HTTP, ErrorType::Handshake) => Some(
            encode_utf8("HTTP/1.1 400 Bad Request\r\n\r\n"@),
        ),
        (ProxyProtocol::HTTP, ErrorType::Connection) => Some(
            encode_utf8("HTTP/1.1 502 Bad Gateway\r\n\r\n"@),
        ),
        (ProxyProtocol::HTTP, ErrorType::Timeout) => Some(
            encode_utf8("HTTP/1.1 504 Gateway Timeout\r\n\r\n"@),
        ),
        (ProxyProtocol::SOCKS4, _) => Some(seq![0u8, 0x5bu8, 0u8, 0u8, 0u8, 0u8, 0u8, 0u8]),
        (ProxyProtocol::SOCKS5, _) => Some(
            seq![5u8, 1u8, 0u8, 1u8, 0u8, 0u8, 0u8, 0u8, 0u8, 0u8],
        ),
        _ => None,
    }
}

fn array_to_vec<const N: usize>(a: &[u8; N]) -> (r: Vec<u8>)
    ensures
        r@ == a@,
{
    let mut r: Vec<u8> = Vec::new();
    let mut i: usize = 0;
    while i < N
        invariant
            i <= N,
            a@.len() == N,
            r@ == a@.take(i as int),
        decreases N - i,
    {
        r.push(a[i]);
        proof {
            assert(a@.take(i + 1) == a@.take(i as int).push(a@[i as int]));
        }
        i = i + 1;
    }
    proof {
        assert(a@.take(N as int) == a@);
    }
    r
}

/// The failure response owed to a client, if any.
pub fn error_response(protocol: ProxyProtocol, error_type: ErrorType) -> (r: Option<Vec<u8>>)
    ensures
        match (r, error_response_spec(protocol, error_type)) {
            (None, None) => true,
            (Some(v), Some(s)) => v@ == s,
            _ => false,
        },
{
    match (protocol, error_type) {
        (ProxyProtocol::HTTP, ErrorType::Handshake) => Some(
            "HTTP/1.1 400 Bad Request\r\n\r\n".as_bytes_vec(),
        ),
        (ProxyProtocol::HTTP, ErrorType::Connection) => Some(
            "HTTP/1.1 502 Bad Gateway\r\n\r\n".as_bytes_vec(),
        ),
        (ProxyProtocol::HTTP, ErrorType::Timeout) => Some(
            "HTTP/1.1 504 Gateway Timeout\r\n\r\n".as_bytes_vec(),
        ),
        (ProxyProtocol::SOCKS4, _) => Some(array_to_vec(&socks4_response(false))),
        (ProxyProtocol::SOCKS5, _) => Some(array_to_vec(&socks5_response(false))),
        _ => None,
    }
}

/// The bytes that tell a client its tunnel is established: the HTTP 200 reply
/// for HTTP clients, the SOCKS success reply for SOCKS clients, nothing otherwise.
pub open spec fn success_response_spec(protocol: ProxyProtocol) -> Option<Seq<u8>> {
    match protocol {
        ProxyProtocol::HTTP => Some(encode_utf8("HTTP/1.1 200 OK\r\n\r\n"@)),
        ProxyProtocol::SOCKS4 => Some(seq![0u8, 0x5au8, 0u8, 0u8, 0u8, 0u8, 0u8, 0u8]),
        ProxyProtocol::SOCKS5 => Some(seq![5u8, 0u8, 0u8, 1u8, 0u8, 0u8, 0u8, 0u8, 0u8, 0u8]),
        _ => None,
    }
}

/// The success response owed to a client once its target is connected, if any.
pub fn success_response(protocol: ProxyProtocol) -> (r: Option<Vec<u8>>)
    ensures
        match (r, success_response_spec(protocol)) {
            (None, None) => true,
            (Some(v), Some(s)) => v@ == s,
            _ => false,
        },
{
    match protocol {
        ProxyProtocol::HTTP => Some(http_connect_response()),
        ProxyProtocol::SOCKS4 => Some(array_to_vec(&socks4_response(true))),
        ProxyProtocol::SOCKS5 => Some(array_to_vec(&socks5_response(true))),
        _ => None,
    }
}

/// The `407 Proxy Authentication Required` response asking for Basic credentials.
pub fn http_auth_required_response() -> (r: Vec<u8>)
    ensures
        r@ == encode_utf8(
            "HTTP/1.1 407 Proxy Authentication Required\r\nProxy-Authenticate: Basic realm=\"Proxy\"\r\nContent-Length: 0\r\nConnection: close\r\n\r\n"@,
        ),
{
    "HTTP/1.1 407 Proxy Authentication Required\r\nProxy-Authenticate: Basic realm=\"Proxy\"\r\nContent-Length: 0\r\nConnection: close\r\n\r\n".as_bytes_vec()
}

} // verus!
