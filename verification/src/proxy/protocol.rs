//! Protocols a client may speak to the proxy, and the target it asks for.
use vstd::prelude::*;

use crate::text::{decimal, push_decimal, str_chars, chars_to_string};

verus! {

/// The protocol detected on an incoming client connection.
#[derive(Debug, Clone, Copy, PartialEq, Eq, Structural)]
pub enum ProxyProtocol {
    TCP,
    HTTP,
    HTTPS,
    SOCKS4,
    SOCKS5,
}

/// The display name of a protocol.
pub open spec fn protocol_name(p: ProxyProtocol) -> Seq<char> {
    match p {
        ProxyProtocol::TCP => "TCP"@,
        ProxyProtocol::HTTP => "HTTP"@,
        ProxyProtocol::HTTPS => "HTTPS"@,
        ProxyProtocol::SOCKS4 => "SOCKS4"@,
        ProxyProtocol::SOCKS5 => "SOCKS5"@,
    }
}

impl ProxyProtocol {
    /// The protocol's display name (`TCP`, `HTTP`, `HTTPS`, `SOCKS4`, `SOCKS5`).
    pub fn name(&self) -> (r: String)
        ensures
            r@ == protocol_name(*self),
    {
        let s: &str = match *self {
            ProxyProtocol::TCP => "TCP",
            ProxyProtocol::HTTP => "HTTP",
            ProxyProtocol::HTTPS => "HTTPS",
            ProxyProtocol::SOCKS4 => "SOCKS4",
            ProxyProtocol::SOCKS5 => "SOCKS5",
        };
        let v = str_chars(s);
        chars_to_string(&v)
    }
}

/// A destination the client asked the proxy to connect to.
#[derive(Debug, Clone, PartialEq, Eq)]
pub struct ProxyTarget {
    pub host: String,
    pub port: u16,
}

/// `host:port`, the address the proxy dials for a target.
pub open spec fn authority(host: Seq<char>, port: u16) -> Seq<char> {
    host + seq![':'] + decimal(port as nat)
}

impl ProxyTarget {
    /// The target as `host:port`.
    pub fn authority(&self) -> (r: String)
        ensures
            r@ == authority(self.host@, self.port),
    {
        let mut v = str_chars(self.host.as_str());
        v.push(':');
        push_decimal(self.port as u64, &mut v);
        chars_to_string(&v)
    }
}

} // verus!
