//! Errors of the proxy's own connections to upstream servers.
use vstd::prelude::*;

verus! {

/// What went wrong talking to a client or an upstream proxy.
#[derive(Debug, Clone, PartialEq, Eq)]
pub enum ProxyError {
    ConnectionRefused,
    /// Not supported by SOCKS4.
    IPv6NotSupported,
    InternalError,
    BadRequest,
    Timeout,
    PayloadTooLarge,
    /// The upstream answered something unusable; the message says what.
    BadGateway(String),
    /// The peer went away; the message says where.
    Disconnected(String),
}

} // verus!
