//! Socket addresses of peers, as plain values.
use vstd::prelude::*;

verus! {

/// A peer's socket address: an IPv4 or IPv6 address with a port.
#[derive(Debug, Clone, Copy, PartialEq, Eq)]
#[allow(inconsistent_fields)]
pub enum SocketAddress {
    V4 { ip: [u8; 4], port: u16 },
    V6 { ip: [u8; 16], port: u16, flowinfo: u32, scope_id: u32 },
}

} // verus!
