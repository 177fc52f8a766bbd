//! Verified core of a small multi-protocol proxy: protocol detection,
//! handshake parsing, authentication decisions, connection bookkeeping
//! and reverse-tunnel port allocation.

pub mod addr;
pub mod connection;
pub mod error;
pub mod proxy;
pub mod runtime;
pub mod stream;
pub mod text;
pub mod tls;
pub mod tunnel;
pub mod utils;
