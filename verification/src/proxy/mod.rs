//! The forward proxy: protocol detection, handshake parsing, authentication.

pub mod protocol;
pub mod target;
pub mod sni;
pub mod auth;
pub mod listener;
pub mod relay;
