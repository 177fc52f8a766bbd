//! The fixed replies the proxy sends to clients.
use vstd::prelude::*;
use vstd::utf8::encode_utf8;

verus! {

/// The reply to a successful HTTP `CONNECT`: `HTTP/1.1 200 OK` and an empty line.
pub fn http_connect_response() -> (r: Vec<u8>)
    ensures
        r@ == encode_utf8("HTTP/1.1 200 OK\r\n\r\n"@),
{
    "HTTP/1.1 200 OK\r\n\r\n".as_bytes_vec()
}

/// The 8-byte SOCKS4 reply `VN CD DSTPORT DSTIP`: version 0, code 0x5A on
/// success or 0x5B on failure, and a zero port and address.
pub fn socks4_response(success: bool) -> (r: [u8; 8])
    ensures
        r@ == seq![0u8, if success { 0x5au8 } else { 0x5bu8 }, 0u8, 0u8, 0u8, 0u8, 0u8, 0u8],
{
    if success {
        [0x00, 0x5a, 0x00, 0x00, 0x00, 0x00, 0x00, 0x00]
    } else {
        [0x00, 0x5b, 0x00, 0x00, 0x00, 0x00, 0x00, 0x00]
    }
}

/// The 10-byte SOCKS5 reply `VER REP RSV ATYP BND.ADDR BND.PORT`: version 5,
/// code 0 on success or 1 (general failure), an IPv4 address type and a zero
/// address and port.
pub fn socks5_response(success: bool) -> (r: [u8; 10])
    ensures
        r@ == seq![5u8, if success { 0u8 } else { 1u8 }, 0u8, 1u8, 0u8, 0u8, 0u8, 0u8, 0u8, 0u8],
{
    if success {
        [0x05, 0x00, 0x00, 0x01, 0x00, 0x00, 0x00, 0x00, 0x00, 0x00]
    } else {
        [0x05, 0x01, 0x00, 0x01, 0x00, 0x00, 0x00, 0x00, 0x00, 0x00]
    }
}

} // verus!
