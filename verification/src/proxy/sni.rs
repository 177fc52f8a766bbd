//! Locating the server name a TLS client hello asks for.
use vstd::prelude::*;
use vstd::utf8::{decode_utf8, valid_utf8};

use super::protocol::ProxyTarget;
use crate::text::{chars_to_string, str_chars, utf8_to_string};

verus! {

/// Whether a server-name entry may start at `i`: four zero bytes, a length
/// byte at `i + 9`, and that many bytes of UTF-8 from `i + 10` within the data.
pub open spec fn sni_candidate(d: Seq<u8>, i: int) -> bool {
    &&& d[i] == 0 && d[i + 1] == 0 && d[i + 2] == 0 && d[i + 3] == 0
    &&& i + 10 + d[i + 9] <= d.len()
    &&& valid_utf8(d.subrange(i + 10, i + 10 + d[i + 9]))
}

/// The name at the first candidate position from `i` on, scanning the
/// positions below `d.len() - 10`.
pub open spec fn sni_scan(d: Seq<u8>, i: int) -> Option<Seq<char>>
    decreases d.len() - i,
{
    if i < 0 || i + 10 >= d.len() {
        None
    } else if sni_candidate(d, i) {
        Some(decode_utf8(d.subrange(i + 10, i + 10 + d[i + 9])))
    } else {
        sni_scan(d, i + 1)
    }
}

/// The server name found in a TLS record: none unless the record is at least
/// 43 bytes long and starts with the handshake content type 0x16.
pub open spec fn sni_spec(d: Seq<u8>) -> Option<Seq<char>> {
    if d.len() < 43 || d[0] != 0x16 {
        None
    } else {
        sni_scan(d, 0)
    }
}

fn copy_range(data: &[u8], from: usize, to: usize) -> (r: Vec<u8>)
    requires
        from <= to <= data@.len(),
    ensures
        r@ == data@.subrange(from as int, to as int),
{
    let mut r: Vec<u8> = Vec::new();
    let mut k = from;
    while k < to
        invariant
            from <= k <= to <= data@.len(),
            r@ == data@.subrange(from as int, k as int),
        decreases to - k,
    {
        r.push(data[k]);
        k = k + 1;
    }
    r
}

/// Finds the server name in a TLS client hello by a simple scan: the first
/// position below `len - 10` that starts four zero bytes and is followed, at
/// offset 9, by a length byte and that many bytes of UTF-8.
pub fn extract_sni_from_tls(data: &[u8]) -> (r: Option<String>)
    ensures
        match (r, sni_spec(data@)) {
            (None, None) => true,
            (Some(h), Some(hs)) => h@ == hs,
            _ => false,
        },
{
    if data.len() < 43 || data[0] != 0x16 {
        return None;
    }
    let end = data.len() - 10;
    let mut i: usize = 0;
    while i < end
        invariant
            data@.len() >= 43,
            end == data@.len() - 10,
            i <= end,
            sni_spec(data@) == sni_scan(data@, i as int),
        decreases end - i,
    {
        if data[i] == 0 && data[i + 1] == 0 && data[i + 2] == 0 && data[i + 3] == 0 {
            let len_pos = i + 9;
            let name_len = data[len_pos] as usize;
            let name_start = len_pos + 1;
            if name_len <= data.len() - name_start {
                let name = copy_range(data, name_start, name_start + name_len);
                if let Some(hostname) = utf8_to_string(name) {
                    return Some(hostname);
                }
            }
        }
        i = i + 1;
    }
    None
}

/// The target of an HTTPS client: the server name of its hello, or
/// `unknown.host` when none is found, always on port 443.
pub fn https_target(data: &[u8]) -> (r: ProxyTarget)
    ensures
        r.port == 443,
        r.host@ == match sni_spec(data@) {
            Some(h) => h,
            None => "unknown.host"@,
        },
{
    match extract_sni_from_tls(data) {
        Some(host) => ProxyTarget { host, port: 443 },
        None => {
            let v = str_chars("unknown.host");
            ProxyTarget { host: chars_to_string(&v), port: 443 }
        },
    }
}

} // verus!
