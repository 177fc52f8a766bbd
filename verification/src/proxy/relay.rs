//! Opening a tunnel through an upstream HTTP proxy with `CONNECT`.
use vstd::prelude::*;
use vstd::utf8::encode_utf8;

use super::protocol::{ProxyTarget, authority};
use super::target::{TargetError, lemma_connect_target_roundtrip, request_line_spec};
use super::listener::success_response_spec;
use super::protocol::ProxyProtocol;
use crate::error::ProxyError;
use crate::text::{
    chars_to_string, decimal, is_digit, is_whitespace, lemma_decimal_digits, lemma_skip_ws_at,
    lemma_token_end_at, push_decimal, skip_ws, str_chars, token_end,
};

verus! {

/// The text of the `CONNECT host:port` request sent to an upstream proxy.
pub open spec fn connect_request_text(host: Seq<char>, port: u16) -> Seq<char> {
    "CONNECT "@ + host + seq![':'] + decimal(port as nat) + " HTTP/1.1\r\n\r\n"@
}

fn push_str(v: &mut Vec<char>, s: &str)
    ensures
        final(v)@ == old(v)@ + s@,
{
    let cs = str_chars(s);
    let mut i: usize = 0;
    while i < cs.len()
        invariant
            i <= cs.len(),
            cs@ == s@,
            v@ == old(v)@ + cs@.take(i as int),
        decreases cs.len() - i,
    {
        v.push(cs[i]);
        proof {
            assert(cs@.take(i + 1) == cs@.take(i as int).push(cs@[i as int]));
        }
        i = i + 1;
    }
    proof {
        assert(cs@.take(cs.len() as int) == cs@);
    }
}

/// The bytes of the `CONNECT` request for a target.
pub fn connect_request(target: &ProxyTarget) -> (r: Vec<u8>)
    ensures
        r@ == encode_utf8(connect_request_text(target.host@, target.port)),
{
    let mut v: Vec<char> = Vec::new();
    push_str(&mut v, "CONNECT ");
    push_str(&mut v, target.host.as_str());
    v.push(':');
    push_decimal(target.port as u64, &mut v);
    push_str(&mut v, " HTTP/1.1\r\n\r\n");
    proof {
        assert(v@ =~= connect_request_text(target.host@, target.port));
    }
    let text = chars_to_string(&v);
    text.as_str().as_bytes_vec()
}

/// Whether `b[i..i + 4]` is `\r\n\r\n`.
pub open spec fn blank_line_at(b: Seq<u8>, i: int) -> bool {
    b[i] == 13 && b[i + 1] == 10 && b[i + 2] == 13 && b[i + 3] == 10
}

/// The first position at or after `i` where `\r\n\r\n` starts.
pub open spec fn blank_line_from(b: Seq<u8>, i: int) -> Option<int>
    decreases b.len() - i,
{
    if i < 0 || i + 4 > b.len() {
        None
    } else if blank_line_at(b, i) {
        Some(i)
    } else {
        blank_line_from(b, i + 1)
    }
}

/// A blank line found from `i` on starts at or after `i` and fits in `b`.
proof fn lemma_blank_line_from_bounds(b: Seq<u8>, i: int)
    ensures
        blank_line_from(b, i) matches Some(k) ==> i <= k && k + 4 <= b.len(),
    decreases b.len() - i,
{
    if 0 <= i && i + 4 <= b.len() && !blank_line_at(b, i) {
        lemma_blank_line_from_bounds(b, i + 1);
    }
}

/// Where the response headers received so far end: nothing until more than
/// four bytes arrived; the whole buffer when it ends in `\r\n\r\n`; else just
/// past the first `\r\n\r\n`, if any.
pub open spec fn header_end_spec(b: Seq<u8>) -> Option<int> {
    if b.len() <= 4 {
        None
    } else if blank_line_at(b, b.len() - 4) {
        Some(b.len() as int)
    } else {
        match blank_line_from(b, 0) {
            Some(i) => Some(i + 4),
            None => None,
        }
    }
}

/// Whether the response starts with the status line `HTTP/1.1 200 OK`.
pub open spec fn response_ok(b: Seq<u8>) -> bool {
    let status = encode_utf8("HTTP/1.1 200 OK"@);
    b.len() >= status.len() && b.take(status.len() as int) == status
}

/// Accumulates an upstream proxy's reply to `CONNECT` until its headers end.
pub struct ConnectResponseReader {
    buffer: Vec<u8>,
}

impl ConnectResponseReader {
    /// The bytes received so far.
    pub closed spec fn received(&self) -> Seq<u8> {
        self.buffer@
    }

    /// A reader that has received nothing.
    pub fn new() -> (r: Self)
        ensures
            r.received() == Seq::<u8>::empty(),
    {
        ConnectResponseReader { buffer: Vec::new() }
    }

    fn header_end(&self) -> (r: Option<usize>)
        ensures
            r matches Some(i) ==> i <= self.received().len(),
            match (r, header_end_spec(self.received())) {
                (None, None) => true,
                (Some(i), Some(j)) => i == j,
                _ => false,
            },
    {
        let b = &self.buffer;
        let len = b.len();
        proof {
            lemma_blank_line_from_bounds(b@, 0);
        }
        if len <= 4 {
            return None;
        }
        let s = len - 4;
        if b[s] == 13 && b[s + 1] == 10 && b[s + 2] == 13 && b[s + 3] == 10 {
            return Some(len);
        }
        let mut i: usize = 0;
        while i <= len - 4
            invariant
                len == b@.len(),
                len > 4,
                i <= len - 3,
                b@ == self.received(),
                !blank_line_at(b@, len - 4),
                blank_line_from(b@, 0) == blank_line_from(b@, i as int),
            decreases len - i,
        {
            if b[i] == 13 && b[i + 1] == 10 && b[i + 2] == 13 && b[i + 3] == 10 {
                return Some(i + 4);
            }
            i = i + 1;
        }
        None
    }

    /// Appends the next chunk read from the upstream proxy and tells where the
    /// headers end, once they have.
    pub fn feed(&mut self, chunk: &[u8]) -> (r: Option<usize>)
        ensures
            final(self).received() == old(self).received() + chunk@,
            r matches Some(i) ==> i <= final(self).received().len(),
            match (r, header_end_spec(final(self).received())) {
                (None, None) => true,
                (Some(i), Some(j)) => i == j,
                _ => false,
            },
    {
        let mut k: usize = 0;
        let ghost start = self.buffer@;
        while k < chunk.len()
            invariant
                k <= chunk@.len(),
                self.buffer@ == start + chunk@.take(k as int),
            decreases chunk@.len() - k,
        {
            self.buffer.push(chunk[k]);
            proof {
                assert(chunk@.take(k + 1) == chunk@.take(k as int).push(chunk@[k as int]));
            }
            k = k + 1;
        }
        proof {
            assert(chunk@.take(chunk@.len() as int) == chunk@);
        }
        self.header_end()
    }

    /// The outcome once the headers ended at `index`: a `200 OK` opens the
    /// tunnel with no early body bytes kept; anything else is a bad gateway.
    pub fn outcome(&self, index: usize) -> (r: Result<Vec<u8>, ProxyError>)
        requires
            index <= self.received().len(),
        ensures
            response_ok(self.received()) ==> (r matches Ok(v) && v@ == Seq::<u8>::empty()),
            !response_ok(self.received()) ==> (r matches Err(ProxyError::BadGateway(m)) && m@
                == "invalid response from proxy server"@),
    {
        let status = "HTTP/1.1 200 OK".as_bytes_vec();
        let b = &self.buffer;
        let mut ok = b.len() >= status.len();
        let mut i: usize = 0;
        if ok {
            while i < status.len()
                invariant
                    b@.len() >= status@.len(),
                    i <= status@.len(),
                    ok == (forall|j: int| 0 <= j < i ==> b@[j] == status@[j]),
                decreases status@.len() - i,
            {
                if b[i] != status[i] {
                    ok = false;
                }
                i = i + 1;
            }
            proof {
                if ok {
                    assert(b@.take(status@.len() as int) =~= status@);
                } else {
                    let j = choose|j: int| 0 <= j < status@.len() && b@[j] != status@[j];
                    assert(b@.take(status@.len() as int)[j] != status@[j]);
                }
            }
        }
        if ok {
            return Ok(Vec::new());
        }
        let m = str_chars("invalid response from proxy server");
        Err(ProxyError::BadGateway(chars_to_string(&m)))
    }
}

/// The `CONNECT` request this proxy sends upstream, read back by this proxy's
/// own request-line parser, names the same target, when the host holds no
/// `:` and no white space.
pub proof fn lemma_connect_request_parses_back(host: Seq<char>, port: u16)
    requires
        !host.contains(':'),
        forall|i: int| 0 <= i < host.len() ==> !is_whitespace(#[trigger] host[i]),
    ensures
        request_line_spec(connect_request_text(host, port)) == Ok::<(Seq<char>, u16), TargetError>(
            (host, port),
        ),
{
    reveal_strlit("CONNECT ");
    reveal_strlit("CONNECT");
    reveal_strlit(" HTTP/1.1\r\n\r\n");
    let s = connect_request_text(host, port);
    let d = decimal(port as nat);
    let n = s.len() as int;
    let h = host.len() as int;
    let e = 8 + h + 1 + d.len();
    lemma_decimal_digits(port as nat);
    assert(s[0] == 'C');
    lemma_skip_ws_at(s, 0, n, 0);
    assert forall|j: int| 0 <= j < 7 implies !is_whitespace(s[j]) by {
        assert(s[j] == "CONNECT "@[j]);
    }
    assert(s[7] == ' ');
    lemma_token_end_at(s, 0, n, 7);
    assert(s.subrange(0, 7) =~= "CONNECT"@);
    assert forall|j: int| 8 <= j < e implies !is_whitespace(s[j]) by {
        if j < 8 + h {
            assert(s[j] == host[j - 8]);
        } else if j == 8 + h {
            assert(s[j] == ':');
        } else {
            assert(s[j] == d[j - 9 - h]);
            assert(is_digit(d[j - 9 - h]));
        }
    }
    lemma_skip_ws_at(s, 7, n, 8);
    assert(s[e] == ' ');
    lemma_token_end_at(s, 8, n, e);
    assert(s.subrange(8, e) =~= authority(host, port));
    lemma_connect_target_roundtrip(host, port);
}

/// The reply this proxy sends an HTTP client whose tunnel is established,
/// read by this proxy's own `CONNECT` client, ends its headers at its last
/// byte and opens the tunnel.
pub proof fn lemma_own_connect_reply_accepted()
    ensures
        ({
            let reply = success_response_spec(ProxyProtocol::HTTP)->Some_0;
            &&& header_end_spec(reply) == Some(reply.len() as int)
            &&& response_ok(reply)
        }),
{
    reveal_strlit("HTTP/1.1 200 OK\r\n\r\n");
    reveal_strlit("HTTP/1.1 200 OK");
    let text = "HTTP/1.1 200 OK\r\n\r\n"@;
    let status = "HTTP/1.1 200 OK"@;
    assert(vstd::utf8::is_ascii_chars(text));
    assert(vstd::utf8::is_ascii_chars(status));
    vstd::utf8::is_ascii_chars_encode_utf8(text);
    vstd::utf8::is_ascii_chars_encode_utf8(status);
    let reply = encode_utf8(text);
    let ok = encode_utf8(status);
    assert(reply[15] == 13 && reply[16] == 10 && reply[17] == 13 && reply[18] == 10) by {
        assert(text[15] as u8 == reply[15]);
        assert(text[16] as u8 == reply[16]);
        assert(text[17] as u8 == reply[17]);
        assert(text[18] as u8 == reply[18]);
    }
    assert forall|i: int| 0 <= i < 15 implies reply.take(15)[i] == ok[i] by {
        assert(text[i] as u8 == reply[i]);
        assert(status[i] as u8 == ok[i]);
    }
    assert(reply.take(15) =~= ok);
}

} // verus!
