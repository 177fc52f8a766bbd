//! Authentication of proxy clients: HTTP `Proxy-Authorization: Basic`,
//! SOCKS4 user ids and SOCKS5 username/password.
use base64::Engine;
use vstd::prelude::*;
use vstd::utf8::{decode_utf8, encode_utf8, valid_utf8};

use crate::text::{
    lemma_find_from_at,
    find, find_from, index_of, index_of_from, skip_ws, skip_whitespace, slice_chars, str_chars,
    trim_end, trim_end_index, utf8_to_string,
};

verus! {

/// The credentials the proxy expects, and whether it asks for them at all.
#[derive(Debug, Clone, PartialEq, Eq)]
pub struct AuthSettings {
    pub require_creds: bool,
    pub username: Option<String>,
    pub password: Option<String>,
}

/// Why a client was not authenticated.
#[derive(Debug, Clone, Copy, PartialEq, Eq, Structural)]
pub enum AuthError {
    /// The authorization header does not use the Basic scheme.
    UnsupportedMethod,
    /// The Basic credentials are not valid base64.
    InvalidBase64,
    /// The decoded credentials are not UTF-8.
    InvalidUtf8,
    /// The decoded credentials hold no `:`.
    MissingPassword,
    /// The credentials do not match the configured ones.
    InvalidCredentials,
    /// The client closed the connection before sending a request.
    ConnectionClosed,
    /// An HTTP client did not present valid credentials (a 407 is owed).
    HttpAuthRequired,
    /// A SOCKS4 request whose version byte is not 4.
    InvalidSocks4Version,
    /// A SOCKS4 user id that does not match the configured username.
    Socks4AuthFailed,
    /// A SOCKS5 greeting whose version byte is not 5.
    InvalidSocksVersion,
    /// A SOCKS5 username/password request whose version byte is not 1.
    UnsupportedSocks5AuthVersion,
    /// A SOCKS5 username or password that is not UTF-8.
    Socks5CredentialsNotUtf8,
    /// SOCKS5 username and password that do not match the configured ones.
    Socks5AuthFailed,
    /// Credentials are required but the SOCKS5 client does not offer username/password.
    Socks5AuthNotSupported,
}

/// Whether `user` and `pass` are exactly the configured username and password
/// (both must be configured).
pub open spec fn credentials_match(user: Seq<char>, pass: Seq<char>, settings: AuthSettings) -> bool {
    match (settings.username, settings.password) {
        (Some(u), Some(p)) => u@ == user && p@ == pass,
        _ => false,
    }
}

fn chars_equal(a: &Vec<char>, b: &Vec<char>) -> (r: bool)
    ensures
        r == (a@ == b@),
{
    if a.len() != b.len() {
        return false;
    }
    let mut i: usize = 0;
    while i < a.len()
        invariant
            a.len() == b.len(),
            i <= a.len(),
            forall|j: int| 0 <= j < i ==> a@[j] == b@[j],
        decreases a.len() - i,
    {
        if a[i] != b[i] {
            return false;
        }
        i = i + 1;
    }
    proof {
        assert(a@ =~= b@);
    }
    true
}

fn str_equal(a: &str, b: &str) -> (r: bool)
    ensures
        r == (a@ == b@),
{
    let x = str_chars(a);
    let y = str_chars(b);
    chars_equal(&x, &y)
}

/// Checks a username and password against the configured ones.
pub fn validate_credentials(username: &str, password: &str, settings: &AuthSettings) -> (r: bool)
    ensures
        r == credentials_match(username@, password@, *settings),
{
    match (&settings.username, &settings.password) {
        (Some(user), Some(pass)) => {
            let username_ok = str_equal(user.as_str(), username);
            let password_ok = str_equal(pass.as_str(), password);
            username_ok && password_ok
        },
        _ => false,
    }
}

/// Checks a SOCKS4 user id against the configured username.
pub fn validate_socks4_user_id(user_id: &str, settings: &AuthSettings) -> (r: bool)
    ensures
        r == (settings.username matches Some(u) && u@ == user_id@),
{
    match &settings.username {
        Some(expected) => str_equal(expected.as_str(), user_id),
        None => false,
    }
}

/// What the base64 decoder of the `base64` crate's STANDARD engine gives for
/// `input`: the decoded bytes, or nothing for malformed input.
pub uninterp spec fn base64_standard_decoding(input: Seq<u8>) -> Option<Seq<u8>>;

/// `base64::Engine::decode` with `base64::engine::general_purpose::STANDARD`.
/// The result is named, not described: a function of the input bytes alone.
#[verifier::external_body]
fn base64_decode_standard(input: &[u8]) -> (r: Option<Vec<u8>>)
    ensures
        match r {
            Some(v) => base64_standard_decoding(input@) == Some(v@),
            None => base64_standard_decoding(input@) is None,
        },
{
    base64::engine::general_purpose::STANDARD.decode(input).ok()
}

/// What `String::from_utf8_lossy` gives for `bytes`: the text, with each
/// malformed sequence replaced by U+FFFD.
pub uninterp spec fn utf8_lossy_decoding(bytes: Seq<u8>) -> Seq<char>;

/// `String::from_utf8_lossy`, as an owned string. Well-formed UTF-8 is decoded
/// unchanged; how malformed input is replaced is named, not described.
#[verifier::external_body]
fn utf8_lossy(bytes: &[u8]) -> (r: String)
    ensures
        r@ == utf8_lossy_decoding(bytes@),
        valid_utf8(bytes@) ==> r@ == decode_utf8(bytes@),
{
    String::from_utf8_lossy(bytes).into_owned()
}

/// The outcome of checking decoded Basic credentials `username:password`.
pub open spec fn decoded_credentials_result(d: Seq<u8>, settings: AuthSettings) -> Result<(), AuthError> {
    if !valid_utf8(d) {
        Err(AuthError::InvalidUtf8)
    } else {
        let c = decode_utf8(d);
        let i = find(c, ':');
        if i == c.len() {
            Err(AuthError::MissingPassword)
        } else if credentials_match(c.take(i), c.skip(i + 1), settings) {
            Ok(())
        } else {
            Err(AuthError::InvalidCredentials)
        }
    }
}

/// The outcome of checking an authorization header value.
pub open spec fn auth_header_result(h: Seq<char>, settings: AuthSettings) -> Result<(), AuthError> {
    if !(h.len() >= 6 && h.take(6) == "Basic "@) {
        Err(AuthError::UnsupportedMethod)
    } else {
        match base64_standard_decoding(encode_utf8(h.skip(6))) {
            None => Err(AuthError::InvalidBase64),
            Some(d) => decoded_credentials_result(d, settings),
        }
    }
}

/// Checks decoded Basic credentials: UTF-8 text split at its first `:` into
/// username and password.
pub fn check_decoded_credentials(decoded: Vec<u8>, settings: &AuthSettings) -> (r: Result<
    (),
    AuthError,
>)
    ensures
        r == decoded_credentials_result(decoded@, *settings),
{
    let credentials = match utf8_to_string(decoded) {
        Some(c) => c,
        None => return Err(AuthError::InvalidUtf8),
    };
    let c = str_chars(credentials.as_str());
    let i = index_of(&c, ':');
    if i == c.len() {
        return Err(AuthError::MissingPassword);
    }
    let user = slice_chars(&c, 0, i);
    let pass = slice_chars(&c, i + 1, c.len());
    proof {
        assert(user@ == c@.take(i as int));
        assert(pass@ == c@.skip(i + 1));
    }
    let ok = match (&settings.username, &settings.password) {
        (Some(u), Some(p)) => {
            let uc = str_chars(u.as_str());
            let pc = str_chars(p.as_str());
            chars_equal(&uc, &user) && chars_equal(&pc, &pass)
        },
        _ => false,
    };
    if ok {
        Ok(())
    } else {
        Err(AuthError::InvalidCredentials)
    }
}

/// Checks the value of a `Proxy-Authorization` header: `Basic ` followed by
/// the base64 encoding of `username:password`.
pub fn validate_auth_header(auth_header: &str, settings: &AuthSettings) -> (r: Result<(), AuthError>)
    ensures
        r == auth_header_result(auth_header@, *settings),
{
    let h = str_chars(auth_header);
    proof {
        reveal_strlit("Basic ");
    }
    let is_basic = h.len() >= 6 && h[0] == 'B' && h[1] == 'a' && h[2] == 's' && h[3] == 'i' && h[4]
        == 'c' && h[5] == ' ';
    proof {
        if h@.len() >= 6 && h@.take(6) == "Basic "@ {
            assert(h@.take(6)[0] == 'B' && h@.take(6)[1] == 'a' && h@.take(6)[2] == 's'
                && h@.take(6)[3] == 'i' && h@.take(6)[4] == 'c' && h@.take(6)[5] == ' ');
        }
        if is_basic {
            assert(h@.take(6) =~= "Basic "@);
        }
    }
    if !is_basic {
        return Err(AuthError::UnsupportedMethod);
    }
    let encoded = auth_header.substring_char(6, h.len());
    let decoded = match base64_decode_standard(encoded.as_bytes()) {
        Some(d) => d,
        None => return Err(AuthError::InvalidBase64),
    };
    check_decoded_credentials(decoded, settings)
}

/// ASCII case-insensitive equality of `c` with `lower`, a lower-case pattern character.
pub open spec fn ascii_ci_eq(c: char, lower: char) -> bool {
    c == lower || ('a' <= lower <= 'z' && (c as u32) + 32 == (lower as u32))
}

/// Whether the line `s[a..b]` starts, ignoring ASCII case, with `pat`.
pub open spec fn line_starts_ci(s: Seq<char>, a: int, b: int, pat: Seq<char>) -> bool {
    &&& b - a >= pat.len()
    &&& forall|k: int| 0 <= k < pat.len() ==> ascii_ci_eq(#[trigger] s[a + k], pat[k])
}

/// The first line at or after `a` (lines end at `\n`) that starts with
/// `proxy-authorization:` in any ASCII case, as its bounds.
pub open spec fn auth_line_from(s: Seq<char>, a: int) -> Option<(int, int)>
    decreases s.len() - a,
{
    if a < 0 || a > s.len() {
        None
    } else {
        let b = find_from(s, '\n', a);
        if line_starts_ci(s, a, b, "proxy-authorization:"@) {
            Some((a, b))
        } else if b >= s.len() {
            None
        } else {
            proof {
                crate::text::lemma_find_from_bounds(s, '\n', a);
            }
            auth_line_from(s, b + 1)
        }
    }
}

/// Where `s[i..end]` starts once every leading copy of `pat` is removed.
pub open spec fn strip_prefixes(s: Seq<char>, pat: Seq<char>, i: int, end: int) -> int
    decreases end - i,
{
    if pat.len() > 0 && i + pat.len() <= end && s.subrange(i, i + pat.len()) == pat {
        strip_prefixes(s, pat, i + pat.len(), end)
    } else {
        i
    }
}

/// The value of the first `Proxy-Authorization` header line: the line with
/// leading copies of `Proxy-Authorization:` (in that exact case) removed and
/// surrounding white space trimmed.
pub open spec fn auth_header_spec(s: Seq<char>) -> Option<Seq<char>> {
    match auth_line_from(s, 0) {
        None => None,
        Some((a, b)) => {
            let x0 = strip_prefixes(s, "Proxy-Authorization:"@, a, b);
            let x = skip_ws(s, x0, b);
            Some(s.subrange(x, trim_end(s, x, b)))
        },
    }
}

proof fn lemma_strip_prefixes_bounds(s: Seq<char>, pat: Seq<char>, i: int, end: int)
    requires
        0 <= i <= end <= s.len(),
    ensures
        i <= strip_prefixes(s, pat, i, end) <= end,
    decreases end - i,
{
    if pat.len() > 0 && i + pat.len() <= end && s.subrange(i, i + pat.len()) == pat {
        lemma_strip_prefixes_bounds(s, pat, i + pat.len(), end);
    }
}

fn line_starts_ci_exec(s: &Vec<char>, a: usize, b: usize, pat: &Vec<char>) -> (r: bool)
    requires
        a <= b <= s.len(),
    ensures
        r == line_starts_ci(s@, a as int, b as int, pat@),
{
    if b - a < pat.len() {
        return false;
    }
    let mut k: usize = 0;
    while k < pat.len()
        invariant
            a <= b <= s.len(),
            b - a >= pat.len(),
            k <= pat.len(),
            forall|j: int| 0 <= j < k ==> ascii_ci_eq(#[trigger] s@[a + j], pat@[j]),
        decreases pat.len() - k,
    {
        let c = s[a + k];
        let l = pat[k];
        if !(c == l || ('a' <= l && l <= 'z' && (c as u32) == (l as u32) - 32)) {
            proof {
                assert(!ascii_ci_eq(s@[a + k], pat@[k as int]));
            }
            return false;
        }
        k = k + 1;
    }
    true
}

fn strip_prefixes_exec(s: &Vec<char>, pat: &Vec<char>, i: usize, end: usize) -> (r: usize)
    requires
        i <= end <= s.len(),
    ensures
        r == strip_prefixes(s@, pat@, i as int, end as int),
        i <= r <= end,
{
    proof {
        lemma_strip_prefixes_bounds(s@, pat@, i as int, end as int);
    }
    let mut k = i;
    loop
        invariant
            i <= k <= end <= s.len(),
            strip_prefixes(s@, pat@, i as int, end as int) == strip_prefixes(
                s@,
                pat@,
                k as int,
                end as int,
            ),
        decreases end - k,
    {
        if pat.len() == 0 || pat.len() > end - k {
            return k;
        }
        let mut j: usize = 0;
        let mut same = true;
        while j < pat.len()
            invariant
                k + pat.len() <= end <= s.len(),
                j <= pat.len(),
                same == (forall|t: int| 0 <= t < j ==> s@[k + t] == pat@[t]),
            decreases pat.len() - j,
        {
            if s[k + j] != pat[j] {
                same = false;
            }
            j = j + 1;
        }
        proof {
            if same {
                assert(s@.subrange(k as int, k + pat.len()) =~= pat@);
            } else {
                let t = choose|t: int| 0 <= t < pat.len() && s@[k + t] != pat@[t];
                assert(s@.subrange(k as int, k + pat.len())[t] != pat@[t]);
            }
        }
        if !same {
            return k;
        }
        k = k + pat.len();
    }
}

/// Finds the value of the first `Proxy-Authorization` header in a request:
/// the first line starting, ignoring ASCII case, with `proxy-authorization:`,
/// with leading copies of `Proxy-Authorization:` removed and white space trimmed.
pub fn extract_proxy_auth_header(request_data: &str) -> (r: Option<&str>)
    ensures
        match (r, auth_header_spec(request_data@)) {
            (None, None) => true,
            (Some(v), Some(vs)) => v@ == vs,
            _ => false,
        },
{
    let s = str_chars(request_data);
    let lower = str_chars("proxy-authorization:");
    let exact = str_chars("Proxy-Authorization:");
    let mut a: usize = 0;
    loop
        invariant
            s@ == request_data@,
            lower@ == "proxy-authorization:"@,
            exact@ == "Proxy-Authorization:"@,
            a <= s.len(),
            auth_line_from(s@, 0) == auth_line_from(s@, a as int),
        decreases s.len() - a,
    {
        let b = index_of_from(&s, '\n', a);
        if line_starts_ci_exec(&s, a, b, &lower) {
            let x0 = strip_prefixes_exec(&s, &exact, a, b);
            let x = skip_whitespace(&s, x0, b);
            let y = trim_end_index(&s, x, b);
            return Some(request_data.substring_char(x, y));
        }
        if b >= s.len() {
            return None;
        }
        a = b + 1;
    }
}

/// Whether an HTTP request text carries a valid `Proxy-Authorization` header.
pub open spec fn http_text_authorized(text: Seq<char>, settings: AuthSettings) -> bool {
    match auth_header_spec(text) {
        Some(h) => auth_header_result(h, settings) is Ok,
        None => false,
    }
}

/// Whether an HTTP request text carries valid Basic proxy credentials.
pub fn authorize_http_text(text: &str, settings: &AuthSettings) -> (r: bool)
    ensures
        r == http_text_authorized(text@, *settings),
{
    match extract_proxy_auth_header(text) {
        Some(header) => validate_auth_header(header, settings).is_ok(),
        None => false,
    }
}

/// Decides on the first bytes an HTTP(S) client sent: an empty read means the
/// client left; otherwise the text (decoded leniently) must carry valid
/// credentials, and a client without them is owed a 407 response.
pub fn authorize_http_request(request: &[u8], settings: &AuthSettings) -> (r: Result<(), AuthError>)
    ensures
        request@.len() == 0 ==> r == Err::<(), AuthError>(AuthError::ConnectionClosed),
        request@.len() > 0 ==> r == (if http_text_authorized(
            utf8_lossy_decoding(request@),
            *settings,
        ) {
            Ok(())
        } else {
            Err(AuthError::HttpAuthRequired)
        }),
{
    if request.len() == 0 {
        return Err(AuthError::ConnectionClosed);
    }
    let text = utf8_lossy(request);
    if authorize_http_text(text.as_str(), settings) {
        Ok(())
    } else {
        Err(AuthError::HttpAuthRequired)
    }
}

/// Collects a NUL-terminated field (such as a SOCKS4 user id) byte by byte.
pub struct NulTerminated {
    bytes: Vec<u8>,
    complete: bool,
}

impl NulTerminated {
    pub closed spec fn collected(&self) -> Seq<u8> {
        self.bytes@
    }

    pub closed spec fn is_complete(&self) -> bool {
        self.complete
    }

    /// An empty field, still open.
    pub fn new() -> (r: Self)
        ensures
            r.collected() == Seq::<u8>::empty(),
            !r.is_complete(),
    {
        NulTerminated { bytes: Vec::new(), complete: false }
    }

    /// Takes the next byte; a zero byte ends the field and is not kept.
    /// Returns whether the field is complete.
    pub fn feed(&mut self, byte: u8) -> (done: bool)
        requires
            !old(self).is_complete(),
        ensures
            done == (byte == 0),
            final(self).is_complete() == done,
            final(self).collected() == if done {
                old(self).collected()
            } else {
                old(self).collected().push(byte)
            },
    {
        if byte == 0 {
            self.complete = true;
            return true;
        }
        self.bytes.push(byte);
        false
    }

    /// The bytes collected before the terminator.
    pub fn into_bytes(self) -> (r: Vec<u8>)
        ensures
            r@ == self.collected(),
    {
        self.bytes
    }
}

/// Checks the version byte of a SOCKS4 request being authenticated.
pub fn socks4_check_version(request: &[u8; 8]) -> (r: Result<(), AuthError>)
    ensures
        request[0] == 4 ==> r is Ok,
        request[0] != 4 ==> r == Err::<(), AuthError>(AuthError::InvalidSocks4Version),
{
    if request[0] != 0x04 {
        return Err(AuthError::InvalidSocks4Version);
    }
    Ok(())
}

/// The text of a SOCKS4 user id: its UTF-8 decoding, or empty when it is not UTF-8.
pub open spec fn user_id_text(b: Seq<u8>) -> Seq<char> {
    if valid_utf8(b) {
        decode_utf8(b)
    } else {
        Seq::empty()
    }
}

/// Whether a SOCKS4 user id names the configured user (an id that is not
/// UTF-8 counts as the empty string).
pub fn socks4_user_id_accepted(user_id: Vec<u8>, settings: &AuthSettings) -> (r: bool)
    ensures
        r == (settings.username matches Some(u) && u@ == user_id_text(user_id@)),
{
    let text = match utf8_to_string(user_id) {
        Some(t) => t,
        None => String::new(),
    };
    validate_socks4_user_id(text.as_str(), settings)
}

/// Checks a SOCKS5 greeting `VER NMETHODS` during authentication, giving the
/// number of method bytes that follow.
pub fn socks5_auth_greeting(buf: &[u8; 2]) -> (r: Result<u8, AuthError>)
    ensures
        buf[0] == 5 ==> r == Ok::<u8, AuthError>(buf[1]),
        buf[0] != 5 ==> r == Err::<u8, AuthError>(AuthError::InvalidSocksVersion),
{
    if buf[0] != 0x05 {
        return Err(AuthError::InvalidSocksVersion);
    }
    Ok(buf[1])
}

/// The method the proxy selects for a SOCKS5 client.
#[derive(Debug, Clone, Copy, PartialEq, Eq, Structural)]
pub enum Socks5MethodChoice {
    /// Username/password (method 2) follows.
    UsernamePassword,
    /// Credentials are required but the client offers no way to give them.
    NoAcceptableMethods,
    /// No authentication.
    NoAuthentication,
}

/// The method selection: username/password when credentials are required and
/// offered, a refusal when required but not offered, none when not required.
pub open spec fn socks5_method_spec(require_creds: bool, methods: Seq<u8>) -> Socks5MethodChoice {
    if require_creds && methods.contains(2u8) {
        Socks5MethodChoice::UsernamePassword
    } else if require_creds {
        Socks5MethodChoice::NoAcceptableMethods
    } else {
        Socks5MethodChoice::NoAuthentication
    }
}

/// Chooses the SOCKS5 authentication method for the offered methods.
pub fn choose_socks5_method(require_creds: bool, methods: &[u8]) -> (r: Socks5MethodChoice)
    ensures
        r == socks5_method_spec(require_creds, methods@),
        !require_creds ==> r == Socks5MethodChoice::NoAuthentication,
        require_creds ==> (r == Socks5MethodChoice::UsernamePassword <==> exists|j: int|
            0 <= j < methods@.len() && methods@[j] == 2u8),
        require_creds ==> (r == Socks5MethodChoice::NoAcceptableMethods <==> forall|j: int|
            0 <= j < methods@.len() ==> methods@[j] != 2u8),
{
    let mut supports_auth = false;
    let mut i: usize = 0;
    while i < methods.len()
        invariant
            i <= methods@.len(),
            supports_auth == (exists|j: int| 0 <= j < i && methods@[j] == 2u8),
        decreases methods@.len() - i,
    {
        if methods[i] == 0x02 {
            supports_auth = true;
        }
        i = i + 1;
    }
    if require_creds && supports_auth {
        Socks5MethodChoice::UsernamePassword
    } else if require_creds {
        Socks5MethodChoice::NoAcceptableMethods
    } else {
        Socks5MethodChoice::NoAuthentication
    }
}

/// With credentials required, the proxy asks for username/password exactly
/// when the client offers method 2 at any position of its list, the first
/// one included, and refuses the client otherwise; without credentials it
/// never asks. Offering more methods never turns username/password into a
/// refusal.
pub proof fn lemma_socks5_method_selection(require_creds: bool, methods: Seq<u8>, more: Seq<u8>)
    ensures
        !require_creds ==> socks5_method_spec(require_creds, methods)
            == Socks5MethodChoice::NoAuthentication,
        require_creds ==> (socks5_method_spec(require_creds, methods)
            == Socks5MethodChoice::UsernamePassword <==> exists|j: int|
            0 <= j < methods.len() && methods[j] == 2u8),
        require_creds ==> (socks5_method_spec(require_creds, methods)
            == Socks5MethodChoice::NoAcceptableMethods <==> forall|j: int|
            0 <= j < methods.len() ==> methods[j] != 2u8),
        require_creds && methods.len() > 0 && methods[0] == 2u8 ==> socks5_method_spec(
            require_creds,
            methods,
        ) == Socks5MethodChoice::UsernamePassword,
        socks5_method_spec(require_creds, methods) == Socks5MethodChoice::UsernamePassword
            ==> socks5_method_spec(require_creds, methods + more)
            == Socks5MethodChoice::UsernamePassword,
{
    if methods.len() > 0 && methods[0] == 2u8 {
        assert(methods.contains(2u8));
    }
    if methods.contains(2u8) {
        let j = choose|j: int| 0 <= j < methods.len() && methods[j] == 2u8;
        assert((methods + more)[j] == 2u8);
        assert((methods + more).contains(2u8));
    }
}

impl Socks5MethodChoice {
    /// The method-selection reply `VER METHOD` sent for this choice.
    pub fn reply(&self) -> (r: [u8; 2])
        ensures
            r@ == match *self {
                Socks5MethodChoice::UsernamePassword => seq![5u8, 2u8],
                Socks5MethodChoice::NoAcceptableMethods => seq![5u8, 0xffu8],
                Socks5MethodChoice::NoAuthentication => seq![5u8, 0u8],
            },
    {
        match *self {
            Socks5MethodChoice::UsernamePassword => [0x05, 0x02],
            Socks5MethodChoice::NoAcceptableMethods => [0x05, 0xff],
            Socks5MethodChoice::NoAuthentication => [0x05, 0x00],
        }
    }
}

/// Checks the header `VER ULEN` of a SOCKS5 username/password request,
/// giving the username's length.
pub fn socks5_userpass_header(auth_buf: &[u8; 2]) -> (r: Result<u8, AuthError>)
    ensures
        auth_buf[0] == 1 ==> r == Ok::<u8, AuthError>(auth_buf[1]),
        auth_buf[0] != 1 ==> r == Err::<u8, AuthError>(AuthError::UnsupportedSocks5AuthVersion),
{
    if auth_buf[0] != 0x01 {
        return Err(AuthError::UnsupportedSocks5AuthVersion);
    }
    Ok(auth_buf[1])
}

/// Checks SOCKS5 username and password bytes: both must be UTF-8; the result
/// says whether they match the configured credentials.
pub fn socks5_check_userpass(username: Vec<u8>, password: Vec<u8>, settings: &AuthSettings) -> (r:
    Result<bool, AuthError>)
    ensures
        !valid_utf8(username@) || !valid_utf8(password@) ==> r == Err::<bool, AuthError>(
            AuthError::Socks5CredentialsNotUtf8,
        ),
        valid_utf8(username@) && valid_utf8(password@) ==> r == Ok::<bool, AuthError>(
            credentials_match(decode_utf8(username@), decode_utf8(password@), *settings),
        ),
{
    let user = match utf8_to_string(username) {
        Some(u) => u,
        None => return Err(AuthError::Socks5CredentialsNotUtf8),
    };
    let pass = match utf8_to_string(password) {
        Some(p) => p,
        None => return Err(AuthError::Socks5CredentialsNotUtf8),
    };
    Ok(validate_credentials(user.as_str(), pass.as_str(), settings))
}

/// The username/password status reply `VER STATUS`: 0 on success, 1 on failure.
pub fn socks5_userpass_reply(accepted: bool) -> (r: [u8; 2])
    ensures
        r@ == seq![1u8, if accepted { 0u8 } else { 1u8 }],
{
    if accepted {
        [0x01, 0x00]
    } else {
        [0x01, 0x01]
    }
}

/// Decoded Basic credentials `user:pass` (with no `:` in `user`) are accepted
/// exactly when `user` and `pass` are the configured username and password;
/// otherwise they are refused as invalid credentials.
pub proof fn lemma_basic_credentials_checked(user: Seq<char>, pass: Seq<char>, settings: AuthSettings)
    requires
        !user.contains(':'),
    ensures
        decoded_credentials_result(encode_utf8(user + seq![':'] + pass), settings) == if credentials_match(
            user,
            pass,
            settings,
        ) {
            Ok::<(), AuthError>(())
        } else {
            Err(AuthError::InvalidCredentials)
        },
{
    broadcast use vstd::utf8::encode_utf8_valid_utf8, vstd::utf8::encode_utf8_decode_utf8;

    let c = user + seq![':'] + pass;
    let i = user.len() as int;
    assert(decode_utf8(encode_utf8(c)) == c);
    assert forall|j: int| 0 <= j < i implies c[j] != ':' by {
        assert(c[j] == user[j]);
    }
    lemma_find_from_at(c, ':', 0, i);
    assert(c.take(i) =~= user);
    assert(c.skip(i + 1) =~= pass);
}

} // verus!
