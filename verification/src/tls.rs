//! Choosing the server's private key and certificate chain from PEM text.
//! The PEM sections are parsed by `rustls_pemfile`; what this module decides is
//! which of the parsed items is used.
use vstd::prelude::*;

use crate::text::{chars_to_string, push_text};

verus! {

/// A private key in DER form, tagged with its encoding.
#[derive(Debug, Clone, PartialEq, Eq)]
pub enum PemKey {
    /// A PKCS#8 `PRIVATE KEY` section.
    Pkcs8(Vec<u8>),
    /// A PKCS#1 `RSA PRIVATE KEY` section.
    Pkcs1(Vec<u8>),
}

/// Why no key or certificate chain could be taken from the PEM text.
#[derive(Debug, Clone, PartialEq, Eq)]
pub enum KeyError {
    /// A PEM section could not be read; the reader's message.
    Malformed(String),
    /// Neither a PKCS#8 nor a PKCS#1 key was found.
    NoUsableKey,
}

/// The first item that `rustls_pemfile::pkcs8_private_keys` yields on `pem`:
/// the DER bytes of the first PKCS#8 key, or the message of a read error met
/// before it; `None` when the text holds neither.
pub uninterp spec fn pem_first_pkcs8(pem: Seq<u8>) -> Option<Result<Seq<u8>, Seq<char>>>;

/// The first item that `rustls_pemfile::rsa_private_keys` yields on `pem`, in
/// the same form as [`pem_first_pkcs8`].
pub uninterp spec fn pem_first_rsa(pem: Seq<u8>) -> Option<Result<Seq<u8>, Seq<char>>>;

/// What `rustls_pemfile::certs` yields on `pem`, collected: the DER bytes of
/// every certificate in order, or the message of the first read error.
pub uninterp spec fn pem_certs(pem: Seq<u8>) -> Result<Seq<Seq<u8>>, Seq<char>>;

/// A first item, by the views of its bytes and message.
pub open spec fn pem_item_view(item: Option<Result<Vec<u8>, String>>) -> Option<
    Result<Seq<u8>, Seq<char>>,
> {
    match item {
        None => None,
        Some(Ok(der)) => Some(Ok(der@)),
        Some(Err(msg)) => Some(Err(msg@)),
    }
}

/// A collected certificate chain, by the views of its bytes and message.
pub open spec fn pem_certs_view(certs: Result<Vec<Vec<u8>>, String>) -> Result<
    Seq<Seq<u8>>,
    Seq<char>,
> {
    match certs {
        Ok(chain) => Ok(chain@.map_values(|der: Vec<u8>| der@)),
        Err(msg) => Err(msg@),
    }
}

/// `rustls_pemfile::pkcs8_private_keys(..).next()` on the bytes `pem`, with
/// the key's DER bytes copied out and a read error turned into its message.
#[verifier::external_body]
fn first_pkcs8_key(pem: &[u8]) -> (r: Option<Result<Vec<u8>, String>>)
    ensures
        pem_item_view(r) == pem_first_pkcs8(pem@),
{
    let mut rd: &[u8] = pem;
    let first = rustls_pemfile::pkcs8_private_keys(&mut rd).next();
    match first {
        None => None,
        Some(Ok(key)) => Some(Ok(key.secret_pkcs8_der().to_vec())),
        Some(Err(e)) => Some(Err(e.to_string())),
    }
}

/// `rustls_pemfile::rsa_private_keys(..).next()` on the bytes `pem`, with the
/// key's DER bytes copied out and a read error turned into its message.
#[verifier::external_body]
fn first_rsa_key(pem: &[u8]) -> (r: Option<Result<Vec<u8>, String>>)
    ensures
        pem_item_view(r) == pem_first_rsa(pem@),
{
    let mut rd: &[u8] = pem;
    let first = rustls_pemfile::rsa_private_keys(&mut rd).next();
    match first {
        None => None,
        Some(Ok(key)) => Some(Ok(key.secret_pkcs1_der().to_vec())),
        Some(Err(e)) => Some(Err(e.to_string())),
    }
}

/// `rustls_pemfile::certs` on the bytes `pem`, collected into a `Result`, with
/// each certificate's DER bytes copied out and a read error turned into its
/// message.
#[verifier::external_body]
fn pem_certificates(pem: &[u8]) -> (r: Result<Vec<Vec<u8>>, String>)
    ensures
        pem_certs_view(r) == pem_certs(pem@),
{
    let mut rd: &[u8] = pem;
    let collected: Result<Vec<_>, _> = rustls_pemfile::certs(&mut rd).collect();
    match collected {
        Ok(chain) => Ok(chain.iter().map(|c| c.to_vec()).collect()),
        Err(e) => Err(e.to_string()),
    }
}

/// `r` is the key chosen from the first PKCS#8 item and, failing one, the
/// first PKCS#1 item: a key is taken as it is, a read error met first is
/// reported as malformed, and with neither item there is no usable key.
pub open spec fn key_choice(
    r: Result<PemKey, KeyError>,
    pkcs8: Option<Result<Seq<u8>, Seq<char>>>,
    rsa: Option<Result<Seq<u8>, Seq<char>>>,
) -> bool {
    match pkcs8 {
        Some(Ok(der)) => r matches Ok(PemKey::Pkcs8(k)) && k@ == der,
        Some(Err(msg)) => r matches Err(KeyError::Malformed(m)) && m@ == msg,
        None => match rsa {
            Some(Ok(der)) => r matches Ok(PemKey::Pkcs1(k)) && k@ == der,
            Some(Err(msg)) => r matches Err(KeyError::Malformed(m)) && m@ == msg,
            None => r matches Err(KeyError::NoUsableKey),
        },
    }
}

/// Chooses the key from the first PKCS#8 item and the first PKCS#1 item of a
/// PEM text, as [`key_choice`] says. The PKCS#1 item is looked at only when
/// there is no PKCS#8 item.
pub fn key_from_items(
    pkcs8: Option<Result<Vec<u8>, String>>,
    rsa: Option<Result<Vec<u8>, String>>,
) -> (r: Result<PemKey, KeyError>)
    ensures
        key_choice(r, pem_item_view(pkcs8), pem_item_view(rsa)),
{
    match pkcs8 {
        Some(Ok(der)) => Ok(PemKey::Pkcs8(der)),
        Some(Err(msg)) => Err(KeyError::Malformed(msg)),
        None => match rsa {
            Some(Ok(der)) => Ok(PemKey::Pkcs1(der)),
            Some(Err(msg)) => Err(KeyError::Malformed(msg)),
            None => Err(KeyError::NoUsableKey),
        },
    }
}

/// The server's private key from the PEM text `pem`: the first PKCS#8 key,
/// else the first PKCS#1 (RSA) key; a section that cannot be read before the
/// key is found makes the text malformed.
pub fn choose_private_key(pem: &[u8]) -> (r: Result<PemKey, KeyError>)
    ensures
        key_choice(r, pem_first_pkcs8(pem@), pem_first_rsa(pem@)),
{
    let pkcs8 = first_pkcs8_key(pem);
    if pkcs8.is_some() {
        key_from_items(pkcs8, None)
    } else {
        let rsa = first_rsa_key(pem);
        key_from_items(pkcs8, rsa)
    }
}

/// The certificate chain in the PEM text `pem`, in order; a section that
/// cannot be read makes the text malformed.
pub fn parse_certificates(pem: &[u8]) -> (r: Result<Vec<Vec<u8>>, KeyError>)
    ensures
        match pem_certs(pem@) {
            Ok(chain) => r matches Ok(c) && c@.map_values(|der: Vec<u8>| der@) == chain,
            Err(msg) => r matches Err(KeyError::Malformed(m)) && m@ == msg,
        },
{
    match pem_certificates(pem) {
        Ok(chain) => Ok(chain),
        Err(msg) => Err(KeyError::Malformed(msg)),
    }
}

/// The text of a key error: the reader's message, or the fixed message for a
/// text without a usable key.
pub open spec fn key_error_text(e: KeyError) -> Seq<char> {
    match e {
        KeyError::Malformed(m) => m@,
        KeyError::NoUsableKey => "No usable private key found"@,
    }
}

impl KeyError {
    /// The error's message, as it is reported.
    pub fn message(&self) -> (r: String)
        ensures
            r@ == key_error_text(*self),
    {
        match self {
            KeyError::Malformed(m) => m.clone(),
            KeyError::NoUsableKey => {
                let mut v: Vec<char> = Vec::new();
                push_text(&mut v, "No usable private key found");
                chars_to_string(&v)
            },
        }
    }
}

} // verus!
