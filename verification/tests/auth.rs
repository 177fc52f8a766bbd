use crabby_proxy::proxy::auth::{
    authorize_http_request, authorize_http_text, check_decoded_credentials, choose_socks5_method,
    extract_proxy_auth_header, socks4_check_version, socks4_user_id_accepted,
    socks5_auth_greeting, socks5_check_userpass, socks5_userpass_header, socks5_userpass_reply,
    validate_auth_header, validate_credentials, validate_socks4_user_id, AuthError, AuthSettings,
    NulTerminated, Socks5MethodChoice,
};

fn settings() -> AuthSettings {
    AuthSettings {
        require_creds: true,
        username: Some("user".to_string()),
        password: Some("pass".to_string()),
    }
}

#[test]
fn credentials_must_match_both() {
    let s = settings();
    assert!(validate_credentials("user", "pass", &s));
    assert!(!validate_credentials("user", "Pass", &s));
    assert!(!validate_credentials("usr", "pass", &s));
    let none = AuthSettings { require_creds: true, username: Some("user".to_string()), password: None };
    assert!(!validate_credentials("user", "pass", &none));
}

#[test]
fn socks4_user_id_matches_username() {
    let s = settings();
    assert!(validate_socks4_user_id("user", &s));
    assert!(!validate_socks4_user_id("other", &s));
    let anon = AuthSettings { require_creds: true, username: None, password: None };
    assert!(!validate_socks4_user_id("user", &anon));
    assert!(socks4_user_id_accepted(b"user".to_vec(), &s));
    assert!(!socks4_user_id_accepted(vec![0xff], &s));
    let empty = AuthSettings { require_creds: true, username: Some(String::new()), password: None };
    // an id that is not UTF-8 counts as the empty id
    assert!(socks4_user_id_accepted(vec![0xff], &empty));
}

#[test]
fn header_extraction() {
    let req = "GET http://x/ HTTP/1.1\r\nHost: x\r\nProxy-Authorization: Basic dXNlcjpwYXNz\r\n\r\n";
    assert_eq!(extract_proxy_auth_header(req), Some("Basic dXNlcjpwYXNz"));
    let lower = "GET / HTTP/1.1\r\nPROXY-AUTHORIZATION:   Basic abc  \r\n";
    // matched ignoring case, but the exact-case prefix removal does not apply
    assert_eq!(extract_proxy_auth_header(lower), Some("PROXY-AUTHORIZATION:   Basic abc"));
    let twice = "Proxy-Authorization:Proxy-Authorization: v\n";
    assert_eq!(extract_proxy_auth_header(twice), Some("v"));
    assert_eq!(extract_proxy_auth_header("GET / HTTP/1.1\r\nHost: x\r\n\r\n"), None);
    assert_eq!(extract_proxy_auth_header(""), None);
    assert_eq!(
        extract_proxy_auth_header("Proxy-Authorization: a\nProxy-Authorization: b\n"),
        Some("a")
    );
}

#[test]
fn auth_header_validation() {
    let s = settings();
    assert_eq!(validate_auth_header("Basic dXNlcjpwYXNz", &s), Ok(()));
    assert_eq!(validate_auth_header("Bearer dXNlcjpwYXNz", &s), Err(AuthError::UnsupportedMethod));
    assert_eq!(validate_auth_header("basic dXNlcjpwYXNz", &s), Err(AuthError::UnsupportedMethod));
    assert_eq!(validate_auth_header("Basic !!!", &s), Err(AuthError::InvalidBase64));
    // "user" without a colon
    assert_eq!(validate_auth_header("Basic dXNlcg==", &s), Err(AuthError::MissingPassword));
    // "user:wrong"
    assert_eq!(validate_auth_header("Basic dXNlcjp3cm9uZw==", &s), Err(AuthError::InvalidCredentials));
    // bytes ff fe
    assert_eq!(validate_auth_header("Basic //4=", &s), Err(AuthError::InvalidUtf8));
}

#[test]
fn decoded_credentials() {
    let s = settings();
    assert_eq!(check_decoded_credentials(b"user:pass".to_vec(), &s), Ok(()));
    assert_eq!(check_decoded_credentials(b"user:pa:ss".to_vec(), &s), Err(AuthError::InvalidCredentials));
    let colon = AuthSettings { require_creds: true, username: Some("u".to_string()), password: Some("p:q".to_string()) };
    assert_eq!(check_decoded_credentials(b"u:p:q".to_vec(), &colon), Ok(()));
    assert_eq!(check_decoded_credentials(b"userpass".to_vec(), &s), Err(AuthError::MissingPassword));
    assert_eq!(check_decoded_credentials(vec![0x80], &s), Err(AuthError::InvalidUtf8));
}

#[test]
fn http_request_authorization() {
    let s = settings();
    let good = b"CONNECT a:1 HTTP/1.1\r\nProxy-Authorization: Basic dXNlcjpwYXNz\r\n\r\n";
    assert_eq!(authorize_http_request(good, &s), Ok(()));
    assert!(authorize_http_text(std::str::from_utf8(good).unwrap(), &s));
    let bad = b"CONNECT a:1 HTTP/1.1\r\n\r\n";
    assert_eq!(authorize_http_request(bad, &s), Err(AuthError::HttpAuthRequired));
    assert_eq!(authorize_http_request(b"", &s), Err(AuthError::ConnectionClosed));
    // malformed bytes elsewhere in the request are replaced, not fatal
    let mut lossy = good.to_vec();
    lossy.extend_from_slice(&[0xff, 0xfe]);
    assert_eq!(authorize_http_request(&lossy, &s), Ok(()));
}

#[test]
fn nul_terminated_field() {
    let mut f = NulTerminated::new();
    assert!(!f.feed(b'a'));
    assert!(!f.feed(b'b'));
    assert!(f.feed(0));
    assert_eq!(f.into_bytes(), b"ab".to_vec());
}

#[test]
fn socks4_version_check() {
    assert_eq!(socks4_check_version(&[4, 1, 0, 0, 0, 0, 0, 0]), Ok(()));
    assert_eq!(socks4_check_version(&[5, 1, 0, 0, 0, 0, 0, 0]), Err(AuthError::InvalidSocks4Version));
}

#[test]
fn socks5_method_selection() {
    assert_eq!(socks5_auth_greeting(&[5, 3]), Ok(3));
    assert_eq!(socks5_auth_greeting(&[4, 3]), Err(AuthError::InvalidSocksVersion));
    let up = choose_socks5_method(true, &[0, 2]);
    assert_eq!(up, Socks5MethodChoice::UsernamePassword);
    assert_eq!(up.reply(), [5, 2]);
    let none = choose_socks5_method(true, &[0]);
    assert_eq!(none, Socks5MethodChoice::NoAcceptableMethods);
    assert_eq!(none.reply(), [5, 0xff]);
    let open = choose_socks5_method(false, &[2]);
    assert_eq!(open, Socks5MethodChoice::NoAuthentication);
    assert_eq!(open.reply(), [5, 0]);
    assert_eq!(choose_socks5_method(true, &[]), Socks5MethodChoice::NoAcceptableMethods);
}

#[test]
fn socks5_userpass() {
    let s = settings();
    assert_eq!(socks5_userpass_header(&[1, 4]), Ok(4));
    assert_eq!(socks5_userpass_header(&[2, 4]), Err(AuthError::UnsupportedSocks5AuthVersion));
    assert_eq!(socks5_check_userpass(b"user".to_vec(), b"pass".to_vec(), &s), Ok(true));
    assert_eq!(socks5_check_userpass(b"user".to_vec(), b"nope".to_vec(), &s), Ok(false));
    assert_eq!(
        socks5_check_userpass(vec![0xff], b"pass".to_vec(), &s),
        Err(AuthError::Socks5CredentialsNotUtf8)
    );
    assert_eq!(
        socks5_check_userpass(b"user".to_vec(), vec![0xc0], &s),
        Err(AuthError::Socks5CredentialsNotUtf8)
    );
    assert_eq!(socks5_userpass_reply(true), [1, 0]);
    assert_eq!(socks5_userpass_reply(false), [1, 1]);
}
