use crabby_proxy::proxy::listener::{
    auth_scheme, detect_protocol, error_response, http_auth_required_response, needs_tls_upgrade,
    proceed_after_auth, protocol_after_peek, should_report_error, success_response, AuthScheme, ErrorType,
};
use crabby_proxy::proxy::protocol::ProxyProtocol;
use crabby_proxy::stream::{relay_step, RelayStep};
use crabby_proxy::utils::{http_connect_response, socks4_response, socks5_response};

#[test]
fn protocol_detection() {
    for m in [b"GET ", b"POST", b"PUT ", b"HEAD", b"DELE", b"CONN"] {
        assert_eq!(detect_protocol(m), ProxyProtocol::HTTP);
    }
    assert_eq!(detect_protocol(b"GETX"), ProxyProtocol::TCP);
    assert_eq!(detect_protocol(&[0x16, 3, 1, 0]), ProxyProtocol::HTTPS);
    assert_eq!(detect_protocol(&[5, 1, 0, 0]), ProxyProtocol::SOCKS5);
    assert_eq!(detect_protocol(&[4, 1, 0, 80]), ProxyProtocol::SOCKS4);
    assert_eq!(detect_protocol(&[0, 0, 0, 0]), ProxyProtocol::TCP);
    assert_eq!(protocol_after_peek(None), ProxyProtocol::TCP);
    assert_eq!(protocol_after_peek(Some(*b"HEAD")), ProxyProtocol::HTTP);
}

#[test]
fn decisions_per_protocol() {
    assert!(needs_tls_upgrade(ProxyProtocol::HTTPS));
    assert!(!needs_tls_upgrade(ProxyProtocol::HTTP));
    assert_eq!(auth_scheme(ProxyProtocol::HTTP), AuthScheme::HttpBasic);
    assert_eq!(auth_scheme(ProxyProtocol::HTTPS), AuthScheme::HttpBasic);
    assert_eq!(auth_scheme(ProxyProtocol::SOCKS5), AuthScheme::Socks5UserPass);
    assert_eq!(auth_scheme(ProxyProtocol::SOCKS4), AuthScheme::Socks4UserId);
    assert_eq!(auth_scheme(ProxyProtocol::TCP), AuthScheme::Unsupported);
    assert!(should_report_error(ErrorType::Handshake));
    assert!(!should_report_error(ErrorType::Tunnel));
    assert_eq!(ErrorType::Timeout.label(), "timeout");
    assert_eq!(ErrorType::Handshake.label(), "handshake");
}

#[test]
fn error_responses() {
    assert_eq!(
        error_response(ProxyProtocol::HTTP, ErrorType::Handshake),
        Some(b"HTTP/1.1 400 Bad Request\r\n\r\n".to_vec())
    );
    assert_eq!(
        error_response(ProxyProtocol::HTTP, ErrorType::Connection),
        Some(b"HTTP/1.1 502 Bad Gateway\r\n\r\n".to_vec())
    );
    assert_eq!(
        error_response(ProxyProtocol::HTTP, ErrorType::Timeout),
        Some(b"HTTP/1.1 504 Gateway Timeout\r\n\r\n".to_vec())
    );
    assert_eq!(error_response(ProxyProtocol::HTTP, ErrorType::Response), None);
    assert_eq!(error_response(ProxyProtocol::HTTPS, ErrorType::Handshake), None);
    assert_eq!(error_response(ProxyProtocol::TCP, ErrorType::Timeout), None);
    assert_eq!(
        error_response(ProxyProtocol::SOCKS4, ErrorType::Response),
        Some(vec![0, 0x5b, 0, 0, 0, 0, 0, 0])
    );
    assert_eq!(
        error_response(ProxyProtocol::SOCKS5, ErrorType::Connection),
        Some(vec![5, 1, 0, 1, 0, 0, 0, 0, 0, 0])
    );
}

#[test]
fn success_responses() {
    assert_eq!(success_response(ProxyProtocol::HTTP), Some(b"HTTP/1.1 200 OK\r\n\r\n".to_vec()));
    assert_eq!(success_response(ProxyProtocol::SOCKS4), Some(socks4_response(true).to_vec()));
    assert_eq!(success_response(ProxyProtocol::SOCKS5), Some(socks5_response(true).to_vec()));
    assert_eq!(success_response(ProxyProtocol::HTTPS), None);
    assert_eq!(success_response(ProxyProtocol::TCP), None);
    assert_eq!(http_connect_response(), b"HTTP/1.1 200 OK\r\n\r\n".to_vec());
    assert_eq!(socks4_response(true), [0, 0x5a, 0, 0, 0, 0, 0, 0]);
    assert_eq!(socks4_response(false), [0, 0x5b, 0, 0, 0, 0, 0, 0]);
    assert_eq!(socks5_response(true), [5, 0, 0, 1, 0, 0, 0, 0, 0, 0]);
    assert_eq!(socks5_response(false), [5, 1, 0, 1, 0, 0, 0, 0, 0, 0]);
}

#[test]
fn auth_required_response() {
    assert_eq!(
        http_auth_required_response(),
        b"HTTP/1.1 407 Proxy Authentication Required\r\nProxy-Authenticate: Basic realm=\"Proxy\"\r\nContent-Length: 0\r\nConnection: close\r\n\r\n".to_vec()
    );
}

#[test]
fn relay_steps() {
    assert_eq!(relay_step(10, 0), RelayStep::Finish { total: 10 });
    assert_eq!(relay_step(10, 5), RelayStep::Forward { bytes: 5, total: 15 });
}

#[test]
fn authentication_gate() {
    assert!(proceed_after_auth(false, None));
    assert!(proceed_after_auth(false, Some(false)));
    assert!(proceed_after_auth(true, Some(true)));
    assert!(!proceed_after_auth(true, Some(false)));
    assert!(!proceed_after_auth(true, None));
}
