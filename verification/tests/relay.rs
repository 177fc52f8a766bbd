use crabby_proxy::error::ProxyError;
use crabby_proxy::proxy::protocol::ProxyTarget;
use crabby_proxy::proxy::relay::{connect_request, ConnectResponseReader};
use crabby_proxy::proxy::target::parse_http_request_line;
use crabby_proxy::proxy::listener::success_response;
use crabby_proxy::proxy::protocol::ProxyProtocol;

#[test]
fn connect_request_bytes() {
    let t = ProxyTarget { host: "example.com".to_string(), port: 443 };
    assert_eq!(connect_request(&t), b"CONNECT example.com:443 HTTP/1.1\r\n\r\n".to_vec());
}

#[test]
fn connect_request_parses_back() {
    let t = ProxyTarget { host: "10.1.2.3".to_string(), port: 8080 };
    let bytes = connect_request(&t);
    let line = String::from_utf8(bytes).unwrap();
    assert_eq!(parse_http_request_line(&line), Ok(t));
}

#[test]
fn reader_waits_for_blank_line() {
    let mut r = ConnectResponseReader::new();
    assert_eq!(r.feed(b"HTTP/1.1 200 OK\r\n"), None);
    assert_eq!(r.feed(b"\r\n"), Some(19));
    assert_eq!(r.outcome(19), Ok(Vec::new()));
}

#[test]
fn reader_finds_blank_line_inside_buffer() {
    let mut r = ConnectResponseReader::new();
    assert_eq!(r.feed(b"HTTP/1.1 200 OK\r\n\r\nbody"), Some(19));
    assert_eq!(r.outcome(19), Ok(Vec::new()));
}

#[test]
fn reader_needs_more_than_four_bytes() {
    let mut r = ConnectResponseReader::new();
    assert_eq!(r.feed(b"\r\n\r\n"), None);
    assert_eq!(r.feed(b"x"), Some(4));
}

#[test]
fn reader_rejects_other_status() {
    let mut r = ConnectResponseReader::new();
    assert_eq!(r.feed(b"HTTP/1.1 403 Forbidden\r\n\r\n"), Some(26));
    assert_eq!(
        r.outcome(26),
        Err(ProxyError::BadGateway("invalid response from proxy server".to_string()))
    );
}

#[test]
fn own_success_reply_opens_tunnel() {
    let reply = success_response(ProxyProtocol::HTTP).unwrap();
    let mut r = ConnectResponseReader::new();
    assert_eq!(r.feed(&reply), Some(reply.len()));
    assert_eq!(r.outcome(reply.len()), Ok(Vec::new()));
}
