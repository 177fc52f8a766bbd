use crabby_proxy::proxy::protocol::{ProxyProtocol, ProxyTarget};
use crabby_proxy::proxy::sni::{extract_sni_from_tls, https_target};
use crabby_proxy::proxy::target::{
    parse_connect_target, parse_http_request_line, parse_http_target, parse_socks4_request,
    parse_socks5_request, parse_target_bytes, parse_target_length, port_from_be_bytes,
    socks5_domain_name, socks5_greeting, socks5_ipv4_target, socks5_ipv6_address,
    socks5_no_auth_reply, ipv4_to_string, Socks5AddressType, TargetError,
};

fn t(host: &str, port: u16) -> ProxyTarget {
    ProxyTarget { host: host.to_string(), port }
}

#[test]
fn connect_target_parses_host_and_port() {
    assert_eq!(parse_connect_target("example.com:443"), Ok(t("example.com", 443)));
    assert_eq!(parse_connect_target(":80"), Ok(t("", 80)));
    assert_eq!(parse_connect_target("h:+8"), Ok(t("h", 8)));
    assert_eq!(parse_connect_target("h:0080"), Ok(t("h", 80)));
}

#[test]
fn connect_target_errors() {
    assert_eq!(parse_connect_target("example.com"), Err(TargetError::InvalidConnectTarget));
    assert_eq!(parse_connect_target("a:b:c"), Err(TargetError::InvalidConnectTarget));
    assert_eq!(parse_connect_target("[::1]:80"), Err(TargetError::InvalidConnectTarget));
    assert_eq!(parse_connect_target("h:65536"), Err(TargetError::InvalidPort));
    assert_eq!(parse_connect_target("h:"), Err(TargetError::InvalidPort));
    assert_eq!(parse_connect_target("h:+"), Err(TargetError::InvalidPort));
    assert_eq!(parse_connect_target("h:-1"), Err(TargetError::InvalidPort));
    assert_eq!(parse_connect_target("h: 80"), Err(TargetError::InvalidPort));
}

#[test]
fn authority_round_trips_through_connect_parser() {
    let target = t("proxy.local", 8080);
    assert_eq!(target.authority(), "proxy.local:8080");
    assert_eq!(parse_connect_target(&target.authority()), Ok(target));
    assert_eq!(t("h", 0).authority(), "h:0");
    assert_eq!(t("h", 65535).authority(), "h:65535");
}

#[test]
fn http_target_parses_absolute_urls() {
    assert_eq!(parse_http_target("http://example.com/index.html"), Ok(t("example.com", 80)));
    assert_eq!(parse_http_target("http://example.com:8080/x"), Ok(t("example.com", 8080)));
    assert_eq!(parse_http_target("http://example.com:bad/x"), Ok(t("example.com", 80)));
    assert_eq!(parse_http_target("http://a:1:2/"), Ok(t("a", 1)));
    assert_eq!(parse_http_target("http://"), Ok(t("", 80)));
    assert_eq!(parse_http_target("https://example.com/"), Err(TargetError::InvalidHttpUrl));
    assert_eq!(parse_http_target("/relative"), Err(TargetError::InvalidHttpUrl));
}

#[test]
fn request_line_dispatches_on_method() {
    assert_eq!(
        parse_http_request_line("CONNECT example.com:443 HTTP/1.1\r\n"),
        Ok(t("example.com", 443))
    );
    assert_eq!(
        parse_http_request_line("GET http://example.com:81/ HTTP/1.1\r\n"),
        Ok(t("example.com", 81))
    );
    assert_eq!(
        parse_http_request_line("  \tGET   http://x/\n"),
        Ok(t("x", 80))
    );
    assert_eq!(parse_http_request_line("GET\r\n"), Err(TargetError::InvalidHttpRequest));
    assert_eq!(parse_http_request_line(""), Err(TargetError::InvalidHttpRequest));
    assert_eq!(
        parse_http_request_line("CONNECT nohost HTTP/1.1"),
        Err(TargetError::InvalidConnectTarget)
    );
    assert_eq!(parse_http_request_line("connect a:1 x"), Err(TargetError::InvalidHttpUrl));
}

#[test]
fn socks4_request_header() {
    let ok = [4u8, 1, 0x01, 0xbb, 93, 184, 216, 34];
    assert_eq!(parse_socks4_request(&ok), Ok(t("93.184.216.34", 443)));
    assert_eq!(
        parse_socks4_request(&[5u8, 1, 0, 80, 1, 2, 3, 4]),
        Err(TargetError::InvalidSocks4Version)
    );
    assert_eq!(
        parse_socks4_request(&[4u8, 2, 0, 80, 1, 2, 3, 4]),
        Err(TargetError::OnlyConnectSupported)
    );
}

#[test]
fn ipv4_formatting() {
    assert_eq!(ipv4_to_string(0, 0, 0, 0), "0.0.0.0");
    assert_eq!(ipv4_to_string(255, 10, 100, 9), "255.10.100.9");
}

#[test]
fn socks5_steps() {
    assert_eq!(socks5_greeting(&[5, 2]), Ok(2));
    assert_eq!(socks5_greeting(&[4, 2]), Err(TargetError::InvalidSocks5Version));
    assert_eq!(socks5_no_auth_reply(), [5, 0]);
    assert_eq!(parse_socks5_request(&[5, 1, 0, 1]), Ok(Socks5AddressType::IPv4));
    assert_eq!(parse_socks5_request(&[5, 1, 0, 3]), Ok(Socks5AddressType::DomainName));
    assert_eq!(parse_socks5_request(&[5, 1, 0, 4]), Ok(Socks5AddressType::IPv6));
    assert_eq!(parse_socks5_request(&[5, 1, 0, 2]), Err(TargetError::UnsupportedAddressType));
    assert_eq!(parse_socks5_request(&[5, 2, 0, 1]), Err(TargetError::InvalidSocks5Request));
    assert_eq!(parse_socks5_request(&[4, 1, 0, 9]), Err(TargetError::InvalidSocks5Request));
    assert_eq!(socks5_ipv4_target(&[127, 0, 0, 1, 0x1f, 0x90]), t("127.0.0.1", 8080));
    assert_eq!(socks5_domain_name(b"example.org".to_vec()), Ok("example.org".to_string()));
    assert_eq!(socks5_domain_name(vec![0xff, 0xfe]), Err(TargetError::InvalidDomain));
    let mut v6 = [0u8; 18];
    v6[15] = 1;
    v6[16] = 0x01;
    v6[17] = 0xbb;
    let (ip, port) = socks5_ipv6_address(&v6);
    assert_eq!(port, 443);
    assert_eq!(ip[15], 1);
    assert_eq!(ip[..15], [0u8; 15]);
}

#[test]
fn big_endian_ports() {
    assert_eq!(port_from_be_bytes(&[0x00, 0x50]), 80);
    assert_eq!(port_from_be_bytes(&[0xff, 0xff]), 65535);
    assert_eq!(port_from_be_bytes(&[0x01, 0x00]), 256);
}

#[test]
fn raw_tcp_target() {
    assert_eq!(parse_target_length(&[0, 0]), Err(TargetError::InvalidTargetLength));
    assert_eq!(parse_target_length(&[0, 1]), Ok(1));
    assert_eq!(parse_target_length(&[0x04, 0x00]), Ok(1024));
    assert_eq!(parse_target_length(&[0x04, 0x01]), Err(TargetError::InvalidTargetLength));
    assert_eq!(parse_target_bytes(b"db.internal:5432".to_vec()), Ok(t("db.internal", 5432)));
    assert_eq!(parse_target_bytes(vec![0xc3, 0x28]), Err(TargetError::InvalidUtf8Target));
    assert_eq!(parse_target_bytes(b"nohost".to_vec()), Err(TargetError::InvalidTargetFormat));
    assert_eq!(parse_target_bytes(b"h:99999".to_vec()), Err(TargetError::InvalidPortNumber));
    assert_eq!(parse_target_bytes("h\u{e9}:1".as_bytes().to_vec()), Ok(t("h\u{e9}", 1)));
}

fn client_hello_with(name: &[u8], fill: u8) -> Vec<u8> {
    let mut d = vec![0x16u8, 3, 1, 0, 200];
    d.extend_from_slice(&[1u8; 40]);
    d.extend_from_slice(&[0, 0, 0, 0, 0, 0, 0, 0, 0]);
    d.push(name.len() as u8);
    d.extend_from_slice(name);
    d.extend_from_slice(&[fill; 12]);
    d
}

#[test]
fn sni_found_in_client_hello() {
    let d = client_hello_with(b"example.com", 9);
    assert_eq!(extract_sni_from_tls(&d), Some("example.com".to_string()));
    assert_eq!(https_target(&d), t("example.com", 443));
}

#[test]
fn sni_absent_cases() {
    assert_eq!(extract_sni_from_tls(&[0x16u8; 42]), None);
    let mut d = client_hello_with(b"example.com", 9);
    d[0] = 0x17;
    assert_eq!(extract_sni_from_tls(&d), None);
    let d = client_hello_with(&[0xff, 0xfe], 0xff);
    assert_eq!(extract_sni_from_tls(&d), None);
    assert_eq!(https_target(&d), t("unknown.host", 443));
}

#[test]
fn protocol_names() {
    assert_eq!(ProxyProtocol::TCP.name(), "TCP");
    assert_eq!(ProxyProtocol::HTTP.name(), "HTTP");
    assert_eq!(ProxyProtocol::HTTPS.name(), "HTTPS");
    assert_eq!(ProxyProtocol::SOCKS4.name(), "SOCKS4");
    assert_eq!(ProxyProtocol::SOCKS5.name(), "SOCKS5");
}
