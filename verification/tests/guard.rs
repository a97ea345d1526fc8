use browserlify::ssrf::{admit_url, can_access, parse_ipv4, UrlParts};

fn parts(scheme: &str, host: Option<&str>) -> UrlParts {
    UrlParts {
        scheme: scheme.to_string(),
        host: host.map(|h| h.to_string()),
        port: None,
    }
}

#[test]
fn rejects_non_http_schemes() {
    let e = can_access(&parts("file", Some("etc")), false).unwrap_err();
    assert_eq!(e.status_code, 400);
    assert_eq!(e.message, "only support http/https");
    let e = can_access(&parts("ws", Some("example.com")), false).unwrap_err();
    assert_eq!(e.status_code, 400);
    assert!(can_access(&parts("https", Some("example.com")), false).is_ok());
}

#[test]
fn rejects_localhost_and_loopback() {
    let e = can_access(&parts("http", Some("localhost")), false).unwrap_err();
    assert_eq!(e.message, "not allow localhost");
    let e = can_access(&parts("http", Some("LocalHost")), false).unwrap_err();
    assert_eq!(e.message, "not allow localhost");
    let e = can_access(&parts("http", Some("127.0.0.1")), false).unwrap_err();
    assert_eq!(e.message, "not allow loopback address");
    let e = can_access(&parts("http", Some("127.255.255.254")), false).unwrap_err();
    assert_eq!(e.message, "not allow loopback address");
    let e = can_access(&parts("http", Some("::1")), false).unwrap_err();
    assert_eq!(e.message, "not allow loopback address");
}

#[test]
fn rejects_private_ranges() {
    for host in ["10.0.0.1", "10.255.255.255", "192.168.0.1", "172.16.0.1", "172.31.255.255"] {
        let e = can_access(&parts("http", Some(host)), false).unwrap_err();
        assert_eq!(e.status_code, 400);
        assert_eq!(e.message, "not allow private ip");
    }
    assert!(can_access(&parts("http", Some("172.32.0.1")), false).is_ok());
    assert!(can_access(&parts("http", Some("172.15.0.1")), false).is_ok());
    assert!(can_access(&parts("http", Some("8.8.8.8")), false).is_ok());
    assert!(can_access(&parts("http", Some("example.com")), false).is_ok());
}

#[test]
fn private_ip_mode_admits_everything_on_http() {
    assert!(can_access(&parts("http", Some("localhost")), true).is_ok());
    assert!(can_access(&parts("http", Some("127.0.0.1")), true).is_ok());
    let e = can_access(&parts("file", Some("x")), true).unwrap_err();
    assert_eq!(e.status_code, 400);
}

#[test]
fn admit_url_end_to_end() {
    let e = admit_url("http://127.0.0.1:22/", false).unwrap_err();
    assert_eq!(e.status_code, 400);
    assert!(e.message.contains("loopback"));
    let e = admit_url("file:///etc/passwd", false).unwrap_err();
    assert_eq!(e.status_code, 400);
    let e = admit_url("ws://example.com/", false).unwrap_err();
    assert_eq!(e.status_code, 400);
    let e = admit_url("http://10.0.0.0/", false).unwrap_err();
    assert_eq!(e.message, "not allow private ip");
    let e = admit_url("not a url", false).unwrap_err();
    assert_eq!(e.status_code, 400);
    let u = admit_url("http://Example.COM:8080/path", false).unwrap();
    assert_eq!(u.scheme, "http");
    assert_eq!(u.host.as_deref(), Some("example.com"));
    assert_eq!(u.port, Some(8080));
}

#[test]
fn parse_ipv4_follows_std_grammar() {
    assert_eq!(parse_ipv4("127.0.0.1"), Some((127, 0, 0, 1)));
    assert_eq!(parse_ipv4("255.255.255.255"), Some((255, 255, 255, 255)));
    assert_eq!(parse_ipv4("256.0.0.1"), None);
    assert_eq!(parse_ipv4("01.2.3.4"), None);
    assert_eq!(parse_ipv4("1.2.3"), None);
    assert_eq!(parse_ipv4("1.2.3.4.5"), None);
    assert_eq!(parse_ipv4("1.2.3.x"), None);
    assert_eq!(parse_ipv4(""), None);
    assert_eq!(parse_ipv4("0.0.0.0"), Some((0, 0, 0, 0)));
}
