use loadgen::parse::{parse_url, ParsedURL};

#[test]
fn test_parsing_simple() {
    let url = "http://eu.httpbin.org/get";
    let ParsedURL { protocol, hostname, port, path } = parse_url(url).unwrap();
    assert_eq!(protocol, "HTTP");
    assert_eq!(hostname, "eu.httpbin.org".to_string());
    assert_eq!(port, 80);
    assert_eq!(path, "/get".to_string());
}

#[test]
fn test_parsing_defaults() {
    let url = "http://eu.httpbin.org/";
    let ParsedURL { protocol, hostname, port, path } = parse_url(url).unwrap();
    assert_eq!(protocol, "HTTP");
    assert_eq!(hostname, "eu.httpbin.org".to_string());
    assert_eq!(port, 80);
    assert_eq!(path, "/");
}

#[test]
fn test_parsing_complex() {
    let url = "https://github.com/rust-lang/rust/issues?labels=E-easy&state=open";
    let ParsedURL { protocol, hostname, port, path } = parse_url(url).unwrap();
    assert_eq!(protocol, "HTTPS");
    assert_eq!(hostname, "github.com".to_string());
    assert_eq!(port, 443);
    assert_eq!(
        path,
        "/rust-lang/rust/issues?labels=E-easy&state=open".to_string()
    );
}

#[test]
fn explicit_port_wins_over_default() {
    let parsed = parse_url("http://localhost:8080/status").unwrap();
    assert_eq!(parsed.port, 8080);
    assert_eq!(parsed.hostname, "localhost");
    assert_eq!(parsed.path, "/status");
}

#[test]
fn explicit_port_on_https() {
    let parsed = parse_url("https://example.com:8443").unwrap();
    assert_eq!(parsed.protocol, "HTTPS");
    assert_eq!(parsed.port, 8443);
    assert_eq!(parsed.path, "/");
}

#[test]
fn https_without_port_defaults_to_443() {
    let parsed = parse_url("https://example.com/a/b?x=1").unwrap();
    assert_eq!(parsed.port, 443);
    assert_eq!(parsed.path, "/a/b?x=1");
}

#[test]
fn missing_scheme_defaults_to_http() {
    let parsed = parse_url("example.com/foo").unwrap();
    assert_eq!(parsed.protocol, "HTTP");
    assert_eq!(parsed.hostname, "example.com");
    assert_eq!(parsed.port, 80);
    assert_eq!(parsed.path, "/foo");
}

#[test]
fn largest_port_is_accepted() {
    let parsed = parse_url("http://example.com:65535/").unwrap();
    assert_eq!(parsed.port, 65535);
}

#[test]
fn oversized_port_is_rejected() {
    let err = parse_url("http://example.com:65536/").unwrap_err();
    assert_eq!(err, "The port is invalid");
}

#[test]
fn non_numeric_port_is_rejected() {
    let err = parse_url("http://example.com:eighty/").unwrap_err();
    assert_eq!(err, "The port is invalid");
}

#[test]
fn empty_port_is_rejected() {
    let err = parse_url("http://example.com:/get").unwrap_err();
    assert_eq!(err, "The port is invalid");
}

#[test]
fn scheme_is_uppercased() {
    let parsed = parse_url("hTtPs://example.com").unwrap();
    assert_eq!(parsed.protocol, "HTTPS");
    assert_eq!(parsed.port, 443);
}
