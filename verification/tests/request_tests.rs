use loadgen::request::{ConentType, HttpAction, Protocol, Request, RequestBuilder};

fn plain_request(content: &str) -> Request {
    Request {
        action: HttpAction::GET,
        protocol: Protocol::HTTP1_1,
        path: "/get".to_string(),
        hostname: "eu.httpbin.org".to_string(),
        port: 80,
        content_type: ConentType::Plaintext,
        content: content.to_string(),
    }
}

#[test]
fn serialized_request_exact_text() {
    let text = plain_request("").to_string();
    let expected = "GET /get HTTP/1.1\n\
        Host: eu.httpbin.org:80\n\
        User-Agent: Mozilla/5.0 (Macintosh; Intel Mac OS X 10.15; rv:129.0) Gecko/20100101 Firefox/129.0\n\
        Accept: text/html, application/json, application/xhtml+xml, application/xml;q=0.9, */*;q=0.8\n\
        Accept-Language: en-US,en;q=0.5\n\
        Accept-Encoding: gzip deflate\n\
        Connection: close\n\
        Upgrade-Insecure-Requests: 1\n\
        Content-Type: text/plaintext; charset=utf-8\n\
        Content-Length: 0\n\
        \n";
    assert_eq!(text, expected);
}

#[test]
fn serialized_request_content_length_matches_body_bytes() {
    let text = plain_request("hello body").to_string();
    assert!(text.contains("Content-Length: 10\n"));
    // Multi-byte characters count in bytes, not characters.
    let text = plain_request("héllo").to_string();
    assert!(text.contains("Content-Length: 6\n"));
}

#[test]
fn serialized_request_ends_with_blank_line_then_body() {
    let text = plain_request("the exact body").to_string();
    assert!(text.ends_with("\n\nthe exact body"));
    let empty = plain_request("").to_string();
    assert!(empty.ends_with("\n\n"));
}

#[test]
fn builder_assembles_all_parts() {
    let request = RequestBuilder::empty()
        .with_action("get")
        .with_protocol("https")
        .with_path("/a/b")
        .with_hostname("example.com")
        .with_port(8443)
        .with_content_type("text/plaintext")
        .build()
        .unwrap();
    assert!(matches!(request.action, HttpAction::GET));
    assert!(matches!(request.protocol, Protocol::HTTPS));
    assert_eq!(request.path, "/a/b");
    assert_eq!(request.hostname, "example.com");
    assert_eq!(request.port, 8443);
    assert!(matches!(request.content_type, ConentType::Plaintext));
    assert_eq!(request.content, "");
}

#[test]
fn builder_defaults_when_parts_are_unset() {
    let request = RequestBuilder::empty()
        .with_hostname("example.com")
        .build()
        .unwrap();
    assert!(matches!(request.action, HttpAction::GET));
    assert!(matches!(request.protocol, Protocol::HTTP1_1));
    assert_eq!(request.path, "");
    assert_eq!(request.port, 0);
    assert!(matches!(request.content_type, ConentType::Plaintext));
}

#[test]
fn builder_requires_a_hostname() {
    let err = RequestBuilder::empty().build().unwrap_err();
    assert_eq!(err.messages(), &vec!["No hostname defined in request.".to_string()]);
}

#[test]
fn builder_reports_every_rejected_part() {
    let err = RequestBuilder::empty()
        .with_action("FROB")
        .with_protocol("gopher")
        .with_content_type("image/png")
        .build()
        .unwrap_err();
    assert_eq!(
        err.messages(),
        &vec![
            "Action was invalid, FROB".to_string(),
            "Protocol was invalid, gopher".to_string(),
            "No hostname defined in request.".to_string(),
            "Content-type was invalid, image/png".to_string(),
        ]
    );
}

#[test]
fn action_names_round_trip_ignoring_case() {
    assert_eq!(HttpAction::from_str("get").unwrap().to_string(), "GET");
    assert_eq!(HttpAction::from_str("Put").unwrap().to_string(), "PUT");
    assert_eq!(HttpAction::from_str("POST").unwrap().to_string(), "POST");
    assert_eq!(HttpAction::from_str("delete").unwrap().to_string(), "DELETE");
    assert!(HttpAction::from_str("PATCH").is_none());
}

#[test]
fn protocol_names_are_recognized() {
    assert_eq!(Protocol::from_str("http").unwrap().to_string(), "HTTP/1.1");
    assert_eq!(Protocol::from_str("HTTPS").unwrap().to_string(), "HTTPS");
    assert!(Protocol::from_str("ftp").is_none());
}

#[test]
fn content_type_labels() {
    assert_eq!(ConentType::Json.to_string(), "application/json");
    assert_eq!(ConentType::Html.to_string(), "text/html");
    assert_eq!(ConentType::Plaintext.to_string(), "text/plaintext");
    assert!(matches!(
        ConentType::from_str("text/plaintext"),
        Some(ConentType::Plaintext)
    ));
    assert!(matches!(
        ConentType::from_str("application/json"),
        Some(ConentType::Json)
    ));
    assert!(matches!(ConentType::from_str("text/html"), Some(ConentType::Html)));
    assert!(ConentType::from_str("image/png").is_none());
}

#[test]
fn content_type_labels_round_trip() {
    for ct in [ConentType::Json, ConentType::Html, ConentType::Plaintext] {
        let label = ct.to_string();
        let back = ConentType::from_str(&label).unwrap();
        assert_eq!(back.to_string(), label);
    }
}

#[test]
fn hostport_joins_hostname_and_port() {
    assert_eq!(plain_request("").hostport(), "eu.httpbin.org:80");
}
