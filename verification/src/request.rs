//! Construction and serialization of the raw HTTP/1.x request.
//!
//! A [`Request`] is a plain immutable description of one request; its
//! [`Request::to_string`] method produces the exact wire text: request line,
//! `Host`, fixed client-identification headers, `Content-Type`,
//! `Content-Length` (the byte length of the body), a blank line, and the
//! body verbatim. [`RequestBuilder`] is a validating factory for it.

use vstd::prelude::*;
use vstd::string::StringExecFns;

use crate::strutil::{
    ascii_upper, chars_eq, push_dec_u64, spec_dec, spec_upper, str_to_chars,
};

verus! {

/// An HTTP request method.
#[derive(Debug)]
pub enum HttpAction {
    GET,
    POST,
    PUT,
    DELETE,
}

/// The protocol label written into the request line.
#[derive(Debug)]
pub enum Protocol {
    HTTP1_1,
    HTTPS,
}

/// The media type announced in the `Content-Type` header.
#[derive(Debug)]
pub enum ConentType {
    Json,
    Html,
    Plaintext,
}

impl Default for HttpAction {
    fn default() -> (r: Self)
        ensures
            r == HttpAction::GET,
    {
        HttpAction::GET
    }
}

impl Default for Protocol {
    fn default() -> (r: Self)
        ensures
            r == Protocol::HTTP1_1,
    {
        Protocol::HTTP1_1
    }
}

impl Default for ConentType {
    fn default() -> (r: Self)
        ensures
            r == ConentType::Plaintext,
    {
        ConentType::Plaintext
    }
}

/// The wire label of a request method.
pub open spec fn spec_action_str(a: HttpAction) -> Seq<char> {
    match a {
        HttpAction::GET => "GET"@,
        HttpAction::POST => "POST"@,
        HttpAction::PUT => "PUT"@,
        HttpAction::DELETE => "DELETE"@,
    }
}

/// The request method named by a string, compared ASCII-case-insensitively.
pub open spec fn spec_action_from(s: Seq<char>) -> Option<HttpAction> {
    let u = spec_upper(s);
    if u == "GET"@ {
        Some(HttpAction::GET)
    } else if u == "PUT"@ {
        Some(HttpAction::PUT)
    } else if u == "POST"@ {
        Some(HttpAction::POST)
    } else if u == "DELETE"@ {
        Some(HttpAction::DELETE)
    } else {
        None
    }
}

impl HttpAction {
    /// The wire label of this method.
    pub fn to_string(&self) -> (r: String)
        ensures
            r@ == spec_action_str(*self),
    {
        match self {
            HttpAction::GET => String::from_str("GET"),
            HttpAction::POST => String::from_str("POST"),
            HttpAction::PUT => String::from_str("PUT"),
            HttpAction::DELETE => String::from_str("DELETE"),
        }
    }

    /// Recognizes a method name, ignoring ASCII case.
    pub fn from_str(action: &str) -> (r: Option<Self>)
        ensures
            r == spec_action_from(action@),
    {
        let up = ascii_upper(&str_to_chars(action));
        if chars_eq(&up, &str_to_chars("GET")) {
            Some(HttpAction::GET)
        } else if chars_eq(&up, &str_to_chars("PUT")) {
            Some(HttpAction::PUT)
        } else if chars_eq(&up, &str_to_chars("POST")) {
            Some(HttpAction::POST)
        } else if chars_eq(&up, &str_to_chars("DELETE")) {
            Some(HttpAction::DELETE)
        } else {
            None
        }
    }
}

/// The wire label of a protocol.
pub open spec fn spec_protocol_str(p: Protocol) -> Seq<char> {
    match p {
        Protocol::HTTP1_1 => "HTTP/1.1"@,
        Protocol::HTTPS => "HTTPS"@,
    }
}

/// The protocol named by a string, compared ASCII-case-insensitively.
pub open spec fn spec_protocol_from(s: Seq<char>) -> Option<Protocol> {
    let u = spec_upper(s);
    if u == "HTTP"@ {
        Some(Protocol::HTTP1_1)
    } else if u == "HTTPS"@ {
        Some(Protocol::HTTPS)
    } else {
        None
    }
}

impl Protocol {
    /// The wire label of this protocol.
    pub fn to_string(&self) -> (r: String)
        ensures
            r@ == spec_protocol_str(*self),
    {
        match self {
            Protocol::HTTP1_1 => String::from_str("HTTP/1.1"),
            Protocol::HTTPS => String::from_str("HTTPS"),
        }
    }

    /// Recognizes a protocol name, ignoring ASCII case.
    pub fn from_str(action: &str) -> (r: Option<Self>)
        ensures
            r == spec_protocol_from(action@),
    {
        let up = ascii_upper(&str_to_chars(action));
        if chars_eq(&up, &str_to_chars("HTTP")) {
            Some(Protocol::HTTP1_1)
        } else if chars_eq(&up, &str_to_chars("HTTPS")) {
            Some(Protocol::HTTPS)
        } else {
            None
        }
    }
}

/// The wire label of a media type.
pub open spec fn spec_content_type_str(c: ConentType) -> Seq<char> {
    match c {
        ConentType::Json => "application/json"@,
        ConentType::Html => "text/html"@,
        ConentType::Plaintext => "text/plaintext"@,
    }
}

/// The media type selected by a label, compared exactly: the inverse of
/// [`spec_content_type_str`].
pub open spec fn spec_content_type_from(s: Seq<char>) -> Option<ConentType> {
    if s == "application/json"@ {
        Some(ConentType::Json)
    } else if s == "text/html"@ {
        Some(ConentType::Html)
    } else if s == "text/plaintext"@ {
        Some(ConentType::Plaintext)
    } else {
        None
    }
}

impl ConentType {
    /// The wire label of this media type.
    pub fn to_string(&self) -> (r: String)
        ensures
            r@ == spec_content_type_str(*self),
    {
        match self {
            ConentType::Json => String::from_str("application/json"),
            ConentType::Html => String::from_str("text/html"),
            ConentType::Plaintext => String::from_str("text/plaintext"),
        }
    }

    /// Selects a media type by its label, compared exactly.
    pub fn from_str(content_type: &str) -> (r: Option<Self>)
        ensures
            r == spec_content_type_from(content_type@),
    {
        let v = str_to_chars(content_type);
        if chars_eq(&v, &str_to_chars("application/json")) {
            Some(ConentType::Json)
        } else if chars_eq(&v, &str_to_chars("text/html")) {
            Some(ConentType::Html)
        } else if chars_eq(&v, &str_to_chars("text/plaintext")) {
            Some(ConentType::Plaintext)
        } else {
            None
        }
    }
}

/// Selecting a media type by its own wire label gives that media type
/// back: `from_str` inverts `to_string` for every variant.
pub proof fn lemma_content_type_round_trip(ct: ConentType)
    ensures
        spec_content_type_from(spec_content_type_str(ct)) == Some(ct),
{
    reveal_strlit("application/json");
    reveal_strlit("text/html");
    reveal_strlit("text/plaintext");
    assert("application/json"@ != "text/html"@) by {
        assert("application/json"@.len() != "text/html"@.len());
    }
    assert("application/json"@ != "text/plaintext"@) by {
        assert("application/json"@.len() != "text/plaintext"@.len());
    }
    assert("text/html"@ != "text/plaintext"@) by {
        assert("text/html"@.len() != "text/plaintext"@.len());
    }
}

/// A fully described request, ready to be serialized.
#[derive(Debug)]
pub struct Request {
    pub action: HttpAction,
    pub protocol: Protocol,
    pub path: String,
    pub hostname: String,
    pub port: u16,
    pub content_type: ConentType,
    pub content: String,
}

impl Default for Request {
    fn default() -> (r: Self)
        ensures
            r.action == HttpAction::GET,
            r.protocol == Protocol::HTTP1_1,
            r.path@ == Seq::<char>::empty(),
            r.hostname@ == Seq::<char>::empty(),
            r.port == 0,
            r.content_type == ConentType::Plaintext,
            r.content@ == Seq::<char>::empty(),
    {
        Request {
            action: HttpAction::GET,
            protocol: Protocol::HTTP1_1,
            path: String::new(),
            hostname: String::new(),
            port: 0,
            content_type: ConentType::Plaintext,
            content: String::new(),
        }
    }
}

/// The byte length of the request body under UTF-8.
pub open spec fn spec_content_len(r: Request) -> nat {
    vstd::utf8::encode_utf8(r.content@).len()
}

/// The fixed client-identification headers sent with every request.
pub open spec fn spec_fixed_headers() -> Seq<char> {
    "User-Agent: Mozilla/5.0 (Macintosh; Intel Mac OS X 10.15; rv:129.0) Gecko/20100101 Firefox/129.0\n"@
        + "Accept: text/html, application/json, application/xhtml+xml, application/xml;q=0.9, */*;q=0.8\n"@
        + "Accept-Language: en-US,en;q=0.5\n"@ + "Accept-Encoding: gzip deflate\n"@
        + "Connection: close\n"@ + "Upgrade-Insecure-Requests: 1\n"@
}

/// Everything of the serialized request that precedes the `Content-Length`
/// header.
pub open spec fn spec_request_head(r: Request) -> Seq<char> {
    spec_action_str(r.action) + " "@ + r.path@ + " "@ + spec_protocol_str(r.protocol) + "\n"@
        + "Host: "@ + r.hostname@ + ":"@ + spec_dec(r.port as nat) + "\n"@ + spec_fixed_headers()
        + "Content-Type: "@ + spec_content_type_str(r.content_type) + "; charset=utf-8\n"@
}

/// The `Content-Length` header line of the serialized request.
pub open spec fn spec_content_length_line(r: Request) -> Seq<char> {
    "Content-Length: "@ + spec_dec(spec_content_len(r)) + "\n"@
}

/// The full serialized request: head, `Content-Length`, a blank line, then
/// the body verbatim.
pub open spec fn spec_request_text(r: Request) -> Seq<char> {
    spec_request_head(r) + spec_content_length_line(r) + "\n"@ + r.content@
}

impl Request {
    /// Serializes the request into its exact wire text.
    pub fn to_string(&self) -> (r: String)
        ensures
            r@ == spec_request_text(*self),
    {
        let mut s = String::new();

        // Request line
        let action = self.action.to_string();
        s.append(action.as_str());
        s.append(" ");
        s.append(self.path.as_str());
        s.append(" ");
        let protocol = self.protocol.to_string();
        s.append(protocol.as_str());
        s.append("\n");

        // Request headers
        s.append("Host: ");
        let hostport = self.hostport();
        s.append(hostport.as_str());
        s.append("\n");
        s.append(
            "User-Agent: Mozilla/5.0 (Macintosh; Intel Mac OS X 10.15; rv:129.0) Gecko/20100101 Firefox/129.0\n",
        );
        s.append(
            "Accept: text/html, application/json, application/xhtml+xml, application/xml;q=0.9, */*;q=0.8\n",
        );
        s.append("Accept-Language: en-US,en;q=0.5\n");
        s.append("Accept-Encoding: gzip deflate\n");
        s.append("Connection: close\n");
        s.append("Upgrade-Insecure-Requests: 1\n");

        // Representation headers
        s.append("Content-Type: ");
        let content_type = self.content_type.to_string();
        s.append(content_type.as_str());
        s.append("; charset=utf-8\n");
        s.append("Content-Length: ");
        let len = self.content_btyes_len();
        push_dec_u64(&mut s, len as u64);
        s.append("\n");

        // Blank line before the body
        s.append("\n");

        s.append(self.content.as_str());
        proof {
            assert(s@ =~= spec_request_text(*self));
        }
        s
    }

    /// The byte length of the body under UTF-8.
    pub fn content_btyes_len(&self) -> (r: usize)
        ensures
            r == spec_content_len(*self),
    {
        self.content.as_str().as_bytes().len()
    }

    /// The `host:port` pair used both in the `Host` header and as the
    /// connect address.
    pub fn hostport(&self) -> (r: String)
        ensures
            r@ == self.hostname@ + ":"@ + spec_dec(self.port as nat),
    {
        let mut s = String::new();
        s.append(self.hostname.as_str());
        s.append(":");
        push_dec_u64(&mut s, self.port as u64);
        s
    }
}

/// The serialized request ends with a blank line followed by the body,
/// byte for byte.
pub proof fn lemma_request_text_ends_with_body(r: Request)
    ensures
        spec_request_text(r).len() >= r.content@.len() + 2,
        spec_request_text(r).skip(
            spec_request_text(r).len() - r.content@.len() - 2,
        ) == seq!['\n', '\n'] + r.content@,
{
    reveal_strlit("\n");
    let t = spec_request_text(r);
    let pre = spec_request_head(r) + spec_content_length_line(r).drop_last();
    assert(spec_content_length_line(r).len() >= 1);
    assert(t =~= pre + (seq!['\n', '\n'] + r.content@)) by {
        assert(spec_content_length_line(r).last() == '\n');
        assert("\n"@ =~= seq!['\n']);
    }
    assert(t.skip(pre.len() as int) =~= seq!['\n', '\n'] + r.content@);
}

/// The serialized request contains a `Content-Length` header that names
/// exactly the byte length of the body.
pub proof fn lemma_request_text_content_length(r: Request)
    ensures
        exists|i: int|
            0 <= i && i + spec_content_length_line(r).len() <= spec_request_text(r).len()
                && #[trigger] spec_request_text(r).subrange(
                i,
                i + spec_content_length_line(r).len(),
            ) == spec_content_length_line(r),
{
    let t = spec_request_text(r);
    let w = spec_request_head(r).len() as int;
    let cl = spec_content_length_line(r);
    assert(t.subrange(w, w + cl.len()) =~= cl);
}

/// The outcome of assembling a request from incomplete or invalid parts:
/// one message for each rejected part.
#[derive(Debug)]
pub struct RequestBuildError {
    error_messages: Vec<String>,
}

impl View for RequestBuildError {
    type V = Seq<Seq<char>>;

    closed spec fn view(&self) -> Seq<Seq<char>> {
        self.error_messages.deep_view()
    }
}

impl RequestBuildError {
    /// The messages describing every rejected part, in the order the parts
    /// were examined.
    pub fn messages(&self) -> (r: &Vec<String>)
        ensures
            r.deep_view() == self@,
    {
        &self.error_messages
    }
}

/// A validating factory for [`Request`]: unset parts fall back to defaults,
/// except the hostname, which is required.
pub struct RequestBuilder {
    pub action: Option<String>,
    pub protocol: Option<String>,
    pub path: Option<String>,
    pub hostname: Option<String>,
    pub port: Option<u16>,
    pub content_type: Option<String>,
}

/// Every part given to the builder is acceptable and a hostname is present.
pub open spec fn spec_build_ok(b: RequestBuilder) -> bool {
    &&& (match b.action {
        Some(a) => spec_action_from(a@) is Some,
        None => true,
    })
    &&& (match b.protocol {
        Some(p) => spec_protocol_from(p@) is Some,
        None => true,
    })
    &&& b.hostname is Some
    &&& (match b.content_type {
        Some(c) => spec_content_type_from(c@) is Some,
        None => true,
    })
}

/// The messages a failed build reports, one per rejected part, in the
/// order the parts are examined.
pub open spec fn spec_build_errors(b: RequestBuilder) -> Seq<Seq<char>> {
    (match b.action {
        Some(a) => if spec_action_from(a@) is None {
            seq!["Action was invalid, "@ + a@]
        } else {
            Seq::<Seq<char>>::empty()
        },
        None => Seq::<Seq<char>>::empty(),
    }) + (match b.protocol {
        Some(p) => if spec_protocol_from(p@) is None {
            seq!["Protocol was invalid, "@ + p@]
        } else {
            Seq::<Seq<char>>::empty()
        },
        None => Seq::<Seq<char>>::empty(),
    }) + (if b.hostname is None {
        seq!["No hostname defined in request."@]
    } else {
        Seq::<Seq<char>>::empty()
    }) + (match b.content_type {
        Some(c) => if spec_content_type_from(c@) is None {
            seq!["Content-type was invalid, "@ + c@]
        } else {
            Seq::<Seq<char>>::empty()
        },
        None => Seq::<Seq<char>>::empty(),
    })
}

impl RequestBuilder {
    /// A builder with every part unset.
    pub fn empty() -> (r: RequestBuilder)
        ensures
            r.action is None,
            r.protocol is None,
            r.path is None,
            r.hostname is None,
            r.port is None,
            r.content_type is None,
    {
        RequestBuilder {
            action: None,
            protocol: None,
            path: None,
            hostname: None,
            port: None,
            content_type: None,
        }
    }

    /// Sets the request method name.
    pub fn with_action(self, action: &str) -> (r: Self)
        ensures
            r.action matches Some(a) && a@ == action@,
            r.protocol == self.protocol,
            r.path == self.path,
            r.hostname == self.hostname,
            r.port == self.port,
            r.content_type == self.content_type,
    {
        RequestBuilder { action: Some(String::from_str(action)), ..self }
    }

    /// Sets the protocol name.
    pub fn with_protocol(self, protocol: &str) -> (r: Self)
        ensures
            r.protocol matches Some(p) && p@ == protocol@,
            r.action == self.action,
            r.path == self.path,
            r.hostname == self.hostname,
            r.port == self.port,
            r.content_type == self.content_type,
    {
        RequestBuilder { protocol: Some(String::from_str(protocol)), ..self }
    }

    /// Sets the request path.
    pub fn with_path(self, path: &str) -> (r: Self)
        ensures
            r.path matches Some(p) && p@ == path@,
            r.action == self.action,
            r.protocol == self.protocol,
            r.hostname == self.hostname,
            r.port == self.port,
            r.content_type == self.content_type,
    {
        RequestBuilder { path: Some(String::from_str(path)), ..self }
    }

    /// Sets the target hostname.
    pub fn with_hostname(self, hostname: &str) -> (r: Self)
        ensures
            r.hostname matches Some(h) && h@ == hostname@,
            r.action == self.action,
            r.protocol == self.protocol,
            r.path == self.path,
            r.port == self.port,
            r.content_type == self.content_type,
    {
        RequestBuilder { hostname: Some(String::from_str(hostname)), ..self }
    }

    /// Sets the media type label.
    pub fn with_content_type(self, content_type: &str) -> (r: Self)
        ensures
            r.content_type matches Some(c) && c@ == content_type@,
            r.action == self.action,
            r.protocol == self.protocol,
            r.path == self.path,
            r.hostname == self.hostname,
            r.port == self.port,
    {
        RequestBuilder { content_type: Some(String::from_str(content_type)), ..self }
    }

    /// Sets the target port.
    pub fn with_port(self, port: u16) -> (r: Self)
        ensures
            r.port == Some(port),
            r.action == self.action,
            r.protocol == self.protocol,
            r.path == self.path,
            r.hostname == self.hostname,
            r.content_type == self.content_type,
    {
        RequestBuilder { port: Some(port), ..self }
    }

    /// Assembles the request, validating every part that was given.
    ///
    /// Succeeds exactly when every given method, protocol and media-type
    /// name is recognized and a hostname is present; on failure reports one
    /// message per rejected part.
    pub fn build(&self) -> (r: Result<Request, RequestBuildError>)
        ensures
            r is Ok <==> spec_build_ok(*self),
            match r {
                Ok(req) => {
                    &&& req.action == (match self.action {
                        Some(a) => spec_action_from(a@)->0,
                        None => HttpAction::GET,
                    })
                    &&& req.protocol == (match self.protocol {
                        Some(p) => spec_protocol_from(p@)->0,
                        None => Protocol::HTTP1_1,
                    })
                    &&& req.path@ == (match self.path {
                        Some(p) => p@,
                        None => Seq::<char>::empty(),
                    })
                    &&& self.hostname matches Some(h) && req.hostname@ == h@
                    &&& req.port == (match self.port {
                        Some(p) => p,
                        None => 0u16,
                    })
                    &&& req.content_type == (match self.content_type {
                        Some(c) => spec_content_type_from(c@)->0,
                        None => ConentType::Plaintext,
                    })
                    &&& req.content@ == Seq::<char>::empty()
                },
                Err(e) => e@ == spec_build_errors(*self),
            },
    {
        let mut req = Request::default();
        let mut error_messages: Vec<String> = Vec::new();

        match &self.action {
            Some(action) => {
                match HttpAction::from_str(action.as_str()) {
                    Some(action) => {
                        req.action = action;
                    },
                    None => {
                        let mut m = String::from_str("Action was invalid, ");
                        m.append(action.as_str());
                        error_messages.push(m);
                    },
                }
            },
            None => {},
        }

        match &self.protocol {
            Some(protocol) => {
                match Protocol::from_str(protocol.as_str()) {
                    Some(protocol) => {
                        req.protocol = protocol;
                    },
                    None => {
                        let mut m = String::from_str("Protocol was invalid, ");
                        m.append(protocol.as_str());
                        error_messages.push(m);
                    },
                }
            },
            None => {},
        }

        match &self.path {
            Some(path) => {
                req.path = path.clone();
            },
            None => {},
        }

        match &self.hostname {
            Some(hostname) => {
                req.hostname = hostname.clone();
            },
            None => {
                error_messages.push(String::from_str("No hostname defined in request."));
            },
        }

        match &self.port {
            Some(port) => {
                req.port = *port;
            },
            None => {},
        }

        match &self.content_type {
            Some(content_type) => {
                match ConentType::from_str(content_type.as_str()) {
                    Some(ct) => {
                        req.content_type = ct;
                    },
                    None => {
                        let mut m = String::from_str("Content-type was invalid, ");
                        m.append(content_type.as_str());
                        error_messages.push(m);
                    },
                }
            },
            None => {},
        }

        if error_messages.len() > 0 {
            let e = RequestBuildError { error_messages };
            proof {
                assert(e@ =~~= spec_build_errors(*self));
            }
            return Err(e);
        }
        proof {
            assert(error_messages.deep_view() =~~= spec_build_errors(*self));
        }
        Ok(req)
    }
}

} // verus!
