use hyper::header::{HeaderName, HeaderValue};
use hyper::HeaderMap;
use ws_echo::request::{HttpVersion, Request, Response};
use ws_echo::router::{handle_request, Continuation};

const PEER: &str = "127.0.0.1:50123";
const SAMPLE_KEY: &[u8] = b"dGhlIHNhbXBsZSBub25jZQ==";

fn headers(pairs: &[(&str, &[u8])]) -> HeaderMap {
    let mut map = HeaderMap::new();
    for (name, value) in pairs {
        map.append(
            HeaderName::from_bytes(name.as_bytes()).unwrap(),
            HeaderValue::from_bytes(value).unwrap(),
        );
    }
    map
}

fn upgrade_headers(key: Option<&[u8]>, version: Option<&[u8]>) -> HeaderMap {
    let mut pairs: Vec<(&str, &[u8])> =
        vec![("Host", b"x"), ("Upgrade", b"websocket"), ("Connection", b"Upgrade")];
    if let Some(version) = version {
        pairs.push(("Sec-WebSocket-Version", version));
    }
    if let Some(key) = key {
        pairs.push(("Sec-WebSocket-Key", key));
    }
    headers(&pairs)
}

fn get(path: &str, headers: HeaderMap) -> Request {
    Request::new("GET", path, HttpVersion::Http11, headers)
}

fn value<'a>(response: &'a Response, name: &str) -> Option<&'a [u8]> {
    response.header(name).map(Vec::as_slice)
}

#[test]
fn plain_get_to_root() {
    let request = get("/", headers(&[("Host", b"x")]));
    let reply = handle_request(&request, PEER);
    assert_eq!(reply.response.status, 200);
    assert!(reply.response.body.starts_with("This / url doesn't do much"));
    assert_eq!(
        reply.response.body,
        "This / url doesn't do much, try accessing the /ws_echo url instead."
    );
    assert_eq!(reply.continuation, Continuation::Nothing);
    assert!(reply.diagnostic.is_none());
    assert!(reply.response.headers.is_empty());
    assert_eq!(reply.response.version, HttpVersion::Http11);
}

#[test]
fn plain_get_names_the_path() {
    let reply = handle_request(&get("/some/where", HeaderMap::new()), PEER);
    assert_eq!(reply.response.status, 200);
    assert_eq!(
        reply.response.body,
        "This /some/where url doesn't do much, try accessing the /ws_echo url instead."
    );
}

#[test]
fn plain_get_to_echo_path() {
    let request = get("/ws_echo", headers(&[("Host", b"x")]));
    let reply = handle_request(&request, PEER);
    assert_eq!(reply.response.status, 200);
    assert!(reply.response.body.starts_with("Getting even warmer"));
    assert_eq!(
        reply.response.body,
        "Getting even warmer, try connecting to this url using a websocket client."
    );
    assert_eq!(reply.continuation, Continuation::Nothing);
    assert!(reply.diagnostic.is_none());
}

#[test]
fn upgrade_to_other_path() {
    let request = get("/other", upgrade_headers(Some(SAMPLE_KEY), Some(b"13")));
    let reply = handle_request(&request, PEER);
    assert_eq!(reply.response.status, 200);
    assert!(reply.response.body.starts_with("Getting warmer"));
    assert_eq!(
        reply.response.body,
        "Getting warmer, but I'm only letting you connect via websocket over on /ws_echo, try that url."
    );
    assert_eq!(reply.continuation, Continuation::Nothing);
    assert!(reply.diagnostic.is_none());
}

#[test]
fn valid_handshake() {
    let request = get("/ws_echo", upgrade_headers(Some(SAMPLE_KEY), Some(b"13")));
    let reply = handle_request(&request, PEER);
    assert_eq!(reply.response.status, 101);
    assert_eq!(
        value(&reply.response, "Sec-WebSocket-Accept"),
        Some(b"s3pPLMBiTxaQ9kYGzzhZRbK+xOo=".as_slice())
    );
    assert_eq!(value(&reply.response, "Upgrade"), Some(b"websocket".as_slice()));
    assert_eq!(value(&reply.response, "Connection"), Some(b"Upgrade".as_slice()));
    assert_eq!(reply.response.headers.len(), 3);
    assert_eq!(reply.response.body, "");
    assert_eq!(reply.response.version, HttpVersion::Http11);
    assert_eq!(reply.continuation, Continuation::Echo);
    assert!(reply.diagnostic.is_none());
}

#[test]
fn headers_are_found_in_any_case() {
    let sent = headers(&[
        ("UPGRADE", b"WebSocket"),
        ("connection", b"keep-alive, upgrade"),
        ("sec-websocket-version", b"13"),
        ("SEC-WEBSOCKET-KEY", SAMPLE_KEY),
    ]);
    let reply = handle_request(&get("/ws_echo", sent), PEER);
    assert_eq!(reply.response.status, 101);
    assert_eq!(
        value(&reply.response, "sec-websocket-accept"),
        Some(b"s3pPLMBiTxaQ9kYGzzhZRbK+xOo=".as_slice())
    );
}

#[test]
fn any_upgrade_value_counts_as_present() {
    let reply = handle_request(&get("/elsewhere", headers(&[("Upgrade", b"h2c")])), PEER);
    assert_eq!(reply.response.status, 200);
    assert!(reply.response.body.starts_with("Getting warmer, but"));
}

#[test]
fn upgrade_to_another_protocol_is_rejected() {
    let sent = headers(&[
        ("Upgrade", b"h2c"),
        ("Sec-WebSocket-Version", b"13"),
        ("Sec-WebSocket-Key", SAMPLE_KEY),
    ]);
    let reply = handle_request(&get("/ws_echo", sent), PEER);
    assert_eq!(reply.response.status, 400);
    assert_eq!(
        reply.response.body,
        "Failed to create websocket: WebSocket protocol error: No \"Connection: upgrade\" header"
    );
    assert_eq!(reply.continuation, Continuation::Nothing);

    let sent = headers(&[
        ("Upgrade", b"h2c"),
        ("Connection", b"Upgrade"),
        ("Sec-WebSocket-Version", b"13"),
        ("Sec-WebSocket-Key", SAMPLE_KEY),
    ]);
    let reply = handle_request(&get("/ws_echo", sent), PEER);
    assert_eq!(reply.response.status, 400);
    assert_eq!(
        reply.response.body,
        "Failed to create websocket: WebSocket protocol error: No \"Upgrade: websocket\" header"
    );
    assert_eq!(reply.continuation, Continuation::Nothing);
}

#[test]
fn missing_key_is_rejected() {
    let request = get("/ws_echo", upgrade_headers(None, Some(b"13")));
    let reply = handle_request(&request, PEER);
    assert_eq!(reply.response.status, 400);
    assert_eq!(
        reply.response.body,
        "Failed to create websocket: WebSocket protocol error: No \"Sec-WebSocket-Key\" header"
    );
    assert_eq!(reply.continuation, Continuation::Nothing);
    assert_eq!(
        reply.diagnostic.as_deref(),
        Some(
            "Failed to create websocket response to request from address 127.0.0.1:50123. \
             Error is: WebSocket protocol error: No \"Sec-WebSocket-Key\" header"
        )
    );
}

#[test]
fn other_version_is_rejected() {
    let request = get("/ws_echo", upgrade_headers(Some(SAMPLE_KEY), Some(b"8")));
    let reply = handle_request(&request, PEER);
    assert_eq!(reply.response.status, 400);
    assert_eq!(
        reply.response.body,
        "Failed to create websocket: WebSocket protocol error: No \"Sec-WebSocket-Version: 13\" header"
    );
    assert_eq!(reply.continuation, Continuation::Nothing);
    assert!(reply.diagnostic.unwrap().contains(PEER));
}

#[test]
fn post_is_rejected() {
    let request = Request::new(
        "POST",
        "/ws_echo",
        HttpVersion::Http11,
        upgrade_headers(Some(SAMPLE_KEY), Some(b"13")),
    );
    let reply = handle_request(&request, PEER);
    assert_eq!(reply.response.status, 400);
    assert_eq!(
        reply.response.body,
        "Failed to create websocket: WebSocket protocol error: Unsupported HTTP method used - only GET is allowed"
    );
    assert_eq!(reply.continuation, Continuation::Nothing);
    assert!(reply.diagnostic.unwrap().contains(PEER));
}

#[test]
fn old_http_is_rejected() {
    let request = Request::new(
        "GET",
        "/ws_echo",
        HttpVersion::Http10,
        upgrade_headers(Some(SAMPLE_KEY), Some(b"13")),
    );
    let reply = handle_request(&request, PEER);
    assert_eq!(reply.response.status, 400);
    assert_eq!(
        reply.response.body,
        "Failed to create websocket: WebSocket protocol error: HTTP version must be 1.1 or higher"
    );
    assert_eq!(reply.continuation, Continuation::Nothing);
}

#[test]
fn echo_follows_exactly_the_accepting_response() {
    let paths = ["/", "/ws_echo", "/other"];
    let methods = ["GET", "POST"];
    let versions = [HttpVersion::Http10, HttpVersion::Http11];
    let header_sets = [
        HeaderMap::new(),
        headers(&[("Upgrade", b"websocket")]),
        upgrade_headers(None, None),
        upgrade_headers(None, Some(b"13")),
        upgrade_headers(Some(b"a2V5"), None),
        upgrade_headers(Some(b"a2V5"), Some(b"12")),
        upgrade_headers(Some(b"a2V5"), Some(b"13")),
    ];
    for path in paths {
        for method in methods {
            for version in versions {
                for headers in &header_sets {
                    let request = Request::new(method, path, version, headers.clone());
                    let reply = handle_request(&request, PEER);
                    let accepted = path == "/ws_echo"
                        && method == "GET"
                        && version == HttpVersion::Http11
                        && request.has_header("upgrade")
                        && request.has_header("connection")
                        && request.header("sec-websocket-version") == Some(b"13".as_slice())
                        && request.has_header("sec-websocket-key");
                    assert_eq!(reply.response.status == 101, accepted);
                    assert_eq!(reply.continuation == Continuation::Echo, accepted);
                    if path == "/ws_echo" && request.has_header("upgrade") && !accepted {
                        assert_eq!(reply.response.status, 400);
                    }
                    if !(path == "/ws_echo" && request.has_header("upgrade")) {
                        assert_eq!(reply.response.status, 200);
                    }
                }
            }
        }
    }
}
