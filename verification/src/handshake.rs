//! The opening handshake: which upgrade requests are accepted, and the
//! response that accepts or rejects one.

use vstd::prelude::*;
use vstd::utf8::encode_utf8;
use crate::request::{Header, HeaderView, HttpVersion, Request, RequestView, Response, ResponseView};
use crate::text::{folded, same_bytes, same_bytes_ignoring_case, same_text};
use crate::token::{has_token, holds_token, is_header_text, is_text};

verus! {

/// Why an upgrade request is turned down.
#[derive(Clone, Copy, Debug, PartialEq, Eq, Structural)]
pub enum HandshakeError {
    /// The request method is not `GET`.
    MethodNotGet,
    /// The request is written in a version of HTTP before 1.1.
    HttpVersionTooOld,
    /// The request has no `Connection` header that lists `upgrade`.
    ConnectionNotUpgrade,
    /// The request has no `Upgrade` header that says `websocket`.
    UpgradeNotWebSocket,
    /// The request does not declare `Sec-WebSocket-Version: 13`.
    UnsupportedVersion,
    /// The request carries no `Sec-WebSocket-Key`.
    MissingKey,
}

impl HandshakeError {
    /// The diagnostic that names this error.
    pub open spec fn text(self) -> Seq<char> {
        match self {
            HandshakeError::MethodNotGet =>
                "WebSocket protocol error: Unsupported HTTP method used - only GET is allowed"@,
            HandshakeError::HttpVersionTooOld =>
                "WebSocket protocol error: HTTP version must be 1.1 or higher"@,
            HandshakeError::ConnectionNotUpgrade =>
                "WebSocket protocol error: No \"Connection: upgrade\" header"@,
            HandshakeError::UpgradeNotWebSocket =>
                "WebSocket protocol error: No \"Upgrade: websocket\" header"@,
            HandshakeError::UnsupportedVersion =>
                "WebSocket protocol error: No \"Sec-WebSocket-Version: 13\" header"@,
            HandshakeError::MissingKey =>
                "WebSocket protocol error: No \"Sec-WebSocket-Key\" header"@,
        }
    }

    /// The diagnostic that names this error.
    pub fn message(&self) -> (res: String)
        ensures
            res@ == self.text(),
    {
        match self {
            HandshakeError::MethodNotGet => String::from_str(
                "WebSocket protocol error: Unsupported HTTP method used - only GET is allowed",
            ),
            HandshakeError::HttpVersionTooOld => String::from_str(
                "WebSocket protocol error: HTTP version must be 1.1 or higher",
            ),
            HandshakeError::ConnectionNotUpgrade => String::from_str(
                "WebSocket protocol error: No \"Connection: upgrade\" header",
            ),
            HandshakeError::UpgradeNotWebSocket => String::from_str(
                "WebSocket protocol error: No \"Upgrade: websocket\" header",
            ),
            HandshakeError::UnsupportedVersion => String::from_str(
                "WebSocket protocol error: No \"Sec-WebSocket-Version: 13\" header",
            ),
            HandshakeError::MissingKey => String::from_str(
                "WebSocket protocol error: No \"Sec-WebSocket-Key\" header",
            ),
        }
    }
}

/// The `Sec-WebSocket-Accept` value that answers the client key `key`: the
/// base64 text, as bytes, of the SHA-1 digest of the key followed by the
/// bytes of `258EAFA5-E914-47DA-95CA-C5AB0DC85B11`.
pub uninterp spec fn accept_key(key: Seq<u8>) -> Seq<u8>;

/// Calls `tungstenite::handshake::derive_accept_key` on `key`. That
/// function hashes its argument followed by the protocol's fixed GUID with
/// SHA-1 and returns the digest as base64 text, handed on here as bytes.
/// Neither step is proved here: the contract only gives the result its name.
#[verifier::external_body]
fn derive_accept_key(key: &[u8]) -> (res: Vec<u8>)
    ensures
        res@ == accept_key(key@),
{
    tungstenite::handshake::derive_accept_key(key).into_bytes()
}

/// Whether the request's `Connection` header lists `upgrade`: its first
/// value is header text and has that token among the pieces parted by
/// spaces and commas, in whatever case.
pub open spec fn connection_lists_upgrade(request: RequestView) -> bool {
    match request.header("Connection"@) {
        Some(value) => is_text(value) && has_token(value, encode_utf8("Upgrade"@)),
        None => false,
    }
}

/// Whether the request's `Upgrade` header says `websocket`: its first
/// value is header text and is that word, in whatever case.
pub open spec fn upgrade_says_websocket(request: RequestView) -> bool {
    match request.header("Upgrade"@) {
        Some(value) => is_text(value) && folded(value) == folded(encode_utf8("websocket"@)),
        None => false,
    }
}

/// The verdict on an upgrade request: the client's key where the request is
/// accepted, else the first rule that it breaks. The rules, in the order in
/// which they are looked at: the method is `GET`; the HTTP version is 1.1 or
/// later; `Connection` lists `upgrade`; `Upgrade` says `websocket`;
/// `Sec-WebSocket-Version` is `13`; there is a `Sec-WebSocket-Key`.
pub open spec fn verdict(request: RequestView) -> Result<Seq<u8>, HandshakeError> {
    if request.method != "GET"@ {
        Err(HandshakeError::MethodNotGet)
    } else if !request.version.at_least_1_1() {
        Err(HandshakeError::HttpVersionTooOld)
    } else if !connection_lists_upgrade(request) {
        Err(HandshakeError::ConnectionNotUpgrade)
    } else if !upgrade_says_websocket(request) {
        Err(HandshakeError::UpgradeNotWebSocket)
    } else if request.header("Sec-WebSocket-Version"@) != Some(encode_utf8("13"@)) {
        Err(HandshakeError::UnsupportedVersion)
    } else {
        match request.header("Sec-WebSocket-Key"@) {
            Some(key) => Ok(key),
            None => Err(HandshakeError::MissingKey),
        }
    }
}

/// The response that accepts an upgrade, given the accept value and the
/// version of the request that it answers.
pub open spec fn switching_protocols(accept: Seq<u8>, version: HttpVersion) -> ResponseView {
    ResponseView {
        status: 101,
        version,
        headers: seq![
            HeaderView { name: "Connection"@, value: encode_utf8("Upgrade"@) },
            HeaderView { name: "Upgrade"@, value: encode_utf8("websocket"@) },
            HeaderView { name: "Sec-WebSocket-Accept"@, value: accept },
        ],
        body: Seq::empty(),
    }
}

/// The response that turns an upgrade down.
pub open spec fn bad_request(error: HandshakeError) -> ResponseView {
    ResponseView {
        status: 400,
        version: HttpVersion::Http11,
        headers: Seq::empty(),
        body: "Failed to create websocket: "@ + error.text(),
    }
}

fn lists_upgrade(request: &Request) -> (res: bool)
    ensures
        res == connection_lists_upgrade(request@),
{
    match request.header("Connection") {
        Some(value) => is_header_text(value) && holds_token(value, "Upgrade".as_bytes()),
        None => false,
    }
}

fn says_websocket(request: &Request) -> (res: bool)
    ensures
        res == upgrade_says_websocket(request@),
{
    match request.header("Upgrade") {
        Some(value) => is_header_text(value) && same_bytes_ignoring_case(
            value,
            "websocket".as_bytes(),
        ),
        None => false,
    }
}

fn declares_version_13(request: &Request) -> (res: bool)
    ensures
        res == (request@.header("Sec-WebSocket-Version"@) == Some(encode_utf8("13"@))),
{
    match request.header("Sec-WebSocket-Version") {
        Some(value) => same_bytes(value, "13".as_bytes()),
        None => false,
    }
}

/// Checks an upgrade request and hands out the client's key.
pub fn client_key(request: &Request) -> (res: Result<&[u8], HandshakeError>)
    ensures
        match res {
            Ok(key) => verdict(request@) == Ok::<Seq<u8>, HandshakeError>(key@),
            Err(error) => verdict(request@) == Err::<Seq<u8>, HandshakeError>(error),
        },
{
    if !same_text(request.method.as_str(), "GET") {
        return Err(HandshakeError::MethodNotGet);
    }
    if !request.version.is_at_least_1_1() {
        return Err(HandshakeError::HttpVersionTooOld);
    }
    if !lists_upgrade(request) {
        return Err(HandshakeError::ConnectionNotUpgrade);
    }
    if !says_websocket(request) {
        return Err(HandshakeError::UpgradeNotWebSocket);
    }
    if !declares_version_13(request) {
        return Err(HandshakeError::UnsupportedVersion);
    }
    match request.header("Sec-WebSocket-Key") {
        Some(key) => Ok(key),
        None => Err(HandshakeError::MissingKey),
    }
}

/// The `101 Switching Protocols` response, in the given version, that
/// carries `accept`.
pub fn accept_response(accept: Vec<u8>, version: HttpVersion) -> (res: Response)
    ensures
        res@ == switching_protocols(accept@, version),
{
    let mut headers: Vec<Header> = Vec::new();
    headers.push(Header::new("Connection", "Upgrade".as_bytes()));
    headers.push(Header::new("Upgrade", "websocket".as_bytes()));
    headers.push(Header { name: String::from_str("Sec-WebSocket-Accept"), value: accept });
    let res = Response { status: 101, version, headers, body: String::new() };
    assert(res@.headers =~= switching_protocols(accept@, version).headers);
    res
}

/// The `400 Bad Request` response that names `error` in its body.
pub fn reject_response(error: HandshakeError) -> (res: Response)
    ensures
        res@ == bad_request(error),
{
    let mut body = String::from_str("Failed to create websocket: ");
    let message = error.message();
    body.append(message.as_str());
    Response::text(400, body)
}

/// Answers an upgrade request: the accepting response where the request
/// passes, else the error for the first rule that it breaks.
pub fn create_response(request: &Request) -> (res: Result<Response, HandshakeError>)
    ensures
        match res {
            Ok(response) => verdict(request@) is Ok && response@ == switching_protocols(
                accept_key(verdict(request@)->Ok_0),
                request@.version,
            ),
            Err(error) => verdict(request@) == Err::<Seq<u8>, HandshakeError>(error),
        },
{
    match client_key(request) {
        Ok(key) => Ok(accept_response(derive_accept_key(key), request.version)),
        Err(error) => Err(error),
    }
}

} // verus!
