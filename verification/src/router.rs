//! The request handler: from a request and the peer's address to the
//! response and what is to happen once it is sent.

use vstd::prelude::*;
use crate::handshake::{
    accept_key, bad_request, create_response, reject_response, switching_protocols, verdict,
};
use crate::report::{handshake_failure, handshake_failure_line};
use crate::request::{HttpVersion, Request, RequestView, Response, ResponseView};
use crate::text::same_text;

verus! {

/// What is to happen on the connection once the response is sent.
#[derive(Clone, Copy, Debug, PartialEq, Eq, Structural)]
pub enum Continuation {
    /// Nothing: the connection stays with the HTTP engine.
    Nothing,
    /// The connection is upgraded, and the echo takes the raw stream over.
    Echo,
}

/// The handler's answer to one request.
#[derive(Clone, Debug)]
pub struct Reply {
    /// The response to send.
    pub response: Response,
    /// What follows the response.
    pub continuation: Continuation,
    /// A line to print, where the request was an anomaly.
    pub diagnostic: Option<String>,
}

/// What a [`Reply`] stands for.
pub struct ReplyView {
    pub response: ResponseView,
    pub continuation: Continuation,
    pub diagnostic: Option<Seq<char>>,
}

impl View for Reply {
    type V = ReplyView;

    open spec fn view(&self) -> ReplyView {
        ReplyView {
            response: self.response@,
            continuation: self.continuation,
            diagnostic: match self.diagnostic {
                Some(line) => Some(line@),
                None => None,
            },
        }
    }
}

/// A `200 OK` reply with a text body, nothing to follow and nothing to print.
pub open spec fn hint(body: Seq<char>) -> ReplyView {
    ReplyView {
        response: ResponseView {
            status: 200,
            version: HttpVersion::Http11,
            headers: Seq::empty(),
            body,
        },
        continuation: Continuation::Nothing,
        diagnostic: None,
    }
}

/// The hint for the echo path when no upgrade is asked for.
pub open spec fn warmer_hint() -> Seq<char> {
    "Getting even warmer, try connecting to this url using a websocket client."@
}

/// The hint for an upgrade asked for on another path.
pub open spec fn wrong_path_hint() -> Seq<char> {
    "Getting warmer, but I'm only letting you connect via websocket over on /ws_echo, try that url."@
}

/// The hint for any other path, which it names.
pub open spec fn plain_hint(path: Seq<char>) -> Seq<char> {
    "This "@ + path + " url doesn't do much, try accessing the /ws_echo url instead."@
}

/// The routing table. The echo path with an `Upgrade` header gets the
/// handshake: `101` and the echo to follow where the request passes, else
/// `400` and a line that names the peer. Everything else gets a hint.
pub open spec fn route(request: RequestView, peer: Seq<char>) -> ReplyView {
    let upgrade = request.has_header("Upgrade"@);
    if request.path == "/ws_echo"@ && upgrade {
        match verdict(request) {
            Ok(key) => ReplyView {
                response: switching_protocols(accept_key(key), request.version),
                continuation: Continuation::Echo,
                diagnostic: None,
            },
            Err(error) => ReplyView {
                response: bad_request(error),
                continuation: Continuation::Nothing,
                diagnostic: Some(handshake_failure_line(peer, error.text())),
            },
        }
    } else if request.path == "/ws_echo"@ {
        hint(warmer_hint())
    } else if upgrade {
        hint(wrong_path_hint())
    } else {
        hint(plain_hint(request.path))
    }
}

fn hint_reply(body: String) -> (res: Reply)
    ensures
        res@ == hint(body@),
{
    Reply {
        response: Response::text(200, body),
        continuation: Continuation::Nothing,
        diagnostic: None,
    }
}

/// Answers one request from `peer`.
pub fn handle_request(request: &Request, peer: &str) -> (res: Reply)
    ensures
        res@ == route(request@, peer@),
{
    let echo_path = same_text(request.path.as_str(), "/ws_echo");
    let upgrade = request.has_header("Upgrade");
    if echo_path && upgrade {
        match create_response(request) {
            Ok(response) => Reply {
                response,
                continuation: Continuation::Echo,
                diagnostic: None,
            },
            Err(error) => {
                let message = error.message();
                Reply {
                    response: reject_response(error),
                    continuation: Continuation::Nothing,
                    diagnostic: Some(handshake_failure(peer, message.as_str())),
                }
            },
        }
    } else if echo_path {
        hint_reply(
            String::from_str(
                "Getting even warmer, try connecting to this url using a websocket client.",
            ),
        )
    } else if upgrade {
        hint_reply(
            String::from_str(
                "Getting warmer, but I'm only letting you connect via websocket over on /ws_echo, try that url.",
            ),
        )
    } else {
        let mut body = String::from_str("This ");
        body.append(request.path.as_str());
        body.append(" url doesn't do much, try accessing the /ws_echo url instead.");
        hint_reply(body)
    }
}

} // verus!
