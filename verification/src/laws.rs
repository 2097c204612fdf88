//! What holds of the handler and of the echo on every input.

use vstd::prelude::*;
use vstd::utf8::{encode_utf8, is_ascii_chars, is_ascii_chars_encode_utf8};
use crate::echo::{
    exchange, frames_sent, next_action, next_state, pong_for, state_after, ActionView, ConnState,
    EventView, FrameView, Opcode, OutcomeView,
};
use crate::echo::outcome_line;
use crate::handshake::{
    accept_key, connection_lists_upgrade, upgrade_says_websocket, verdict, HandshakeError,
};
use crate::report::{
    echo_failure_line, handshake_failure_line, names, normal_close_line, upgrade_failure_line,
};
use crate::request::{first_value_from, HeaderView, RequestView};
use crate::router::{plain_hint, route, warmer_hint, wrong_path_hint, Continuation};
use crate::text::same_ignoring_case;
use crate::token::{is_text, piece_at, token_at};

verus! {

/// Looking a name up from position `from` on finds nothing exactly when no
/// header from there on carries the name, and what it finds is the value of
/// the first header that carries it. Names are compared without regard to
/// ASCII case.
pub proof fn lemma_lookup_finds_first(headers: Seq<HeaderView>, name: Seq<char>, from: int)
    requires
        0 <= from,
    ensures
        first_value_from(headers, name, from) is None <==> forall|i: int|
            from <= i < headers.len() ==> !same_ignoring_case(#[trigger] headers[i].name, name),
        first_value_from(headers, name, from) is Some ==> exists|i: int|
            from <= i < headers.len() && same_ignoring_case(#[trigger] headers[i].name, name)
                && first_value_from(headers, name, from) == Some(headers[i].value) && forall|
                j: int,
            |
                from <= j < i ==> !same_ignoring_case(#[trigger] headers[j].name, name),
    decreases headers.len() - from,
{
    if from < headers.len() {
        if !same_ignoring_case(headers[from].name, name) {
            lemma_lookup_finds_first(headers, name, from + 1);
        }
    }
}

/// A request has a header of a name exactly when one of its headers carries
/// that name, in whatever case it is written.
pub proof fn lemma_header_presence(request: RequestView, name: Seq<char>)
    ensures
        request.has_header(name) <==> exists|i: int|
            0 <= i < request.headers.len() && same_ignoring_case(
                #[trigger] request.headers[i].name,
                name,
            ),
{
    lemma_lookup_finds_first(request.headers, name, 0);
}

/// Every row of the routing table: the status and the body that a request
/// gets, by its path and by whether it carries an `Upgrade` header. The echo
/// follows exactly the responses with status `101`.
pub proof fn lemma_routing_table(request: RequestView, peer: Seq<char>)
    ensures
        ({
            let reply = route(request, peer);
            let echo_path = request.path == "/ws_echo"@;
            let upgrade = request.has_header("Upgrade"@);
            &&& echo_path && upgrade && verdict(request) is Ok ==> {
                &&& reply.response.status == 101
                &&& reply.response.body == Seq::<char>::empty()
            }
            &&& echo_path && upgrade && verdict(request) is Err ==> {
                &&& reply.response.status == 400
                &&& reply.response.body == "Failed to create websocket: "@ + verdict(
                    request,
                )->Err_0.text()
            }
            &&& echo_path && !upgrade ==> {
                &&& reply.response.status == 200
                &&& reply.response.body == warmer_hint()
            }
            &&& !echo_path && upgrade ==> {
                &&& reply.response.status == 200
                &&& reply.response.body == wrong_path_hint()
            }
            &&& !echo_path && !upgrade ==> {
                &&& reply.response.status == 200
                &&& reply.response.body == plain_hint(request.path)
            }
            &&& reply.continuation == Continuation::Echo <==> reply.response.status == 101
        }),
{
}

/// An upgrade request is turned down exactly when it breaks one of the six
/// rules, and a request that passes hands out the value of its first
/// `Sec-WebSocket-Key` header.
pub proof fn lemma_rejection_rules(request: RequestView)
    ensures
        verdict(request) is Err <==> {
            ||| request.method != "GET"@
            ||| !request.version.at_least_1_1()
            ||| !connection_lists_upgrade(request)
            ||| !upgrade_says_websocket(request)
            ||| request.header("Sec-WebSocket-Version"@) != Some(encode_utf8("13"@))
            ||| request.header("Sec-WebSocket-Key"@) is None
        },
        verdict(request) is Ok ==> request.header("Sec-WebSocket-Key"@) == Some(
            verdict(request)->Ok_0,
        ),
{
}

/// The bytes of an ASCII text are its characters, one byte each.
proof fn lemma_ascii_bytes(text: Seq<char>)
    requires
        is_ascii_chars(text),
    ensures
        encode_utf8(text).len() == text.len(),
        forall|i: int| 0 <= i < text.len() ==> #[trigger] encode_utf8(text)[i] == text[i] as u8,
{
    is_ascii_chars_encode_utf8(text);
}

/// A `Connection` value of `Upgrade` and an `Upgrade` value of `websocket`,
/// as a client writes them, pass the two rules on these headers.
pub proof fn lemma_plain_upgrade_headers_pass(request: RequestView)
    requires
        request.header("Connection"@) == Some(encode_utf8("Upgrade"@)),
        request.header("Upgrade"@) == Some(encode_utf8("websocket"@)),
    ensures
        connection_lists_upgrade(request),
        upgrade_says_websocket(request),
{
    reveal_strlit("Upgrade");
    reveal_strlit("websocket");
    let upgrade = encode_utf8("Upgrade"@);
    let websocket = encode_utf8("websocket"@);
    lemma_ascii_bytes("Upgrade"@);
    lemma_ascii_bytes("websocket"@);
    assert(is_text(upgrade));
    assert(is_text(websocket));
    assert(upgrade.subrange(0, upgrade.len() as int) =~= upgrade);
    assert(piece_at(upgrade, 0, upgrade.len() as int));
    assert(token_at(upgrade, upgrade, 0));
}

/// A `GET` on the echo path in HTTP/1.1 or later with `Upgrade: websocket`,
/// `Connection: Upgrade`, version 13 and the key `key` is answered by `101`
/// with `Upgrade: websocket`, `Connection: Upgrade` and the accept value of
/// `key`, with no body, and the echo follows.
pub proof fn lemma_valid_handshake_is_accepted(
    request: RequestView,
    peer: Seq<char>,
    key: Seq<u8>,
)
    requires
        request.method == "GET"@,
        request.path == "/ws_echo"@,
        request.version.at_least_1_1(),
        request.header("Upgrade"@) == Some(encode_utf8("websocket"@)),
        request.header("Connection"@) == Some(encode_utf8("Upgrade"@)),
        request.header("Sec-WebSocket-Version"@) == Some(encode_utf8("13"@)),
        request.header("Sec-WebSocket-Key"@) == Some(key),
    ensures
        verdict(request) == Ok::<Seq<u8>, HandshakeError>(key),
        route(request, peer).response.status == 101,
        route(request, peer).response.headers == seq![
            HeaderView { name: "Connection"@, value: encode_utf8("Upgrade"@) },
            HeaderView { name: "Upgrade"@, value: encode_utf8("websocket"@) },
            HeaderView { name: "Sec-WebSocket-Accept"@, value: accept_key(key) },
        ],
        route(request, peer).response.body == Seq::<char>::empty(),
        route(request, peer).continuation == Continuation::Echo,
        route(request, peer).diagnostic is None,
{
    lemma_plain_upgrade_headers_pass(request);
}

/// A request on the echo path with an `Upgrade` header and no key is
/// answered by `400`, and the connection is not upgraded.
pub proof fn lemma_missing_key_is_rejected(request: RequestView, peer: Seq<char>)
    requires
        request.path == "/ws_echo"@,
        request.has_header("Upgrade"@),
        request.header("Sec-WebSocket-Key"@) is None,
    ensures
        verdict(request) is Err,
        route(request, peer).response.status == 400,
        route(request, peer).continuation == Continuation::Nothing,
        route(request, peer).diagnostic is Some,
{
}

/// Data frames that arrive on an open connection, each answered before the
/// next, are sent back as they came and in the order in which they came, and
/// the connection stays open.
pub proof fn lemma_echo_identity(frames: Seq<FrameView>)
    requires
        forall|i: int| 0 <= i < frames.len() ==> (#[trigger] frames[i]).opcode.is_data(),
    ensures
        frames_sent(ConnState::Open, exchange(frames)) == frames,
        state_after(ConnState::Open, exchange(frames)) == ConnState::Open,
    decreases frames.len(),
{
    if frames.len() > 0 {
        let events = exchange(frames);
        let tail = exchange(frames.drop_first());
        assert(events[0] == EventView::Received(frames[0]));
        assert(events.drop_first() =~= seq![EventView::Sent] + tail);
        assert(events.drop_first()[0] == EventView::Sent);
        assert(events.drop_first().drop_first() =~= tail);
        lemma_echo_identity(frames.drop_first());
        assert(frames_sent(ConnState::Open, events.drop_first()) == frames.drop_first());
        assert(state_after(ConnState::Open, events.drop_first()) == ConnState::Open);
        assert(seq![frames[0]] + frames.drop_first() =~= frames);
    }
}

/// Once a connection is closing or closed, nothing more is sent on it,
/// whatever happens, and any event leaves it closed.
pub proof fn lemma_silent_after_close(state: ConnState, events: Seq<EventView>)
    requires
        state != ConnState::Open,
    ensures
        frames_sent(state, events) == Seq::<FrameView>::empty(),
        events.len() > 0 ==> state_after(state, events) == ConnState::Closed,
    decreases events.len(),
{
    if events.len() > 0 {
        lemma_silent_after_close(ConnState::Closed, events.drop_first());
    }
}

/// A close frame from the peer on an open connection is answered by the
/// same close frame and by nothing after it; once that frame is sent the
/// connection is closed in good order.
pub proof fn lemma_close_is_mirrored(close: FrameView, rest: Seq<EventView>)
    requires
        close.opcode == Opcode::Close,
    ensures
        next_action(ConnState::Open, EventView::Received(close)) == ActionView::Send(close),
        next_state(ConnState::Open, EventView::Received(close)) == ConnState::ClosingRemote,
        next_state(ConnState::ClosingRemote, EventView::Sent) == ConnState::Closed,
        next_action(ConnState::ClosingRemote, EventView::Sent) == ActionView::Finish(
            OutcomeView::Clean,
        ),
        frames_sent(ConnState::Open, seq![EventView::Received(close)] + rest) == seq![close],
{
    let events = seq![EventView::Received(close)] + rest;
    assert(events[0] == EventView::Received(close));
    assert(events.drop_first() =~= rest);
    lemma_silent_after_close(ConnState::ClosingRemote, rest);
    assert(seq![close] + Seq::<FrameView>::empty() =~= seq![close]);
}

/// A ping on an open connection is answered by a pong with the same
/// payload, and the connection stays open.
pub proof fn lemma_ping_is_answered(ping: FrameView)
    requires
        ping.opcode == Opcode::Ping,
    ensures
        next_action(ConnState::Open, EventView::Received(ping)) == ActionView::Send(
            pong_for(ping),
        ),
        pong_for(ping).opcode == Opcode::Pong,
        pong_for(ping).payload == ping.payload,
        next_state(ConnState::Open, EventView::Received(ping)) == ConnState::Open,
{
}

/// The events that happened on connection `id`, out of events that are each
/// tagged with the connection on which they happened.
pub open spec fn events_of(id: int, tagged: Seq<(int, EventView)>) -> Seq<EventView>
    decreases tagged.len(),
{
    if tagged.len() == 0 {
        Seq::empty()
    } else if tagged[0].0 == id {
        seq![tagged[0].1] + events_of(id, tagged.drop_first())
    } else {
        events_of(id, tagged.drop_first())
    }
}

/// The frames sent on connection `id` by a server that keeps one state for
/// each connection, `states`, and takes the tagged events one after the
/// other, each with the state of the connection on which it happened.
pub open spec fn frames_sent_on(
    id: int,
    states: spec_fn(int) -> ConnState,
    tagged: Seq<(int, EventView)>,
) -> Seq<FrameView>
    decreases tagged.len(),
{
    if tagged.len() == 0 {
        Seq::empty()
    } else {
        let on = tagged[0].0;
        let event = tagged[0].1;
        let stepped = |k: int| if k == on { next_state(states(on), event) } else { states(k) };
        let rest = frames_sent_on(id, stepped, tagged.drop_first());
        match next_action(states(on), event) {
            ActionView::Send(frame) => if on == id {
                seq![frame] + rest
            } else {
                rest
            },
            _ => rest,
        }
    }
}

/// However the events of several connections are interleaved, what is sent
/// on one of them is what would be sent on it if it were the only one: it
/// depends on the events of that connection and on nothing else.
pub proof fn lemma_connections_are_independent(
    id: int,
    states: spec_fn(int) -> ConnState,
    tagged: Seq<(int, EventView)>,
)
    ensures
        frames_sent_on(id, states, tagged) == frames_sent(states(id), events_of(id, tagged)),
    decreases tagged.len(),
{
    if tagged.len() > 0 {
        let on = tagged[0].0;
        let event = tagged[0].1;
        let stepped = |k: int| if k == on { next_state(states(on), event) } else { states(k) };
        lemma_connections_are_independent(id, stepped, tagged.drop_first());
        if on == id {
            let own = events_of(id, tagged);
            assert(own[0] == event);
            assert(own.drop_first() =~= events_of(id, tagged.drop_first()));
        }
    }
}

/// A failure or an orderly end of the stream ends the connection from every
/// state: the next state is closed and the next action is to stop.
pub proof fn lemma_stream_end_closes(state: ConnState, error: Seq<char>)
    ensures
        next_state(state, EventView::Failed(error)) == ConnState::Closed,
        next_action(state, EventView::Failed(error)) == ActionView::Finish(
            OutcomeView::Failed(error),
        ),
        next_state(state, EventView::Closed) == ConnState::Closed,
        next_action(state, EventView::Closed) == ActionView::Finish(OutcomeView::Clean),
{
}

/// A line made of three parts in a row names the middle one.
proof fn lemma_names_middle(before: Seq<char>, part: Seq<char>, after: Seq<char>)
    ensures
        names(before + part + after, part),
{
    let line = before + part + after;
    let at = before.len() as int;
    assert(line.subrange(at, at + part.len()) =~= part);
}

/// Every line that reports what happened on a connection names the peer:
/// the lines for a handshake turned down, for an upgrade that failed, for
/// an echo that failed and for a clean close, and so the line for every
/// outcome of the echo.
pub proof fn lemma_lines_name_the_peer(peer: Seq<char>, error: Seq<char>)
    ensures
        names(handshake_failure_line(peer, error), peer),
        names(upgrade_failure_line(peer, error), peer),
        names(echo_failure_line(peer, error), peer),
        names(normal_close_line(peer), peer),
        names(outcome_line(OutcomeView::Clean, peer), peer),
        names(outcome_line(OutcomeView::Failed(error), peer), peer),
{
    let rejected = "Failed to create websocket response to request from address "@;
    lemma_names_middle(rejected, peer, ". Error is: "@ + error);
    assert(handshake_failure_line(peer, error) =~= rejected + peer + (". Error is: "@ + error));
    let upgrading = "error when trying to upgrade connection from address "@;
    let upgrading_end = " to websocket connection. Error is: "@ + error;
    lemma_names_middle(upgrading, peer, upgrading_end);
    assert(upgrade_failure_line(peer, error) =~= upgrading + peer + upgrading_end);
    let echoing = "error creating echo stream on connection from address "@;
    lemma_names_middle(echoing, peer, ". Error is "@ + error);
    assert(echo_failure_line(peer, error) =~= echoing + peer + (". Error is "@ + error));
    lemma_names_middle("Connection from address "@, peer, " closed normally"@);
}

} // verus!
