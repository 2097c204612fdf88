use ws_echo::echo::{start, step, Action, ConnState, Event, Frame, Opcode, Outcome};

fn frame(opcode: Opcode, fin: bool, payload: &[u8]) -> Frame {
    Frame { opcode, fin, payload: payload.to_vec() }
}

fn sent(action: Action) -> Frame {
    match action {
        Action::Send(frame) => frame,
        other => panic!("expected a frame to send, got {:?}", other),
    }
}

fn same(a: &Frame, b: &Frame) -> bool {
    a.opcode == b.opcode && a.fin == b.fin && a.payload == b.payload
}

/// Feeds the events to the machine one by one and collects the frames that
/// it hands over for sending.
fn run(events: Vec<Event>) -> (ConnState, Vec<Frame>) {
    let (mut state, first) = start();
    assert!(matches!(first, Action::Receive));
    let mut frames = Vec::new();
    for event in events {
        let (next, action) = step(state, event);
        state = next;
        if let Action::Send(frame) = action {
            frames.push(frame);
        }
    }
    (state, frames)
}

#[test]
fn starts_open_and_reading() {
    let (state, action) = start();
    assert_eq!(state, ConnState::Open);
    assert!(matches!(action, Action::Receive));
}

#[test]
fn echo_text() {
    let (state, action) =
        step(ConnState::Open, Event::Received(frame(Opcode::Text, true, b"hello")));
    assert_eq!(state, ConnState::Open);
    let echoed = sent(action);
    assert_eq!(echoed.opcode, Opcode::Text);
    assert!(echoed.fin);
    assert_eq!(echoed.payload, b"hello".to_vec());
    let (state, action) = step(state, Event::Sent);
    assert_eq!(state, ConnState::Open);
    assert!(matches!(action, Action::Receive));
}

#[test]
fn echo_binary_then_close() {
    let close_payload = [0x03u8, 0xe8];
    let (state, frames) = run(vec![
        Event::Received(frame(Opcode::Binary, true, &[0x01, 0x02, 0x03])),
        Event::Sent,
        Event::Received(frame(Opcode::Close, true, &close_payload)),
        Event::Sent,
    ]);
    assert_eq!(state, ConnState::Closed);
    assert_eq!(frames.len(), 2);
    assert!(same(&frames[0], &frame(Opcode::Binary, true, &[0x01, 0x02, 0x03])));
    assert!(same(&frames[1], &frame(Opcode::Close, true, &close_payload)));
}

#[test]
fn echoes_in_order_with_kind_and_finality() {
    let messages = vec![
        frame(Opcode::Text, false, b"one "),
        frame(Opcode::Continuation, true, b"two"),
        frame(Opcode::Binary, true, &[]),
        frame(Opcode::Text, true, "gr\u{fc}\u{df}e".as_bytes()),
        frame(Opcode::Binary, true, &[0xff, 0x00, 0x7f]),
    ];
    let mut events = Vec::new();
    for message in &messages {
        events.push(Event::Received(message.clone()));
        events.push(Event::Sent);
    }
    let (state, frames) = run(events);
    assert_eq!(state, ConnState::Open);
    assert_eq!(frames.len(), messages.len());
    for (echoed, message) in frames.iter().zip(messages.iter()) {
        assert!(same(echoed, message));
    }
}

#[test]
fn ping_is_answered_with_its_payload() {
    let (state, action) =
        step(ConnState::Open, Event::Received(frame(Opcode::Ping, true, b"are you there")));
    assert_eq!(state, ConnState::Open);
    assert!(same(&sent(action), &frame(Opcode::Pong, true, b"are you there")));
}

#[test]
fn pong_is_dropped() {
    let (state, action) =
        step(ConnState::Open, Event::Received(frame(Opcode::Pong, true, b"late")));
    assert_eq!(state, ConnState::Open);
    assert!(matches!(action, Action::Receive));
}

#[test]
fn close_is_mirrored_and_ends_cleanly() {
    let close = frame(Opcode::Close, true, &[0x03, 0xe8, b'b', b'y', b'e']);
    let (state, action) = step(ConnState::Open, Event::Received(close.clone()));
    assert_eq!(state, ConnState::ClosingRemote);
    assert!(same(&sent(action), &close));
    let (state, action) = step(state, Event::Sent);
    assert_eq!(state, ConnState::Closed);
    assert!(matches!(action, Action::Finish(Outcome::Clean)));
}

#[test]
fn nothing_is_sent_after_a_close() {
    let (state, frames) = run(vec![
        Event::Received(frame(Opcode::Close, true, &[])),
        Event::Received(frame(Opcode::Text, true, b"too late")),
        Event::Received(frame(Opcode::Ping, true, b"p")),
        Event::Sent,
    ]);
    assert_eq!(state, ConnState::Closed);
    assert_eq!(frames.len(), 1);
    assert_eq!(frames[0].opcode, Opcode::Close);
}

#[test]
fn failure_ends_the_connection_from_every_state() {
    for state in [ConnState::Open, ConnState::ClosingRemote, ConnState::Closed] {
        let (next, action) = step(state, Event::Failed(String::from("IO error: broken pipe")));
        assert_eq!(next, ConnState::Closed);
        match action {
            Action::Finish(Outcome::Failed(error)) => assert_eq!(error, "IO error: broken pipe"),
            other => panic!("expected a failure, got {:?}", other),
        }
    }
}

#[test]
fn orderly_end_is_clean_from_every_state() {
    for state in [ConnState::Open, ConnState::ClosingRemote, ConnState::Closed] {
        let (next, action) = step(state, Event::Closed);
        assert_eq!(next, ConnState::Closed);
        assert!(matches!(action, Action::Finish(Outcome::Clean)));
    }
}

#[test]
fn closed_stays_closed() {
    let events = vec![
        Event::Sent,
        Event::Received(frame(Opcode::Text, true, b"x")),
        Event::Received(frame(Opcode::Close, true, &[])),
    ];
    for event in events {
        let (next, action) = step(ConnState::Closed, event);
        assert_eq!(next, ConnState::Closed);
        assert!(matches!(action, Action::Finish(Outcome::Clean)));
    }
}

#[test]
fn connections_do_not_share_state() {
    let (mut first, _) = start();
    let (mut second, _) = start();
    let mut first_out = Vec::new();
    let mut second_out = Vec::new();
    for round in 0u8..4 {
        let (state, action) =
            step(first, Event::Received(frame(Opcode::Binary, true, &[1, round])));
        first = state;
        first_out.push(sent(action));
        let (state, action) =
            step(second, Event::Received(frame(Opcode::Text, true, &[b'a' + round])));
        second = state;
        second_out.push(sent(action));
        if round == 1 {
            second = step(second, Event::Failed(String::from("reset"))).0;
            break;
        }
    }
    assert_eq!(second, ConnState::Closed);
    assert_eq!(first, ConnState::Open);
    let (first, action) = step(first, Event::Received(frame(Opcode::Binary, true, &[9])));
    assert_eq!(first, ConnState::Open);
    assert!(same(&sent(action), &frame(Opcode::Binary, true, &[9])));
    assert!(first_out.iter().all(|f| f.opcode == Opcode::Binary && f.payload[0] == 1));
    assert!(second_out.iter().all(|f| f.opcode == Opcode::Text));
}

#[test]
fn outcome_lines_name_the_peer() {
    assert_eq!(
        Outcome::Clean.line("10.0.0.7:4242"),
        "Connection from address 10.0.0.7:4242 closed normally"
    );
    assert_eq!(
        Outcome::Failed(String::from("Connection reset without closing handshake"))
            .line("10.0.0.7:4242"),
        "error creating echo stream on connection from address 10.0.0.7:4242. \
         Error is Connection reset without closing handshake"
    );
}
