//! The echo on an upgraded connection, as a state machine.
//!
//! The program that owns the stream performs one action at a time and
//! reports what came of it as an event; [`step`] answers with the next state
//! and the next action. A frame is sent before the next one is read, so
//! nothing queues up when the peer reads slowly.

use vstd::prelude::*;
use crate::report::{echo_failure, echo_failure_line, normal_close, normal_close_line};

verus! {

/// The kind of a frame.
#[derive(Clone, Copy, Debug, PartialEq, Eq, Structural)]
pub enum Opcode {
    Continuation,
    Text,
    Binary,
    Close,
    Ping,
    Pong,
}

impl Opcode {
    /// Whether frames of this kind carry message data.
    pub open spec fn is_data(self) -> bool {
        self == Opcode::Continuation || self == Opcode::Text || self == Opcode::Binary
    }
}

/// One WebSocket frame: its kind, whether it ends its message, and its
/// payload.
#[derive(Clone, Debug)]
pub struct Frame {
    pub opcode: Opcode,
    pub fin: bool,
    pub payload: Vec<u8>,
}

/// What a [`Frame`] stands for.
pub struct FrameView {
    pub opcode: Opcode,
    pub fin: bool,
    pub payload: Seq<u8>,
}

impl View for Frame {
    type V = FrameView;

    open spec fn view(&self) -> FrameView {
        FrameView { opcode: self.opcode, fin: self.fin, payload: self.payload@ }
    }
}

/// The state of a connection after the upgrade.
#[derive(Clone, Copy, Debug, PartialEq, Eq, Structural)]
pub enum ConnState {
    /// Frames are read and echoed.
    Open,
    /// The peer has sent a close frame; the answering close is on its way.
    ClosingRemote,
    /// The connection is over.
    Closed,
}

/// What came of the last action.
#[derive(Clone, Debug)]
pub enum Event {
    /// A frame arrived.
    Received(Frame),
    /// The frame handed over for sending was accepted.
    Sent,
    /// The framing layer reports the connection closed in good order.
    Closed,
    /// Reading or sending failed, with the error's text.
    Failed(String),
}

/// What an [`Event`] stands for.
pub enum EventView {
    Received(FrameView),
    Sent,
    Closed,
    Failed(Seq<char>),
}

impl View for Event {
    type V = EventView;

    open spec fn view(&self) -> EventView {
        match self {
            Event::Received(frame) => EventView::Received(frame@),
            Event::Sent => EventView::Sent,
            Event::Closed => EventView::Closed,
            Event::Failed(error) => EventView::Failed(error@),
        }
    }
}

/// How a connection ended.
#[derive(Clone, Debug)]
pub enum Outcome {
    /// In good order.
    Clean,
    /// With an error, whose text this is.
    Failed(String),
}

/// What an [`Outcome`] stands for.
pub enum OutcomeView {
    Clean,
    Failed(Seq<char>),
}

impl View for Outcome {
    type V = OutcomeView;

    open spec fn view(&self) -> OutcomeView {
        match self {
            Outcome::Clean => OutcomeView::Clean,
            Outcome::Failed(error) => OutcomeView::Failed(error@),
        }
    }
}

/// What to do next on the connection.
#[derive(Clone, Debug)]
pub enum Action {
    /// Wait for the next frame.
    Receive,
    /// Send this frame, and wait until it is accepted.
    Send(Frame),
    /// Stop and release the stream.
    Finish(Outcome),
}

/// What an [`Action`] stands for.
pub enum ActionView {
    Receive,
    Send(FrameView),
    Finish(OutcomeView),
}

impl View for Action {
    type V = ActionView;

    open spec fn view(&self) -> ActionView {
        match self {
            Action::Receive => ActionView::Receive,
            Action::Send(frame) => ActionView::Send(frame@),
            Action::Finish(outcome) => ActionView::Finish(outcome@),
        }
    }
}

/// The pong that answers `ping`: the same payload and finality.
pub open spec fn pong_for(ping: FrameView) -> FrameView {
    FrameView { opcode: Opcode::Pong, fin: ping.fin, payload: ping.payload }
}

/// The state that follows `state` on `event`.
///
/// A failure or an orderly end closes the connection from every state. While
/// open, a close frame from the peer starts the closing, and every other
/// event leaves the connection open. While closing, every event closes it.
pub open spec fn next_state(state: ConnState, event: EventView) -> ConnState {
    match (state, event) {
        (ConnState::Open, EventView::Received(frame)) => if frame.opcode == Opcode::Close {
            ConnState::ClosingRemote
        } else {
            ConnState::Open
        },
        (ConnState::Open, EventView::Sent) => ConnState::Open,
        _ => ConnState::Closed,
    }
}

/// The action that `event` calls for in `state`.
///
/// While open: a data frame is sent back as it came, a ping is answered by
/// its pong, a pong is dropped, a close frame is sent back as it came, and
/// after a send the next frame is awaited. Everything else ends the
/// connection: with the error's text after a failure, in good order
/// otherwise.
pub open spec fn next_action(state: ConnState, event: EventView) -> ActionView {
    match (state, event) {
        (ConnState::Open, EventView::Received(frame)) => match frame.opcode {
            Opcode::Ping => ActionView::Send(pong_for(frame)),
            Opcode::Pong => ActionView::Receive,
            _ => ActionView::Send(frame),
        },
        (ConnState::Open, EventView::Sent) => ActionView::Receive,
        (_, EventView::Failed(error)) => ActionView::Finish(OutcomeView::Failed(error)),
        _ => ActionView::Finish(OutcomeView::Clean),
    }
}

/// The state of a connection right after the upgrade, and its first action.
pub fn start() -> (res: (ConnState, Action))
    ensures
        res.0 == ConnState::Open,
        res.1@ == ActionView::Receive,
{
    (ConnState::Open, Action::Receive)
}

/// One step of the connection: the state and the action that follow `state`
/// on `event`.
pub fn step(state: ConnState, event: Event) -> (res: (ConnState, Action))
    ensures
        res.0 == next_state(state, event@),
        res.1@ == next_action(state, event@),
{
    match state {
        ConnState::Open => match event {
            Event::Received(frame) => match frame.opcode {
                Opcode::Close => (ConnState::ClosingRemote, Action::Send(frame)),
                Opcode::Ping => (
                    ConnState::Open,
                    Action::Send(Frame { opcode: Opcode::Pong, fin: frame.fin, payload: frame.payload }),
                ),
                Opcode::Pong => (ConnState::Open, Action::Receive),
                _ => (ConnState::Open, Action::Send(frame)),
            },
            Event::Sent => (ConnState::Open, Action::Receive),
            Event::Closed => (ConnState::Closed, Action::Finish(Outcome::Clean)),
            Event::Failed(error) => (ConnState::Closed, Action::Finish(Outcome::Failed(error))),
        },
        _ => match event {
            Event::Failed(error) => (ConnState::Closed, Action::Finish(Outcome::Failed(error))),
            _ => (ConnState::Closed, Action::Finish(Outcome::Clean)),
        },
    }
}

/// The state of a connection that was in `state` before `events` happened
/// one after the other.
pub open spec fn state_after(state: ConnState, events: Seq<EventView>) -> ConnState
    decreases events.len(),
{
    if events.len() == 0 {
        state
    } else {
        state_after(next_state(state, events[0]), events.drop_first())
    }
}

/// The frames handed over for sending, in order, while `events` happen one
/// after the other on a connection that starts in `state`.
pub open spec fn frames_sent(state: ConnState, events: Seq<EventView>) -> Seq<FrameView>
    decreases events.len(),
{
    if events.len() == 0 {
        Seq::empty()
    } else {
        let rest = frames_sent(next_state(state, events[0]), events.drop_first());
        match next_action(state, events[0]) {
            ActionView::Send(frame) => seq![frame] + rest,
            _ => rest,
        }
    }
}

/// The events of a peer that sends `frames` one by one, each of them
/// answered before the next arrives.
pub open spec fn exchange(frames: Seq<FrameView>) -> Seq<EventView>
    decreases frames.len(),
{
    if frames.len() == 0 {
        Seq::empty()
    } else {
        seq![EventView::Received(frames[0]), EventView::Sent] + exchange(frames.drop_first())
    }
}

/// The line that reports `outcome` for the connection of `peer`.
pub open spec fn outcome_line(outcome: OutcomeView, peer: Seq<char>) -> Seq<char> {
    match outcome {
        OutcomeView::Clean => normal_close_line(peer),
        OutcomeView::Failed(error) => echo_failure_line(peer, error),
    }
}

impl Outcome {
    /// The line that reports this outcome for the connection of `peer`.
    pub fn line(&self, peer: &str) -> (res: String)
        ensures
            res@ == outcome_line(self@, peer@),
    {
        match self {
            Outcome::Clean => normal_close(peer),
            Outcome::Failed(error) => echo_failure(peer, error.as_str()),
        }
    }
}

} // verus!
