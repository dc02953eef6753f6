//! The duplex session pump: the state machine that drives one live
//! conversation over an established framed session.
//!
//! The pump owns no sockets. A caller waits on its two event sources — local
//! line input and inbound frames — and hands whichever event becomes ready to
//! [`step`], then carries out the returned [`Action`] (sending a frame, or
//! nothing). When a send fails, the caller reports it back as
//! [`Event::SendFailed`]. Once the state reaches [`State::Terminated`] the
//! pump is done: no further event produces a frame or leaves the terminal
//! state.

use vstd::prelude::*;
use crate::text::{is_blank, line_is_blank};

verus! {

/// Code and reason attached to a close frame.
pub struct CloseDetail {
    pub code: u16,
    pub reason: String,
}

/// Mathematical image of a [`CloseDetail`].
pub struct CloseDetailModel {
    pub code: u16,
    pub reason: Seq<char>,
}

impl View for CloseDetail {
    type V = CloseDetailModel;

    open spec fn view(&self) -> CloseDetailModel {
        CloseDetailModel { code: self.code, reason: self.reason@ }
    }
}

/// One discrete frame of the framed session, as the pump sees it.
///
/// `Other` stands for every frame kind the pump ignores (binary data and
/// anything else the framing layer may deliver).
pub enum Frame {
    Text(String),
    Ping(Vec<u8>),
    Pong(Vec<u8>),
    Close(Option<CloseDetail>),
    Other,
}

/// Mathematical image of a [`Frame`].
pub enum FrameModel {
    Text(Seq<char>),
    Ping(Seq<u8>),
    Pong(Seq<u8>),
    Close(Option<CloseDetailModel>),
    Other,
}

impl View for Frame {
    type V = FrameModel;

    open spec fn view(&self) -> FrameModel {
        match self {
            Frame::Text(t) => FrameModel::Text(t@),
            Frame::Ping(p) => FrameModel::Ping(p@),
            Frame::Pong(p) => FrameModel::Pong(p@),
            Frame::Close(d) => FrameModel::Close(
                match d {
                    Some(detail) => Some(detail@),
                    None => None,
                },
            ),
            Frame::Other => FrameModel::Other,
        }
    }
}

/// One event observed by the pump.
pub enum Event {
    /// A full line arrived from the local input source.
    LocalLine(String),
    /// The local input source reached its end.
    LocalClosed,
    /// Reading local input failed.
    LocalFailed,
    /// A frame arrived from the remote peer.
    Remote(Frame),
    /// Receiving from the remote peer failed.
    RemoteFailed,
    /// The inbound frame stream ended without a close frame.
    RemoteClosed,
    /// A frame the pump asked to send could not be sent.
    SendFailed,
}

/// Mathematical image of an [`Event`].
pub enum EventModel {
    LocalLine(Seq<char>),
    LocalClosed,
    LocalFailed,
    Remote(FrameModel),
    RemoteFailed,
    RemoteClosed,
    SendFailed,
}

impl View for Event {
    type V = EventModel;

    open spec fn view(&self) -> EventModel {
        match self {
            Event::LocalLine(l) => EventModel::LocalLine(l@),
            Event::LocalClosed => EventModel::LocalClosed,
            Event::LocalFailed => EventModel::LocalFailed,
            Event::Remote(f) => EventModel::Remote(f@),
            Event::RemoteFailed => EventModel::RemoteFailed,
            Event::RemoteClosed => EventModel::RemoteClosed,
            Event::SendFailed => EventModel::SendFailed,
        }
    }
}

/// What the caller must do after a step: nothing, or send one frame.
pub enum Action {
    Nothing,
    SendText(String),
    SendPong(Vec<u8>),
}

/// Mathematical image of an [`Action`].
pub enum ActionModel {
    Nothing,
    SendText(Seq<char>),
    SendPong(Seq<u8>),
}

impl View for Action {
    type V = ActionModel;

    open spec fn view(&self) -> ActionModel {
        match self {
            Action::Nothing => ActionModel::Nothing,
            Action::SendText(t) => ActionModel::SendText(t@),
            Action::SendPong(p) => ActionModel::SendPong(p@),
        }
    }
}

/// The pump's state: a single live state and a single terminal state.
#[derive(PartialEq, Eq, Structural, Clone, Copy, Debug)]
pub enum State {
    Open,
    Terminated,
}

/// The frames an action sends: none, or exactly the one it names.
pub open spec fn frames_of(a: ActionModel) -> Seq<FrameModel> {
    match a {
        ActionModel::Nothing => Seq::empty(),
        ActionModel::SendText(t) => seq![FrameModel::Text(t)],
        ActionModel::SendPong(p) => seq![FrameModel::Pong(p)],
    }
}

/// The pump's transition relation, one event at a time.
///
/// From `Open`:
/// - a non-blank local line is sent as one text frame, and only such lines are;
/// - end of local input, a local read failure, a remote receive failure, the
///   end of the inbound stream, a close frame and a failed send all terminate;
/// - an inbound ping is answered with a pong carrying the identical payload;
/// - inbound text, pong and other frames leave the state unchanged and send
///   nothing (text is for the caller to display).
///
/// `Terminated` is absorbing: every event maps to `Terminated` with no action.
pub open spec fn step_model(s: State, e: EventModel) -> (State, ActionModel) {
    if s == State::Terminated {
        (State::Terminated, ActionModel::Nothing)
    } else {
        match e {
            EventModel::LocalLine(l) => if is_blank(l) {
                (State::Open, ActionModel::Nothing)
            } else {
                (State::Open, ActionModel::SendText(l))
            },
            EventModel::LocalClosed => (State::Terminated, ActionModel::Nothing),
            EventModel::LocalFailed => (State::Terminated, ActionModel::Nothing),
            EventModel::Remote(f) => match f {
                FrameModel::Text(_) => (State::Open, ActionModel::Nothing),
                FrameModel::Ping(p) => (State::Open, ActionModel::SendPong(p)),
                FrameModel::Pong(_) => (State::Open, ActionModel::Nothing),
                FrameModel::Close(_) => (State::Terminated, ActionModel::Nothing),
                FrameModel::Other => (State::Open, ActionModel::Nothing),
            },
            EventModel::RemoteFailed => (State::Terminated, ActionModel::Nothing),
            EventModel::RemoteClosed => (State::Terminated, ActionModel::Nothing),
            EventModel::SendFailed => (State::Terminated, ActionModel::Nothing),
        }
    }
}

/// One transition of the pump. The result is exactly what the transition
/// relation [`step_model`] gives for this state and event.
pub fn step(s: State, e: Event) -> (r: (State, Action))
    ensures
        (r.0, r.1@) == step_model(s, e@),
{
    if s == State::Terminated {
        (State::Terminated, Action::Nothing)
    } else {
        match e {
            Event::LocalLine(l) => {
                if line_is_blank(l.as_str()) {
                    (State::Open, Action::Nothing)
                } else {
                    (State::Open, Action::SendText(l))
                }
            },
            Event::LocalClosed => (State::Terminated, Action::Nothing),
            Event::LocalFailed => (State::Terminated, Action::Nothing),
            Event::Remote(f) => match f {
                Frame::Text(_) => (State::Open, Action::Nothing),
                Frame::Ping(p) => (State::Open, Action::SendPong(p)),
                Frame::Pong(_) => (State::Open, Action::Nothing),
                Frame::Close(_) => (State::Terminated, Action::Nothing),
                Frame::Other => (State::Open, Action::Nothing),
            },
            Event::RemoteFailed => (State::Terminated, Action::Nothing),
            Event::RemoteClosed => (State::Terminated, Action::Nothing),
            Event::SendFailed => (State::Terminated, Action::Nothing),
        }
    }
}

/// The state after the pump has consumed the events `evs` in order, starting
/// from `s`.
pub open spec fn run_state(s: State, evs: Seq<EventModel>) -> State
    decreases evs.len(),
{
    if evs.len() == 0 {
        s
    } else {
        run_state(step_model(s, evs[0]).0, evs.drop_first())
    }
}

/// Every frame the pump sends while consuming the events `evs` in order,
/// starting from `s`, in sending order.
pub open spec fn run_sent(s: State, evs: Seq<EventModel>) -> Seq<FrameModel>
    decreases evs.len(),
{
    if evs.len() == 0 {
        Seq::empty()
    } else {
        frames_of(step_model(s, evs[0]).1) + run_sent(step_model(s, evs[0]).0, evs.drop_first())
    }
}

} // verus!
