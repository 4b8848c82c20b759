//! What is done on a connection to the chat.
//!
//! A [`Session`] goes from connecting to the end of the connection. Each step tells what to do
//! next, and the next step is given what came of it.

use crate::text::{before, behind, same_text, split_char, split_is_unique, split_once};
use vstd::prelude::*;

verus! {

/// The status with which the chat takes up a connection.
pub const SWITCHING_PROTOCOLS: u16 = 101;

/// How long to wait for the chat to answer a request for a connection, in seconds.
pub const CONNECT_TIMEOUT_SECS: u64 = 10;

/// How long to wait before the token is validated again, in seconds.
pub const VALIDATION_PERIOD_SECS: u64 = 1_800;

/// A frame that the chat sent.
#[derive(Debug)]
pub enum Frame {
    Text(String),
    Ping(Vec<u8>),
    Close,
    /// Any other frame.
    Other,
}

/// The contents of a [`Frame`].
pub enum FrameView {
    Text(Seq<char>),
    Ping(Seq<u8>),
    Close,
    Other,
}

impl View for Frame {
    type V = FrameView;

    open spec fn view(&self) -> FrameView {
        match self {
            Frame::Text(text) => FrameView::Text(text@),
            Frame::Ping(data) => FrameView::Ping(data@),
            Frame::Close => FrameView::Close,
            Frame::Other => FrameView::Other,
        }
    }
}

/// What came of the last action.
#[derive(Debug)]
pub enum SessionEvent {
    /// The chat answered the request for a connection with a status.
    Connected(u16),
    /// The chat did not answer it in time.
    ConnectTimedOut,
    /// The connection could not be made.
    ConnectFailed,
    /// A frame came.
    Received(Frame),
    /// The connection could not be read.
    ReadFailed,
    /// Something else went wrong with the connection.
    FrameFailed,
    /// No more frames will come.
    Ended,
    /// Whether it is time to validate the token.
    ValidationDue(bool),
    /// Whether the token is valid.
    TokenValid(bool),
    /// What was to be done is done.
    Done,
}

/// The contents of a [`SessionEvent`].
pub enum SessionEventView {
    Connected(u16),
    ConnectTimedOut,
    ConnectFailed,
    Received(FrameView),
    ReadFailed,
    FrameFailed,
    Ended,
    ValidationDue(bool),
    TokenValid(bool),
    Done,
}

impl View for SessionEvent {
    type V = SessionEventView;

    open spec fn view(&self) -> SessionEventView {
        match self {
            SessionEvent::Connected(status) => SessionEventView::Connected(*status),
            SessionEvent::ConnectTimedOut => SessionEventView::ConnectTimedOut,
            SessionEvent::ConnectFailed => SessionEventView::ConnectFailed,
            SessionEvent::Received(frame) => SessionEventView::Received(frame@),
            SessionEvent::ReadFailed => SessionEventView::ReadFailed,
            SessionEvent::FrameFailed => SessionEventView::FrameFailed,
            SessionEvent::Ended => SessionEventView::Ended,
            SessionEvent::ValidationDue(due) => SessionEventView::ValidationDue(*due),
            SessionEvent::TokenValid(valid) => SessionEventView::TokenValid(*valid),
            SessionEvent::Done => SessionEventView::Done,
        }
    }
}

/// Why a connection is given up.
#[derive(Clone, Copy, Debug, PartialEq, Eq, Structural)]
pub enum SessionFailure {
    /// The chat did not take up the connection.
    NotSwitched,
    /// The chat did not answer in time.
    ConnectTimedOut,
    /// The connection could not be made.
    ConnectFailed,
    /// The connection could not be read.
    ReadFailed,
    /// Something else went wrong with the connection.
    FrameFailed,
    /// The token has expired.
    TokenExpired,
    /// A text has no space.
    NoSpace,
    /// The chat closed the connection.
    Closed,
}

/// What to do next.
#[derive(Debug)]
pub enum SessionAction {
    /// Wait for a frame.
    Receive,
    /// Tell the watchdog that the connection is alive.
    Beat,
    /// See whether it is time to validate the token.
    PollValidation,
    /// Validate the token.
    ValidateToken,
    /// Ask for a new token.
    RequestRefresh,
    /// Deal with this chat message, which is still encoded.
    Handle(String),
    /// Answer a ping with this.
    Pong(Vec<u8>),
    /// Give the connection up.
    Fail(SessionFailure),
    /// Leave the connection.
    Finish,
}

/// The contents of a [`SessionAction`].
pub enum SessionActionView {
    Receive,
    Beat,
    PollValidation,
    ValidateToken,
    RequestRefresh,
    Handle(Seq<char>),
    Pong(Seq<u8>),
    Fail(SessionFailure),
    Finish,
}

impl View for SessionAction {
    type V = SessionActionView;

    open spec fn view(&self) -> SessionActionView {
        match self {
            SessionAction::Receive => SessionActionView::Receive,
            SessionAction::Beat => SessionActionView::Beat,
            SessionAction::PollValidation => SessionActionView::PollValidation,
            SessionAction::ValidateToken => SessionActionView::ValidateToken,
            SessionAction::RequestRefresh => SessionActionView::RequestRefresh,
            SessionAction::Handle(payload) => SessionActionView::Handle(payload@),
            SessionAction::Pong(data) => SessionActionView::Pong(data@),
            SessionAction::Fail(failure) => SessionActionView::Fail(*failure),
            SessionAction::Finish => SessionActionView::Finish,
        }
    }
}

/// A connection to the chat.
#[derive(Debug)]
pub enum Session {
    /// The connection is being made.
    Connecting,
    /// A frame is waited for.
    Listening,
    /// The watchdog is told of a frame.
    Beating(Frame),
    /// It is seen whether to validate the token before a frame is dealt with.
    Polling(Frame),
    /// The token is validated before a frame is dealt with.
    Checking(Frame),
    /// A new token is asked for.
    Refreshing,
    /// A frame is dealt with.
    Handling,
    /// The connection was given up or left.
    Over,
}

/// The contents of a [`Session`].
pub enum SessionView {
    Connecting,
    Listening,
    Beating(FrameView),
    Polling(FrameView),
    Checking(FrameView),
    Refreshing,
    Handling,
    Over,
}

impl View for Session {
    type V = SessionView;

    open spec fn view(&self) -> SessionView {
        match self {
            Session::Connecting => SessionView::Connecting,
            Session::Listening => SessionView::Listening,
            Session::Beating(frame) => SessionView::Beating(frame@),
            Session::Polling(frame) => SessionView::Polling(frame@),
            Session::Checking(frame) => SessionView::Checking(frame@),
            Session::Refreshing => SessionView::Refreshing,
            Session::Handling => SessionView::Handling,
            Session::Over => SessionView::Over,
        }
    }
}

/// How a frame is dealt with: a text that begins with `MSG` and a space is a chat message, and
/// other texts are passed over unless they have no space at all; a ping is answered with what it
/// carries; and a close frame is the end.
pub open spec fn dispatch(frame: FrameView) -> (SessionView, SessionActionView) {
    match frame {
        FrameView::Text(text) => if !text.contains(' ') {
            (SessionView::Over, SessionActionView::Fail(SessionFailure::NoSpace))
        } else if before(text, ' ') == "MSG"@ {
            (SessionView::Handling, SessionActionView::Handle(behind(text, ' ')))
        } else {
            (SessionView::Listening, SessionActionView::Receive)
        },
        FrameView::Ping(data) => (SessionView::Handling, SessionActionView::Pong(data)),
        FrameView::Close => (SessionView::Over, SessionActionView::Fail(SessionFailure::Closed)),
        FrameView::Other => (SessionView::Listening, SessionActionView::Receive),
    }
}

/// How a connection is given up.
pub open spec fn given_up(failure: SessionFailure) -> (SessionView, SessionActionView) {
    (SessionView::Over, SessionActionView::Fail(failure))
}

/// One step of a session: its next state and what to do. There is none for an event that the
/// session does not wait for.
pub open spec fn session_step(v: SessionView, event: SessionEventView) -> Option<
    (SessionView, SessionActionView),
> {
    match (v, event) {
        (SessionView::Connecting, SessionEventView::Connected(status)) => Some(
            if status == SWITCHING_PROTOCOLS {
                (SessionView::Listening, SessionActionView::Receive)
            } else {
                given_up(SessionFailure::NotSwitched)
            },
        ),
        (SessionView::Connecting, SessionEventView::ConnectTimedOut) => Some(
            given_up(SessionFailure::ConnectTimedOut),
        ),
        (SessionView::Connecting, SessionEventView::ConnectFailed) => Some(
            given_up(SessionFailure::ConnectFailed),
        ),
        (SessionView::Listening, SessionEventView::Received(frame)) => Some(
            (SessionView::Beating(frame), SessionActionView::Beat),
        ),
        (SessionView::Listening, SessionEventView::ReadFailed) => Some(
            given_up(SessionFailure::ReadFailed),
        ),
        (SessionView::Listening, SessionEventView::FrameFailed) => Some(
            given_up(SessionFailure::FrameFailed),
        ),
        (SessionView::Listening, SessionEventView::Ended) => Some(
            (SessionView::Over, SessionActionView::Finish),
        ),
        (SessionView::Beating(frame), SessionEventView::Done) => Some(
            (SessionView::Polling(frame), SessionActionView::PollValidation),
        ),
        (SessionView::Polling(frame), SessionEventView::ValidationDue(due)) => Some(
            if due {
                (SessionView::Checking(frame), SessionActionView::ValidateToken)
            } else {
                dispatch(frame)
            },
        ),
        (SessionView::Checking(frame), SessionEventView::TokenValid(valid)) => Some(
            if valid {
                dispatch(frame)
            } else {
                (SessionView::Refreshing, SessionActionView::RequestRefresh)
            },
        ),
        (SessionView::Refreshing, SessionEventView::Done) => Some(
            given_up(SessionFailure::TokenExpired),
        ),
        (SessionView::Handling, SessionEventView::Done) => Some(
            (SessionView::Listening, SessionActionView::Receive),
        ),
        _ => None,
    }
}

impl Session {
    /// A connection that is being made.
    pub fn new() -> (r: Session)
        ensures
            r@ == SessionView::Connecting,
    {
        Session::Connecting
    }

    /// Whether the session waits for an event.
    pub fn accepts(&self, event: &SessionEvent) -> (r: bool)
        ensures
            r == (session_step(self@, event@) is Some),
    {
        match (self, event) {
            (Session::Connecting, SessionEvent::Connected(_)) => true,
            (Session::Connecting, SessionEvent::ConnectTimedOut) => true,
            (Session::Connecting, SessionEvent::ConnectFailed) => true,
            (Session::Listening, SessionEvent::Received(_)) => true,
            (Session::Listening, SessionEvent::ReadFailed) => true,
            (Session::Listening, SessionEvent::FrameFailed) => true,
            (Session::Listening, SessionEvent::Ended) => true,
            (Session::Beating(_), SessionEvent::Done) => true,
            (Session::Polling(_), SessionEvent::ValidationDue(_)) => true,
            (Session::Checking(_), SessionEvent::TokenValid(_)) => true,
            (Session::Refreshing, SessionEvent::Done) => true,
            (Session::Handling, SessionEvent::Done) => true,
            _ => false,
        }
    }

    /// Gives the connection up.
    fn give_up(&mut self, failure: SessionFailure) -> (r: SessionAction)
        ensures
            (final(self)@, r@) == given_up(failure),
    {
        *self = Session::Over;
        SessionAction::Fail(failure)
    }

    /// Waits for the next frame.
    fn listen(&mut self) -> (r: SessionAction)
        ensures
            final(self)@ == SessionView::Listening,
            r@ == SessionActionView::Receive,
    {
        *self = Session::Listening;
        SessionAction::Receive
    }

    /// Deals with a frame.
    fn dispatch(&mut self, frame: Frame) -> (r: SessionAction)
        ensures
            (final(self)@, r@) == dispatch(frame@),
    {
        match frame {
            Frame::Text(text) => {
                if split_char(text.as_str(), ' ').is_none() {
                    return self.give_up(SessionFailure::NoSpace);
                }
                let (msg_type, msg_data) = split_once(text.as_str());
                proof {
                    split_is_unique(text@, ' ', msg_type@, msg_data@);
                }
                if same_text(msg_type, "MSG") {
                    *self = Session::Handling;
                    SessionAction::Handle(msg_data.to_owned())
                } else {
                    self.listen()
                }
            },
            Frame::Ping(data) => {
                *self = Session::Handling;
                SessionAction::Pong(data)
            },
            Frame::Close => self.give_up(SessionFailure::Closed),
            Frame::Other => self.listen(),
        }
    }

    /// Takes what came of the last action and tells what to do next.
    pub fn step(&mut self, event: SessionEvent) -> (r: SessionAction)
        requires
            session_step(old(self)@, event@) is Some,
        ensures
            session_step(old(self)@, event@) == Some((final(self)@, r@)),
    {
        let mut session = Session::Over;
        std::mem::swap(&mut session, self);
        match (session, event) {
            (Session::Connecting, SessionEvent::Connected(SWITCHING_PROTOCOLS)) => self.listen(),
            (Session::Connecting, SessionEvent::Connected(_)) => self.give_up(
                SessionFailure::NotSwitched,
            ),
            (Session::Connecting, SessionEvent::ConnectTimedOut) => self.give_up(
                SessionFailure::ConnectTimedOut,
            ),
            (Session::Connecting, SessionEvent::ConnectFailed) => self.give_up(
                SessionFailure::ConnectFailed,
            ),
            (Session::Listening, SessionEvent::Received(frame)) => {
                *self = Session::Beating(frame);
                SessionAction::Beat
            },
            (Session::Listening, SessionEvent::ReadFailed) => self.give_up(
                SessionFailure::ReadFailed,
            ),
            (Session::Listening, SessionEvent::FrameFailed) => self.give_up(
                SessionFailure::FrameFailed,
            ),
            (Session::Listening, SessionEvent::Ended) => SessionAction::Finish,
            (Session::Beating(frame), SessionEvent::Done) => {
                *self = Session::Polling(frame);
                SessionAction::PollValidation
            },
            (Session::Polling(frame), SessionEvent::ValidationDue(true)) => {
                *self = Session::Checking(frame);
                SessionAction::ValidateToken
            },
            (Session::Polling(frame), SessionEvent::ValidationDue(false)) => self.dispatch(frame),
            (Session::Checking(frame), SessionEvent::TokenValid(true)) => self.dispatch(frame),
            (Session::Checking(_), SessionEvent::TokenValid(false)) => {
                *self = Session::Refreshing;
                SessionAction::RequestRefresh
            },
            (Session::Refreshing, SessionEvent::Done) => self.give_up(
                SessionFailure::TokenExpired,
            ),
            _ => self.listen(),
        }
    }
}

} // verus!
