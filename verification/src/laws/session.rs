//! What one step of a session does.

use crate::session::{
    session_step, Frame, FrameView, Session, SessionAction, SessionActionView, SessionEvent,
    SessionEventView, SessionFailure, SessionView, CONNECT_TIMEOUT_SECS, VALIDATION_PERIOD_SECS,
};
use crate::text::split_is_unique;
use vstd::prelude::*;

verus! {

/// A text is handed on as a chat message if and only if it is `MSG`, a space and that message. Any
/// other text with a space is passed over, and one without a space is the end of the connection. It
/// makes no difference whether the token was validated before.
pub proof fn messages_are_handed_on(text: Seq<char>, payload: Seq<char>)
    ensures
        ({
            let unchecked = session_step(
                SessionView::Polling(FrameView::Text(text)),
                SessionEventView::ValidationDue(false),
            );
            let checked = session_step(
                SessionView::Checking(FrameView::Text(text)),
                SessionEventView::TokenValid(true),
            );
            &&& checked == unchecked
            &&& unchecked == Some((SessionView::Handling, SessionActionView::Handle(payload)))
                <==> text == "MSG "@ + payload
            &&& text.contains(' ') && !(exists|p: Seq<char>| text == #[trigger] ("MSG "@ + p))
                ==> unchecked == Some((SessionView::Listening, SessionActionView::Receive))
            &&& !text.contains(' ') ==> unchecked == Some(
                (SessionView::Over, SessionActionView::Fail(SessionFailure::NoSpace)),
            )
        }),
{
    reveal_strlit("MSG ");
    reveal_strlit("MSG");
    let head = "MSG"@;
    assert("MSG "@ =~= head + seq![' ']);
    assert forall|p: Seq<char>| "MSG "@ + p =~= #[trigger] (head + seq![' '] + p) by {}
    assert(!head.contains(' '));
    split_is_unique(text, ' ', head, payload);
    assert("MSG "@ + payload =~= head + seq![' '] + payload);
    let tail = crate::text::behind(text, ' ');
    assert("MSG "@ + tail =~= head + seq![' '] + tail);
}

/// A ping is answered with what it carries, a close frame is the end of the connection, and any
/// other frame that is no text is passed over, whether or not the token was validated before.
pub proof fn other_frames_are_dealt_with(data: Seq<u8>)
    ensures
        session_step(
            SessionView::Polling(FrameView::Ping(data)),
            SessionEventView::ValidationDue(false),
        ) == Some((SessionView::Handling, SessionActionView::Pong(data))),
        session_step(
            SessionView::Checking(FrameView::Ping(data)),
            SessionEventView::TokenValid(true),
        ) == Some((SessionView::Handling, SessionActionView::Pong(data))),
        session_step(
            SessionView::Polling(FrameView::Close),
            SessionEventView::ValidationDue(false),
        ) == Some((SessionView::Over, SessionActionView::Fail(SessionFailure::Closed))),
        session_step(
            SessionView::Checking(FrameView::Close),
            SessionEventView::TokenValid(true),
        ) == Some((SessionView::Over, SessionActionView::Fail(SessionFailure::Closed))),
        session_step(
            SessionView::Polling(FrameView::Other),
            SessionEventView::ValidationDue(false),
        ) == Some((SessionView::Listening, SessionActionView::Receive)),
        session_step(
            SessionView::Checking(FrameView::Other),
            SessionEventView::TokenValid(true),
        ) == Some((SessionView::Listening, SessionActionView::Receive)),
{
}

/// A connection is taken up if and only if the chat answers with the status 101. If it does not,
/// or does not answer, it is given up.
pub proof fn connection_is_taken_up_at_101(status: u16)
    ensures
        session_step(SessionView::Connecting, SessionEventView::Connected(status)) == Some(
            (SessionView::Listening, SessionActionView::Receive),
        ) <==> status == 101,
        session_step(SessionView::Connecting, SessionEventView::Connected(status)) == Some(
            (SessionView::Over, SessionActionView::Fail(SessionFailure::NotSwitched)),
        ) <==> status != 101,
        session_step(SessionView::Connecting, SessionEventView::ConnectTimedOut) == Some(
            (SessionView::Over, SessionActionView::Fail(SessionFailure::ConnectTimedOut)),
        ),
        session_step(SessionView::Connecting, SessionEventView::ConnectFailed) == Some(
            (SessionView::Over, SessionActionView::Fail(SessionFailure::ConnectFailed)),
        ),
{
}

/// A frame that came is kept while the watchdog is told and while it is seen whether to validate
/// the token, and also while the token is validated, which is done just when it is due.
pub proof fn frames_are_kept(frame: FrameView)
    ensures
        session_step(SessionView::Listening, SessionEventView::Received(frame)) == Some(
            (SessionView::Beating(frame), SessionActionView::Beat),
        ),
        session_step(SessionView::Beating(frame), SessionEventView::Done) == Some(
            (SessionView::Polling(frame), SessionActionView::PollValidation),
        ),
        session_step(SessionView::Polling(frame), SessionEventView::ValidationDue(true)) == Some(
            (SessionView::Checking(frame), SessionActionView::ValidateToken),
        ),
        session_step(SessionView::Checking(frame), SessionEventView::TokenValid(false)) == Some(
            (SessionView::Refreshing, SessionActionView::RequestRefresh),
        ),
        session_step(SessionView::Polling(frame), SessionEventView::ValidationDue(false))
            == session_step(SessionView::Checking(frame), SessionEventView::TokenValid(true)),
{
}

/// A connection that cannot be read or goes wrong is given up, one that ends is left, one whose
/// token has expired is given up once a new token was asked for, and after a frame was dealt with
/// the next one is waited for.
pub proof fn connections_end()
    ensures
        session_step(SessionView::Listening, SessionEventView::ReadFailed) == Some(
            (SessionView::Over, SessionActionView::Fail(SessionFailure::ReadFailed)),
        ),
        session_step(SessionView::Listening, SessionEventView::FrameFailed) == Some(
            (SessionView::Over, SessionActionView::Fail(SessionFailure::FrameFailed)),
        ),
        session_step(SessionView::Listening, SessionEventView::Ended) == Some(
            (SessionView::Over, SessionActionView::Finish),
        ),
        session_step(SessionView::Refreshing, SessionEventView::Done) == Some(
            (SessionView::Over, SessionActionView::Fail(SessionFailure::TokenExpired)),
        ),
        session_step(SessionView::Handling, SessionEventView::Done) == Some(
            (SessionView::Listening, SessionActionView::Receive),
        ),
{
}

/// Which events a session waits for: what comes of making the connection while it is made, frames
/// and failures while it listens, whether to validate and whether the token is valid when it wants
/// to know, and that what it wanted done is done.
pub proof fn session_events_are_waited_for(v: SessionView, event: SessionEventView)
    ensures
        session_step(v, event) is Some <==> {
            ||| v is Connecting && (event is Connected || event is ConnectTimedOut
                || event is ConnectFailed)
            ||| v is Listening && (event is Received || event is ReadFailed || event is FrameFailed
                || event is Ended)
            ||| v is Polling && event is ValidationDue
            ||| v is Checking && event is TokenValid
            ||| (v is Beating || v is Refreshing || v is Handling) && event is Done
        },
{
}

/// How long is waited on the connection and between two validations of the token.
pub proof fn session_waits()
    ensures
        CONNECT_TIMEOUT_SECS == 10,
        VALIDATION_PERIOD_SECS == 30 * 60,
{
}

/// What is said of frames is said of what they carry.
pub proof fn frames_carry(frame: Frame)
    ensures
        frame matches Frame::Text(text) ==> frame@ == FrameView::Text(text@),
        frame matches Frame::Ping(data) ==> frame@ == FrameView::Ping(data@),
        frame is Close <==> frame@ is Close,
        frame is Other <==> frame@ is Other,
{
}

/// What is said of the events of a session is said of what they carry.
pub proof fn session_events_carry(event: SessionEvent)
    ensures
        event matches SessionEvent::Connected(status) ==> event@ == SessionEventView::Connected(
            status,
        ),
        event is ConnectTimedOut <==> event@ is ConnectTimedOut,
        event is ConnectFailed <==> event@ is ConnectFailed,
        event matches SessionEvent::Received(frame) ==> event@ == SessionEventView::Received(frame@),
        event is ReadFailed <==> event@ is ReadFailed,
        event is FrameFailed <==> event@ is FrameFailed,
        event is Ended <==> event@ is Ended,
        event matches SessionEvent::ValidationDue(due) ==> event@
            == SessionEventView::ValidationDue(due),
        event matches SessionEvent::TokenValid(valid) ==> event@ == SessionEventView::TokenValid(
            valid,
        ),
        event is Done <==> event@ is Done,
{
}

/// What is said of the actions of a session is said of what they carry.
pub proof fn session_actions_carry(action: SessionAction)
    ensures
        action is Receive <==> action@ is Receive,
        action is Beat <==> action@ is Beat,
        action is PollValidation <==> action@ is PollValidation,
        action is ValidateToken <==> action@ is ValidateToken,
        action is RequestRefresh <==> action@ is RequestRefresh,
        action matches SessionAction::Handle(payload) ==> action@ == SessionActionView::Handle(
            payload@,
        ),
        action matches SessionAction::Pong(data) ==> action@ == SessionActionView::Pong(data@),
        action matches SessionAction::Fail(failure) ==> action@ == SessionActionView::Fail(failure),
        action is Finish <==> action@ is Finish,
{
}

/// What is said of sessions is said of their states.
pub proof fn sessions_carry(session: Session)
    ensures
        session is Connecting <==> session@ is Connecting,
        session is Listening <==> session@ is Listening,
        session matches Session::Beating(frame) ==> session@ == SessionView::Beating(frame@),
        session matches Session::Polling(frame) ==> session@ == SessionView::Polling(frame@),
        session matches Session::Checking(frame) ==> session@ == SessionView::Checking(frame@),
        session is Refreshing <==> session@ is Refreshing,
        session is Handling <==> session@ is Handling,
        session is Over <==> session@ is Over,
{
}

} // verus!
