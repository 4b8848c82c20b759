use dgg_embeds::session::{Frame, Session, SessionAction, SessionEvent, SessionFailure};
use dgg_embeds::supervise::{
    log_level, watch, AfterJoin, LogLevel, LogLevelError, RestartNotice, Supervisor, Thread,
    WatchAction, WebsocketThreadError,
};

fn step(session: &mut Session, event: SessionEvent) -> SessionAction {
    assert!(session.accepts(&event));
    session.step(event)
}

fn connected() -> Session {
    let mut session = Session::new();
    let action = step(&mut session, SessionEvent::Connected(101));
    assert!(matches!(action, SessionAction::Receive));
    session
}

fn deal_with(session: &mut Session, frame: Frame) -> SessionAction {
    let action = step(session, SessionEvent::Received(frame));
    assert!(matches!(action, SessionAction::Beat));
    let action = step(session, SessionEvent::Done);
    assert!(matches!(action, SessionAction::PollValidation));
    step(session, SessionEvent::ValidationDue(false))
}

fn text(s: &str) -> Frame {
    Frame::Text(s.to_string())
}

fn failure(action: SessionAction) -> SessionFailure {
    match action {
        SessionAction::Fail(failure) => failure,
        other => panic!("{:?}", other),
    }
}

#[test]
fn a_connection_must_be_taken_up() {
    let cases = [
        (SessionEvent::Connected(200), SessionFailure::NotSwitched),
        (SessionEvent::ConnectTimedOut, SessionFailure::ConnectTimedOut),
        (SessionEvent::ConnectFailed, SessionFailure::ConnectFailed),
    ];
    for (event, expected) in cases {
        let mut session = Session::new();
        assert_eq!(failure(step(&mut session, event)), expected);
        assert!(!session.accepts(&SessionEvent::Done));
    }
}

#[test]
fn chat_messages_are_handed_on() {
    let mut session = connected();
    let action = deal_with(&mut session, text("MSG {\"data\": \"a b\"}"));
    assert!(matches!(action, SessionAction::Handle(payload) if payload == "{\"data\": \"a b\"}"));
    assert!(matches!(step(&mut session, SessionEvent::Done), SessionAction::Receive));
}

#[test]
fn other_texts_and_frames_are_passed_over() {
    let mut session = connected();
    assert!(matches!(deal_with(&mut session, text("JOIN {}")), SessionAction::Receive));
    assert!(matches!(deal_with(&mut session, text("msg {}")), SessionAction::Receive));
    assert!(matches!(deal_with(&mut session, text(" MSG {}")), SessionAction::Receive));
    assert!(matches!(deal_with(&mut session, Frame::Other), SessionAction::Receive));
}

#[test]
fn a_ping_is_answered_with_what_it_carries() {
    let mut session = connected();
    let action = deal_with(&mut session, Frame::Ping(vec![1, 2, 3]));
    assert!(matches!(action, SessionAction::Pong(data) if data == vec![1, 2, 3]));
    assert!(matches!(step(&mut session, SessionEvent::Done), SessionAction::Receive));
}

#[test]
fn every_frame_is_answered_in_order() {
    let mut session = connected();
    let mut answers: Vec<String> = Vec::new();
    let frames = vec![
        Frame::Ping(vec![1]),
        text("MSG one"),
        text("JOIN x"),
        Frame::Ping(vec![]),
        Frame::Other,
        text("MSG two words"),
        Frame::Ping(vec![2, 3]),
    ];
    for frame in frames {
        match deal_with(&mut session, frame) {
            SessionAction::Pong(data) => answers.push(format!("{:?}", data)),
            SessionAction::Handle(payload) => answers.push(payload),
            SessionAction::Receive => continue,
            other => panic!("{:?}", other),
        }
        assert!(matches!(step(&mut session, SessionEvent::Done), SessionAction::Receive));
    }
    assert_eq!(answers, vec!["[1]", "one", "[]", "two words", "[2, 3]"]);
}

#[test]
fn a_connection_is_given_up() {
    assert_eq!(failure(deal_with(&mut connected(), text("MSG"))), SessionFailure::NoSpace);
    assert_eq!(failure(deal_with(&mut connected(), Frame::Close)), SessionFailure::Closed);
    let action = step(&mut connected(), SessionEvent::ReadFailed);
    assert_eq!(failure(action), SessionFailure::ReadFailed);
    let action = step(&mut connected(), SessionEvent::FrameFailed);
    assert_eq!(failure(action), SessionFailure::FrameFailed);
}

#[test]
fn a_connection_is_left_when_it_ends() {
    let mut session = connected();
    assert!(matches!(step(&mut session, SessionEvent::Ended), SessionAction::Finish));
    assert!(!session.accepts(&SessionEvent::Ended));
}

#[test]
fn the_token_is_validated_when_it_is_time() {
    let mut session = connected();
    step(&mut session, SessionEvent::Received(text("MSG x")));
    step(&mut session, SessionEvent::Done);
    let action = step(&mut session, SessionEvent::ValidationDue(true));
    assert!(matches!(action, SessionAction::ValidateToken));
    let action = step(&mut session, SessionEvent::TokenValid(true));
    assert!(matches!(action, SessionAction::Handle(payload) if payload == "x"));
}

#[test]
fn an_expired_token_is_refreshed() {
    let mut session = connected();
    step(&mut session, SessionEvent::Received(text("MSG x")));
    step(&mut session, SessionEvent::Done);
    step(&mut session, SessionEvent::ValidationDue(true));
    let action = step(&mut session, SessionEvent::TokenValid(false));
    assert!(matches!(action, SessionAction::RequestRefresh));
    let action = step(&mut session, SessionEvent::Done);
    assert_eq!(failure(action), SessionFailure::TokenExpired);
}

#[test]
fn only_what_is_waited_for_is_accepted() {
    let mut session = Session::new();
    assert!(!session.accepts(&SessionEvent::Received(Frame::Close)));
    step(&mut session, SessionEvent::Connected(101));
    assert!(!session.accepts(&SessionEvent::Done));
    step(&mut session, SessionEvent::Received(Frame::Close));
    assert!(!session.accepts(&SessionEvent::ValidationDue(true)));
    step(&mut session, SessionEvent::Done);
    assert!(!session.accepts(&SessionEvent::TokenValid(true)));
}

#[test]
fn the_watchdog_hears() {
    assert_eq!(watch(Some(Ok(()))), WatchAction::Continue);
    let refresh = Some(Err(WebsocketThreadError::RefreshToken));
    assert_eq!(watch(refresh), WatchAction::NoteRefresh);
    assert_eq!(watch(None), WatchAction::Fail);
}

#[test]
fn the_wait_is_doubled_up_to_a_bound() {
    let mut supervisor = Supervisor::new();
    let mut waits: Vec<u64> = Vec::new();
    for _ in 0..11 {
        waits.push(supervisor.begin_round(false).0);
        assert_eq!(supervisor.on_join(Thread::Timeout, true), AfterJoin::Restart);
    }
    assert_eq!(waits, vec![0, 1, 2, 4, 8, 16, 32, 64, 128, 128, 128]);
    assert_eq!(supervisor.begin_round(false), (128, RestartNotice::Seconds(128)));
    assert_eq!(supervisor.begin_round(true), (0, RestartNotice::Silent));
    assert_eq!(supervisor.on_join(Thread::Websocket, true), AfterJoin::Restart);
    assert_eq!(supervisor.begin_round(false), (1, RestartNotice::Second));
}

#[test]
fn threads_that_end_in_peace_do_not_lengthen_the_wait() {
    let mut supervisor = Supervisor::new();
    assert_eq!(supervisor.on_join(Thread::Timeout, false), AfterJoin::JoinWebsocket);
    assert_eq!(supervisor.on_join(Thread::Websocket, false), AfterJoin::Restart);
    assert_eq!(supervisor.begin_round(false), (0, RestartNotice::Silent));
}

#[test]
fn the_setting_tells_how_much_is_logged() {
    let level = |s: &str| log_level(Some(s.to_string()));
    assert_eq!(level("0"), Ok(LogLevel::Info));
    assert_eq!(level("false"), Ok(LogLevel::Info));
    assert_eq!(level(""), Ok(LogLevel::Info));
    assert_eq!(level("1"), Ok(LogLevel::Debug));
    assert_eq!(level("true"), Ok(LogLevel::Debug));
    assert_eq!(level("yes"), Err(LogLevelError::Unknown));
    assert_eq!(log_level(None), Err(LogLevelError::Unset));
}
