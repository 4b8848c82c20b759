//! How the connection is kept up, case by case.

use crate::cache::CLEANING_PERIOD_SECS;
use crate::supervise::{
    after_join, level_of, longer, notice_for, watched, AfterJoin, LogLevel, LogLevelError,
    RestartNotice, Thread, WatchAction, WebsocketThreadError, SILENCE_LIMIT_SECS,
};
use vstd::prelude::*;

verus! {

/// The watchdog goes on if and only if it hears from the connection, gives it up if and only if it
/// hears nothing, and notes that a new token is needed if and only if it hears just that.
pub proof fn watchdog_hears(heard: Option<Result<(), WebsocketThreadError>>)
    ensures
        watched(heard) == WatchAction::Continue <==> (heard matches Some(Ok(_))),
        watched(heard) == WatchAction::NoteRefresh <==> (heard matches Some(Err(_))),
        watched(heard) == WatchAction::Fail <==> heard is None,
{
}

/// The wait grows from nothing to a second, doubles while it is no longer than 64 seconds, and
/// stays from then on.
pub proof fn wait_grows(delay: int)
    requires
        delay >= 0,
    ensures
        delay == 0 ==> longer(delay) == 1,
        0 < delay <= 64 ==> longer(delay) == delay + delay,
        delay > 64 ==> longer(delay) == delay,
{
}

/// A wait is logged if and only if there is one, with its length, which has a wording of its own if
/// it is one second.
pub proof fn waits_are_logged(delay: int, n: u64)
    requires
        0 <= delay <= u64::MAX,
    ensures
        notice_for(delay) == RestartNotice::Silent <==> delay == 0,
        notice_for(delay) == RestartNotice::Second <==> delay == 1,
        notice_for(delay) == RestartNotice::Seconds(n) <==> n == delay && delay > 1,
{
}

/// The thread of the connection is waited for if and only if that of the watchdog has ended without
/// a panic. After any other end the connection is made again.
pub proof fn connection_is_made_again(thread: Thread, panicked: bool)
    ensures
        after_join(thread, panicked) == AfterJoin::JoinWebsocket <==> thread == Thread::Timeout
            && !panicked,
        after_join(thread, panicked) == AfterJoin::Restart <==> thread == Thread::Websocket
            || panicked,
{
}

/// Debugging is on if and only if the setting is `1` or `true`, off if and only if it is `0`,
/// `false` or empty, and a setting that is not there is not the same as one that is unknown.
pub proof fn settings_are_known(setting: Option<Seq<char>>)
    ensures
        level_of(setting) == Ok::<LogLevel, LogLevelError>(LogLevel::Debug) <==> setting == Some(
            "1"@,
        ) || setting == Some("true"@),
        level_of(setting) == Ok::<LogLevel, LogLevelError>(LogLevel::Info) <==> setting == Some(
            "0"@,
        ) || setting == Some("false"@) || setting == Some(Seq::<char>::empty()),
        level_of(setting) == Err::<LogLevel, LogLevelError>(LogLevelError::Unset)
            <==> setting is None,
        level_of(setting) == Err::<LogLevel, LogLevelError>(LogLevelError::Unknown) <==> (setting
            matches Some(val) && val != "0"@ && val != "false"@ && val.len() > 0 && val != "1"@
            && val != "true"@),
{
    reveal_strlit("0");
    reveal_strlit("1");
    reveal_strlit("false");
    reveal_strlit("true");
    assert("0"@[0] == '0' && "1"@[0] == '1' && "false"@[0] == 'f' && "true"@[0] == 't');
    if setting is Some && setting->0.len() == 0 {
        assert(setting->0 =~= Seq::<char>::empty());
    }
}

/// How long the connection may be silent, and how long is waited between two cleanings of the
/// cache.
pub proof fn supervised_waits()
    ensures
        SILENCE_LIMIT_SECS == 60,
        CLEANING_PERIOD_SECS == 5,
{
}

} // verus!
