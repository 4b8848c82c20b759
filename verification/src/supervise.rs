//! How the connection is kept up: how long to wait before it is made again, what the watchdog
//! makes of what it hears, and how much is logged.

use crate::text::same_text;
use vstd::prelude::*;

verus! {

/// How long the connection may be silent before the watchdog gives it up for lost, in seconds.
pub const SILENCE_LIMIT_SECS: u64 = 60;

/// What the thread of the connection tells the watchdog about itself when it cannot go on.
#[derive(Clone, Copy, Debug, PartialEq, Eq, Structural)]
pub enum WebsocketThreadError {
    /// A new token is needed.
    RefreshToken,
}

/// What the watchdog does.
#[derive(Clone, Copy, Debug, PartialEq, Eq, Structural)]
pub enum WatchAction {
    /// It goes on.
    Continue,
    /// It notes that a new token is needed, and goes on.
    NoteRefresh,
    /// It gives the connection up for lost.
    Fail,
}

/// What the watchdog does about what it hears. It hears nothing if the connection was silent for
/// too long or is gone.
pub open spec fn watched(heard: Option<Result<(), WebsocketThreadError>>) -> WatchAction {
    match heard {
        Some(Ok(_)) => WatchAction::Continue,
        Some(Err(WebsocketThreadError::RefreshToken)) => WatchAction::NoteRefresh,
        None => WatchAction::Fail,
    }
}

/// Tells what the watchdog does about what it hears.
pub fn watch(heard: Option<Result<(), WebsocketThreadError>>) -> (r: WatchAction)
    ensures
        r == watched(heard),
{
    match heard {
        Some(Ok(_)) => WatchAction::Continue,
        Some(Err(WebsocketThreadError::RefreshToken)) => WatchAction::NoteRefresh,
        None => WatchAction::Fail,
    }
}

/// How long to wait next, in seconds, if one waited so long before and a thread panicked again.
pub open spec fn longer(delay: int) -> int {
    if delay == 0 {
        1
    } else if 1 <= delay <= 64 {
        delay * 2
    } else {
        delay
    }
}

/// What is logged before a wait.
#[derive(Clone, Copy, Debug, PartialEq, Eq, Structural)]
pub enum RestartNotice {
    /// Nothing.
    Silent,
    /// That there is a restart in one second.
    Second,
    /// That there is a restart in this many seconds.
    Seconds(u64),
}

/// What is logged before a wait of so many seconds.
pub open spec fn notice_for(delay: int) -> RestartNotice {
    if delay == 0 {
        RestartNotice::Silent
    } else if delay == 1 {
        RestartNotice::Second
    } else {
        RestartNotice::Seconds(delay as u64)
    }
}

/// A thread that is waited for.
#[derive(Clone, Copy, Debug, PartialEq, Eq, Structural)]
pub enum Thread {
    /// That of the watchdog.
    Timeout,
    /// That of the connection.
    Websocket,
}

/// What to do once a thread has ended.
#[derive(Clone, Copy, Debug, PartialEq, Eq, Structural)]
pub enum AfterJoin {
    /// Wait for the thread of the connection.
    JoinWebsocket,
    /// Make the connection again.
    Restart,
}

/// What to do once a thread has ended, with or without a panic.
pub open spec fn after_join(thread: Thread, panicked: bool) -> AfterJoin {
    if thread == Thread::Timeout && !panicked {
        AfterJoin::JoinWebsocket
    } else {
        AfterJoin::Restart
    }
}

/// How the connection is made again and again.
#[derive(Debug)]
pub struct Supervisor {
    /// How many seconds to wait before the next time.
    sleep_timer: u64,
}

impl View for Supervisor {
    type V = int;

    /// How many seconds to wait before the next time.
    closed spec fn view(&self) -> int {
        self.sleep_timer as int
    }
}

impl Supervisor {
    /// A supervisor that does not wait at first.
    pub fn new() -> (r: Supervisor)
        ensures
            r@ == 0,
    {
        Supervisor { sleep_timer: 0 }
    }

    /// Begins a round, with a new token if one is needed, and tells how many seconds to wait and
    /// what to log before that. With a new token there is no wait.
    pub fn begin_round(&mut self, refresh: bool) -> (r: (u64, RestartNotice))
        ensures
            final(self)@ == if refresh {
                0
            } else {
                old(self)@
            },
            r.0 == final(self)@,
            r.1 == notice_for(final(self)@),
    {
        if refresh {
            self.sleep_timer = 0;
        }
        let notice = match self.sleep_timer {
            0 => RestartNotice::Silent,
            1 => RestartNotice::Second,
            n => RestartNotice::Seconds(n),
        };
        (self.sleep_timer, notice)
    }

    /// Notes that a thread has ended, with or without a panic, and tells what to do. After a
    /// panic the next wait is longer.
    pub fn on_join(&mut self, thread: Thread, panicked: bool) -> (r: AfterJoin)
        ensures
            final(self)@ == if panicked {
                longer(old(self)@)
            } else {
                old(self)@
            },
            r == after_join(thread, panicked),
    {
        if panicked {
            match self.sleep_timer {
                0 => self.sleep_timer = 1,
                1..=64 => self.sleep_timer = self.sleep_timer * 2,
                _ => {},
            }
            return AfterJoin::Restart;
        }
        match thread {
            Thread::Timeout => AfterJoin::JoinWebsocket,
            Thread::Websocket => AfterJoin::Restart,
        }
    }
}

/// How much is logged.
#[derive(Clone, Copy, Debug, PartialEq, Eq, Structural)]
pub enum LogLevel {
    Info,
    Debug,
}

/// Why it cannot be told how much is logged.
#[derive(Clone, Copy, Debug, PartialEq, Eq, Structural)]
pub enum LogLevelError {
    /// The setting is not there.
    Unset,
    /// The setting is none of those that are known.
    Unknown,
}

/// How much is logged, by the setting for debugging.
pub open spec fn level_of(setting: Option<Seq<char>>) -> Result<LogLevel, LogLevelError> {
    match setting {
        None => Err(LogLevelError::Unset),
        Some(val) => if val == "0"@ || val == "false"@ || val.len() == 0 {
            Ok(LogLevel::Info)
        } else if val == "1"@ || val == "true"@ {
            Ok(LogLevel::Debug)
        } else {
            Err(LogLevelError::Unknown)
        },
    }
}

/// Tells how much is logged, by the setting for debugging.
pub fn log_level(setting: Option<String>) -> (r: Result<LogLevel, LogLevelError>)
    ensures
        r == level_of(setting.deep_view()),
{
    match setting {
        None => Err(LogLevelError::Unset),
        Some(val) => {
            let val = val.as_str();
            if same_text(val, "0") || same_text(val, "false") || val.is_empty() {
                Ok(LogLevel::Info)
            } else if same_text(val, "1") || same_text(val, "true") {
                Ok(LogLevel::Debug)
            } else {
                Err(LogLevelError::Unknown)
            }
        },
    }
}

} // verus!
