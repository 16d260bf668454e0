//! What the job commands show, and how a log is followed.

use crate::text;
use vstd::prelude::*;

verus! {

/// Longest task name, in characters, that a listing shows in full.
pub const MAX_TASK_CHARS: usize = 18;

/// How many characters of a longer task name a listing shows before the ellipsis.
pub const SHOWN_TASK_CHARS: usize = 15;

/// How often the log file is looked for before it is followed anyway.
pub const MAX_WAIT_ATTEMPTS: u32 = 10;

/// Milliseconds between two looks for the log file.
pub const WAIT_MILLIS: u64 = 200;

/// Milliseconds between two readings of a followed log.
pub const POLL_MILLIS: u64 = 500;

/// A task name as a listing shows it: whole up to eighteen characters, else its first
/// fifteen and an ellipsis.
pub open spec fn shown_task(name: Seq<char>) -> Seq<char> {
    if name.len() > 18 {
        name.subrange(0, 15) + "..."@
    } else {
        name
    }
}

/// A task name as a listing shows it.
pub fn task_display(name: &str) -> (r: String)
    ensures
        r@ == shown_task(name@),
{
    let chars = text::chars_of(name);
    if chars.len() > MAX_TASK_CHARS {
        let mut out = text::slice(&chars, 0, SHOWN_TASK_CHARS);
        text::push_str(&mut out, "...");
        text::string_of(&out)
    } else {
        String::from_str(name)
    }
}

/// What following a log has come to.
#[derive(Debug, Clone, Copy, PartialEq, Eq)]
pub enum FollowState {
    /// The log file is waited for; so many looks were made.
    Waiting { attempts: u32 },
    /// The log is read; so many bytes of it were shown.
    Following { offset: u64 },
    /// The job has ended and the rest of its log was shown.
    Done,
}

/// What the follower of a log learns when it looks.
#[derive(Debug, Clone, Copy, PartialEq, Eq)]
pub enum FollowEvent {
    /// Whether the log file is there.
    Looked { exists: bool },
    /// Whether the record of the job could be read and says that the job runs, and the
    /// length of the log file, where it could be opened.
    Polled { running: bool, file_len: Option<u64> },
}

/// What the follower of a log is to do next.
#[derive(Debug, Clone, Copy, PartialEq, Eq)]
pub enum FollowAction {
    /// Sleep so many milliseconds, then look for the log file.
    WaitAndLook { millis: u64 },
    /// Say that output is waited for where the file is still missing, then read the record
    /// and the length of the log.
    StartPolling { announce: bool },
    /// Show the bytes of the log from `from` up to `upto`, sleep so many milliseconds, then
    /// read the record and the length of the log again.
    ShowAndPoll { from: u64, upto: u64, millis: u64 },
    /// Sleep so many milliseconds, then read the record and the length of the log again.
    Poll { millis: u64 },
    /// Show the rest of the log from `from` on and say that the job has finished.
    Drain { from: u64 },
    /// Nothing is left to do.
    Stop,
}

/// The state and the action that follow from a state and an event. The log file is looked
/// for up to ten times. A job that runs is polled; what was appended to its log since the
/// last look is shown. Once the job no longer runs, the rest of the log is shown and the
/// following ends. An event that does not belong to the state changes nothing.
pub open spec fn follow_step(state: FollowState, event: FollowEvent) -> (FollowState, FollowAction) {
    match (state, event) {
        (FollowState::Waiting { attempts }, FollowEvent::Looked { exists }) => {
            if !exists && attempts < 10 {
                (
                    FollowState::Waiting { attempts: (attempts + 1) as u32 },
                    FollowAction::WaitAndLook { millis: 200 },
                )
            } else {
                (FollowState::Following { offset: 0 }, FollowAction::StartPolling {
                    announce: !exists,
                })
            }
        },
        (FollowState::Following { offset }, FollowEvent::Polled { running, file_len }) => {
            if !running {
                (FollowState::Done, FollowAction::Drain { from: offset })
            } else {
                match file_len {
                    Some(len) => if len > offset {
                        (
                            FollowState::Following { offset: len },
                            FollowAction::ShowAndPoll { from: offset, upto: len, millis: 500 },
                        )
                    } else {
                        (state, FollowAction::Poll { millis: 500 })
                    },
                    None => (state, FollowAction::Poll { millis: 500 }),
                }
            }
        },
        (FollowState::Done, _) => (FollowState::Done, FollowAction::Stop),
        _ => (state, FollowAction::Stop),
    }
}

/// The state in which the following of a log begins.
pub fn follow_start() -> (r: FollowState)
    ensures
        r == (FollowState::Waiting { attempts: 0 }),
{
    FollowState::Waiting { attempts: 0 }
}

/// The state and the action that follow from a state and an event.
pub fn follow_log(state: FollowState, event: FollowEvent) -> (r: (FollowState, FollowAction))
    ensures
        r == follow_step(state, event),
{
    match state {
        FollowState::Waiting { attempts } => match event {
            FollowEvent::Looked { exists } => {
                if !exists && attempts < MAX_WAIT_ATTEMPTS {
                    (
                        FollowState::Waiting { attempts: attempts + 1 },
                        FollowAction::WaitAndLook { millis: WAIT_MILLIS },
                    )
                } else {
                    (
                        FollowState::Following { offset: 0 },
                        FollowAction::StartPolling { announce: !exists },
                    )
                }
            },
            _ => (state, FollowAction::Stop),
        },
        FollowState::Following { offset } => match event {
            FollowEvent::Polled { running, file_len } => {
                if !running {
                    (FollowState::Done, FollowAction::Drain { from: offset })
                } else {
                    match file_len {
                        Some(len) => {
                            if len > offset {
                                (
                                    FollowState::Following { offset: len },
                                    FollowAction::ShowAndPoll {
                                        from: offset,
                                        upto: len,
                                        millis: POLL_MILLIS,
                                    },
                                )
                            } else {
                                (state, FollowAction::Poll { millis: POLL_MILLIS })
                            }
                        },
                        None => (state, FollowAction::Poll { millis: POLL_MILLIS }),
                    }
                }
            },
            _ => (state, FollowAction::Stop),
        },
        FollowState::Done => (FollowState::Done, FollowAction::Stop),
    }
}

/// The following of a log ends as soon as the job is seen not to run, whatever was shown
/// before; and what is shown never goes back in the file.
pub proof fn lemma_follow_ends(offset: u64, file_len: Option<u64>, running: bool)
    ensures
        !running ==> follow_step(
            FollowState::Following { offset },
            FollowEvent::Polled { running, file_len },
        ) == (FollowState::Done, FollowAction::Drain { from: offset }),
        running ==> (follow_step(
            FollowState::Following { offset },
            FollowEvent::Polled { running, file_len },
        ).0 matches FollowState::Following { offset: next } && next >= offset),
{
}

/// What a kill request comes to, for the one who asked.
#[derive(Debug, Clone, Copy, PartialEq, Eq)]
pub enum KillReport {
    /// The job was not running.
    NotRunning,
    /// The signal was delivered and the record says so.
    Killed,
    /// The signal could not be delivered.
    SignalFailed,
}

/// What a kill request comes to: the job was not running, or the signal was delivered, or
/// it was not.
pub fn kill_report(was_running: bool, killed: bool) -> (r: KillReport)
    ensures
        r == (if !was_running {
            KillReport::NotRunning
        } else if killed {
            KillReport::Killed
        } else {
            KillReport::SignalFailed
        }),
{
    if !was_running {
        KillReport::NotRunning
    } else if killed {
        KillReport::Killed
    } else {
        KillReport::SignalFailed
    }
}

} // verus!
