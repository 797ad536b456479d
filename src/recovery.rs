//! The error-recovery wrapper around one command execution, as a state
//! machine: the caller runs the command and delivers replies, and feeds
//! back what happened.

use vstd::prelude::*;

use crate::response::{CommandError, CommandResponse, create_error_response, is_error_response};

verus! {

/// Where one wrapped execution stands.
#[derive(Debug, Clone, Copy, PartialEq, Eq, Structural)]
pub enum RecoveryState {
    /// The command is running.
    Executing,
    /// The command failed and its error reply is being delivered.
    Reporting,
    /// Nothing more is to be done.
    Done,
}

/// What the caller reports back.
#[derive(Debug)]
pub enum RecoveryEvent {
    /// The command finished, with success or a failure.
    Finished(Result<(), CommandError>),
    /// Delivery of the error reply finished, with success or a failure.
    ReplyDelivered(Result<(), CommandError>),
}

/// What the caller is to do next.
#[derive(Debug, Clone)]
pub enum RecoveryAction {
    Nothing,
    /// Log the failure and deliver this reply through a freshly built
    /// context over the same reply channel.
    SendErrorReply(CommandResponse),
    /// Log that the error reply could not be delivered; nothing is raised.
    LogReplyFailure(CommandError),
}

/// The state after `e` in state `s`. Events that do not fit the state
/// change nothing.
pub open spec fn next_state(s: RecoveryState, e: RecoveryEvent) -> RecoveryState {
    match (s, e) {
        (RecoveryState::Executing, RecoveryEvent::Finished(Ok(()))) => RecoveryState::Done,
        (RecoveryState::Executing, RecoveryEvent::Finished(Err(_))) => RecoveryState::Reporting,
        (RecoveryState::Reporting, RecoveryEvent::ReplyDelivered(_)) => RecoveryState::Done,
        _ => s,
    }
}

/// Whether `e` in state `s` calls for an error reply: only a failure of the
/// running command does.
pub open spec fn sends_reply(s: RecoveryState, e: RecoveryEvent) -> bool {
    s == RecoveryState::Executing && e matches RecoveryEvent::Finished(Err(_))
}

/// Whether `e` in state `s` calls for logging a failed error reply.
pub open spec fn logs_reply_failure(s: RecoveryState, e: RecoveryEvent) -> bool {
    s == RecoveryState::Reporting && e matches RecoveryEvent::ReplyDelivered(Err(_))
}

/// One step of the wrapper.
pub fn recovery_step(s: RecoveryState, e: RecoveryEvent) -> (r: (RecoveryState, RecoveryAction))
    ensures
        r.0 == next_state(s, e),
        r.1 is SendErrorReply == sends_reply(s, e),
        r.1 is LogReplyFailure == logs_reply_failure(s, e),
        r.1 matches RecoveryAction::SendErrorReply(resp) ==> (e matches RecoveryEvent::Finished(
            Err(err),
        ) && is_error_response(resp, err.message@) && resp.embeds@[0].timestamp is Some),
        r.1 matches RecoveryAction::LogReplyFailure(err) ==> e == RecoveryEvent::ReplyDelivered(
            Err(err),
        ),
{
    match s {
        RecoveryState::Executing => match e {
            RecoveryEvent::Finished(Ok(())) => (RecoveryState::Done, RecoveryAction::Nothing),
            RecoveryEvent::Finished(Err(err)) => {
                let resp = create_error_response(&err);
                (RecoveryState::Reporting, RecoveryAction::SendErrorReply(resp))
            },
            RecoveryEvent::ReplyDelivered(_) => (s, RecoveryAction::Nothing),
        },
        RecoveryState::Reporting => match e {
            RecoveryEvent::ReplyDelivered(Ok(())) => (RecoveryState::Done, RecoveryAction::Nothing),
            RecoveryEvent::ReplyDelivered(Err(err)) => (
                RecoveryState::Done,
                RecoveryAction::LogReplyFailure(err),
            ),
            RecoveryEvent::Finished(_) => (s, RecoveryAction::Nothing),
        },
        RecoveryState::Done => (s, RecoveryAction::Nothing),
    }
}

/// The number of error replies asked for while `events` are fed in from
/// state `s`.
pub open spec fn replies_sent(s: RecoveryState, events: Seq<RecoveryEvent>) -> nat
    decreases events.len(),
{
    if events.len() == 0 {
        0
    } else {
        (if sends_reply(s, events[0]) {
            1nat
        } else {
            0nat
        }) + replies_sent(next_state(s, events[0]), events.drop_first())
    }
}

/// The number of logged reply failures while `events` are fed in from `s`.
pub open spec fn failures_logged(s: RecoveryState, events: Seq<RecoveryEvent>) -> nat
    decreases events.len(),
{
    if events.len() == 0 {
        0
    } else {
        (if logs_reply_failure(s, events[0]) {
            1nat
        } else {
            0nat
        }) + failures_logged(next_state(s, events[0]), events.drop_first())
    }
}

/// Past `Executing`, no error reply is asked for again.
proof fn lemma_no_reply_after_executing(s: RecoveryState, events: Seq<RecoveryEvent>)
    requires
        s != RecoveryState::Executing,
    ensures
        replies_sent(s, events) == 0,
    decreases events.len(),
{
    if events.len() > 0 {
        lemma_no_reply_after_executing(next_state(s, events[0]), events.drop_first());
    }
}

/// Once `Done`, nothing is logged.
proof fn lemma_nothing_after_done(events: Seq<RecoveryEvent>)
    ensures
        failures_logged(RecoveryState::Done, events) == 0,
        replies_sent(RecoveryState::Done, events) == 0,
    decreases events.len(),
{
    if events.len() > 0 {
        lemma_nothing_after_done(events.drop_first());
    }
}

/// Whatever the events, one wrapped execution asks for at most one error
/// reply; it asks for one exactly when the command's first outcome is a
/// failure, and none, nor any log, when it succeeds.
pub proof fn lemma_at_most_one_error_reply(events: Seq<RecoveryEvent>)
    ensures
        replies_sent(RecoveryState::Executing, events) <= 1,
        events.len() > 0 && (events[0] is Finished && events[0]->Finished_0 is Err) ==> replies_sent(
            RecoveryState::Executing,
            events,
        ) == 1,
        events.len() > 0 && events[0] == RecoveryEvent::Finished(Ok(())) ==> replies_sent(
            RecoveryState::Executing,
            events,
        ) == 0 && failures_logged(RecoveryState::Executing, events) == 0,
    decreases events.len(),
{
    if events.len() > 0 {
        let s1 = next_state(RecoveryState::Executing, events[0]);
        if s1 == RecoveryState::Executing {
            lemma_at_most_one_error_reply(events.drop_first());
        } else {
            lemma_no_reply_after_executing(s1, events.drop_first());
            if s1 == RecoveryState::Done {
                lemma_nothing_after_done(events.drop_first());
            }
        }
    }
}

} // verus!
