//! The command queue between the presentation side and the dispatcher.
//!
//! The queue is a bounded channel. Handing it a command never waits: a full
//! queue turns the command away there and then.

use crate::bt::frame::BtCommands;
use tokio::sync::mpsc::error::TrySendError;
use tokio::sync::mpsc::Sender;
use vstd::prelude::*;

verus! {

/// Number of commands, and of notifications, that a queue holds.
pub const QUEUE_CAPACITY: usize = 4;

#[verifier::external_type_specification]
#[verifier::external_body]
#[verifier::reject_recursive_types(T)]
pub struct ExSender<T>(Sender<T>);

/// Why the queue did not take a command.
#[derive(Clone, Copy, Debug, PartialEq, Eq)]
pub enum Refusal {
    /// It holds as many commands as it can.
    Full,
    /// The dispatcher is gone.
    Closed,
}

/// What became of a press on a control.
#[derive(Clone, Copy, Debug, PartialEq, Eq)]
pub enum Submission {
    /// The control stood for no command.
    Nothing,
    /// The command is in the queue.
    Accepted,
    /// The command was turned away and is lost.
    Rejected(Refusal),
}

/// What the queue's answer means for the command.
pub open spec fn judged(answer: Result<(), Refusal>) -> Submission {
    match answer {
        Ok(_) => Submission::Accepted,
        Err(refusal) => Submission::Rejected(refusal),
    }
}

/// The line that goes to the log for a submission, if any: a command that
/// was turned away is reported, whatever the reason, and not sent again.
pub open spec fn complaint_of(submission: Submission) -> Option<Seq<char>> {
    match submission {
        Submission::Rejected(_) => Some("queue full!"@),
        _ => None,
    }
}

/// Calls `tokio::sync::mpsc::Sender::try_send`, which returns at once. What
/// it answers depends on what the queue holds at that moment, so nothing is
/// claimed of the answer; the two errors are told apart and the command they
/// hand back is dropped.
#[verifier::external_body]
fn try_send(tx: &Sender<BtCommands>, request: BtCommands) -> (answer: Result<(), Refusal>) {
    match tx.try_send(request) {
        Ok(()) => Ok(()),
        Err(TrySendError::Full(_)) => Err(Refusal::Full),
        Err(TrySendError::Closed(_)) => Err(Refusal::Closed),
    }
}

/// What the queue's answer means for the command.
pub fn judge(answer: Result<(), Refusal>) -> (submission: Submission)
    ensures
        submission == judged(answer),
{
    match answer {
        Ok(_) => Submission::Accepted,
        Err(refusal) => Submission::Rejected(refusal),
    }
}

/// The line that goes to the log for a submission, if any.
pub fn complaint(submission: Submission) -> (line: Option<&'static str>)
    ensures
        line is Some <==> submission is Rejected,
        line matches Some(text) ==> complaint_of(submission) == Some(text@),
{
    match submission {
        Submission::Rejected(_) => Some("queue full!"),
        _ => None,
    }
}

/// Hands the command that a control stands for to the queue, without
/// waiting. Where the control stands for none, nothing is sent.
pub fn submit(tx: &Sender<BtCommands>, request: Option<BtCommands>) -> (submission: Submission)
    ensures
        submission is Nothing <==> request is None,
{
    match request {
        Some(command) => judge(try_send(tx, command)),
        None => Submission::Nothing,
    }
}

} // verus!
