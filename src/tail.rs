//! The decisions of the live-tail task: what it does with each thing that
//! happens while it reads a topic.

use vstd::prelude::*;

use crate::message::SubMessage;

verus! {

/// What the live-tail task observed.
#[derive(Debug)]
pub enum TailEvent {
    /// The stream delivered a message.
    Message(SubMessage),
    /// Acknowledging a forwarded message failed.
    AckFailed,
    /// The stream ended, for instance because the broker closed it.
    End,
    /// The stream reported an error.
    Failed,
    /// The cancellation signal arrived.
    Cancelled,
}

/// What the live-tail task does next.
#[derive(Debug)]
pub enum TailAction {
    /// Hand the message to the decision loop, acknowledge it, and read on.
    Forward(SubMessage),
    /// Read on.
    Continue,
    /// Close the consumer and end the task.
    Close,
}

/// One decision of the live-tail task: messages are forwarded, a failed
/// acknowledgement is no reason to stop, and the end of the stream, a
/// stream error or cancellation close it.
pub fn tail_step(ev: TailEvent) -> (r: TailAction)
    ensures
        match ev {
            TailEvent::Message(m) => r == TailAction::Forward(m),
            TailEvent::AckFailed => r is Continue,
            _ => r is Close,
        },
{
    match ev {
        TailEvent::Message(m) => TailAction::Forward(m),
        TailEvent::AckFailed => TailAction::Continue,
        TailEvent::End => TailAction::Close,
        TailEvent::Failed => TailAction::Close,
        TailEvent::Cancelled => TailAction::Close,
    }
}

} // verus!
