//! What the node says, and how it is passed on.

use vstd::prelude::*;

verus! {

/// One event of the node's output stream.
#[derive(Debug, PartialEq, Eq)]
pub enum ProcessEvent {
    /// A line that the node wrote to its standard output.
    Stdout(String),
    /// A line that the node wrote to its standard error.
    Stderr(String),
    /// Anything else that the stream reports, with a description of it.
    Other(String),
}

impl Clone for ProcessEvent {
    fn clone(&self) -> (copy: ProcessEvent)
        ensures
            copy == *self,
    {
        match self {
            ProcessEvent::Stdout(line) => ProcessEvent::Stdout(line.clone()),
            ProcessEvent::Stderr(line) => ProcessEvent::Stderr(line.clone()),
            ProcessEvent::Other(payload) => ProcessEvent::Other(payload.clone()),
        }
    }
}

/// The number of events that the channel to the sink holds before a sender
/// has to wait.
pub const SINK_CAPACITY: usize = 1000;

/// The message that goes out for an event: a line of standard output as it
/// is, a line of standard error behind a prefix that marks it, and a fixed
/// marker for every other event.
pub open spec fn message_of(event: ProcessEvent) -> Seq<char> {
    match event {
        ProcessEvent::Stdout(line) => line@,
        ProcessEvent::Stderr(line) => "StdErr: "@ + line@,
        ProcessEvent::Other(_) => "unhandled event"@,
    }
}

impl ProcessEvent {
    /// The message to publish for this event.
    pub fn outbound_message(&self) -> (message: String)
        ensures
            message@ == message_of(*self),
    {
        match self {
            ProcessEvent::Stdout(line) => line.clone(),
            ProcessEvent::Stderr(line) => "StdErr: ".to_owned().concat(line.as_str()),
            ProcessEvent::Other(_) => "unhandled event".to_owned(),
        }
    }
}

} // verus!
