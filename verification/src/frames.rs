//! The read task's side of the lifecycle: what it does with each item of
//! the receive sequence. The decision for one item is a pure function; the
//! unverified driver only converts the wire library's frames into
//! `ReadEvent` values and performs the reporting.

use vstd::prelude::*;

verus! {

/// One item of the receive sequence, as seen by the read task.
#[derive(Debug)]
pub enum ReadEvent {
    /// A text frame with this payload.
    Text(String),
    /// A binary frame with this payload.
    Binary(Vec<u8>),
    /// A close frame (its payload, if any, is ignored).
    CloseFrame,
    /// Any other frame, such as a ping or a pong: ignored.
    Other,
    /// A transport-level failure, with its description.
    TransportError(String),
    /// The receive sequence ended without a close frame.
    End,
}

/// What the read task reports to the console for one item.
#[derive(Debug, Clone, PartialEq)]
pub enum Report {
    /// A text frame's payload, verbatim.
    ReceivedText(String),
    /// A binary frame, by byte length only.
    ReceivedBinary(usize),
    /// The server closed the connection.
    ClosedByServer,
    /// A transport-level failure, with its description.
    ReceiveFailed(String),
}

/// The read task's decision for one inbound item: what to report, and
/// whether the task stops.
#[derive(Debug, Clone, PartialEq)]
pub struct ReadStep {
    /// What to report, if anything.
    pub report: Option<Report>,
    /// Whether the read task stops after this item.
    pub done: bool,
}

/// The read task's whole behaviour on one item: a text frame is reported
/// verbatim, a binary frame by byte length only, a close frame terminates
/// the task, a transport error is reported and terminates the task, any
/// other frame is ignored, and the end of the sequence terminates the task
/// silently.
pub open spec fn read_step_of(ev: ReadEvent) -> ReadStep {
    match ev {
        ReadEvent::Text(t) => ReadStep { report: Some(Report::ReceivedText(t)), done: false },
        ReadEvent::Binary(b) => ReadStep {
            report: Some(Report::ReceivedBinary(b@.len() as usize)),
            done: false,
        },
        ReadEvent::CloseFrame => ReadStep { report: Some(Report::ClosedByServer), done: true },
        ReadEvent::Other => ReadStep { report: None, done: false },
        ReadEvent::TransportError(e) => ReadStep {
            report: Some(Report::ReceiveFailed(e)),
            done: true,
        },
        ReadEvent::End => ReadStep { report: None, done: true },
    }
}

/// Decide what the read task does with one inbound item, exactly as
/// `read_step_of` says.
pub fn handle_frame(ev: ReadEvent) -> (r: ReadStep)
    ensures
        r == read_step_of(ev),
{
    match ev {
        ReadEvent::Text(t) => ReadStep { report: Some(Report::ReceivedText(t)), done: false },
        ReadEvent::Binary(b) => {
            let n: usize = b.len();
            ReadStep { report: Some(Report::ReceivedBinary(n)), done: false }
        },
        ReadEvent::CloseFrame => ReadStep { report: Some(Report::ClosedByServer), done: true },
        ReadEvent::Other => ReadStep { report: None, done: false },
        ReadEvent::TransportError(e) => ReadStep {
            report: Some(Report::ReceiveFailed(e)),
            done: true,
        },
        ReadEvent::End => ReadStep { report: None, done: true },
    }
}

/// However the close-send raced the server's own close, the read task
/// terminates on the server's close frame, and a transport error likewise
/// terminates it: the task never outlives these items.
pub proof fn lemma_read_task_terminates(ev: ReadEvent)
    requires
        ev matches ReadEvent::CloseFrame || ev matches ReadEvent::TransportError(_) || ev
            matches ReadEvent::End,
    ensures
        read_step_of(ev).done,
{
}

} // verus!
