//! One client connection, as a state machine.
//!
//! A session reads a line, submits the operation it stands for to the owner
//! of the store, waits for the reply, writes one line back and starts over.
//! The machine decides; the caller does the reading, sending, waiting and
//! writing that each action asks for and reports how it went.

use crate::command::{parse, parse_line, Operation, OperationView};
use crate::reply::{response_line, response_of, Reply, ReplyView};
use vstd::prelude::*;

verus! {

/// Where a session stands in its cycle.
#[derive(Clone, Copy, Debug, PartialEq, Eq, Structural)]
pub enum Phase {
    /// Waiting for the client's next line.
    Reading,
    /// Waiting for the owner's queue to take the operation.
    Submitting,
    /// Waiting for the reply to the operation.
    AwaitingReply,
    /// Waiting for the response to be written and flushed.
    Writing,
    /// Over. No event moves a closed session.
    Closed,
}

/// What happened to the work that the last action asked for.
#[derive(Debug, PartialEq, Eq)]
pub enum SessionEvent {
    /// A read ended after `bytes_read` bytes, with `line` as what it read.
    /// No bytes at all means that the client has closed the connection.
    ReadCompleted { bytes_read: usize, line: String },
    /// A read failed.
    ReadFailed,
    /// The owner's queue took the operation.
    Submitted,
    /// The owner's queue is closed: there is no owner any more.
    OwnerUnreachable,
    /// The reply arrived.
    ReplyReceived(Reply),
    /// The reply's destination was closed without a reply.
    ReplyDropped,
    /// The response was written and flushed.
    ResponseWritten,
    /// Writing or flushing the response failed.
    WriteFailed,
}

/// An event as contracts see it.
pub enum SessionEventView {
    ReadCompleted { bytes_read: usize, line: Seq<char> },
    ReadFailed,
    Submitted,
    OwnerUnreachable,
    ReplyReceived(ReplyView),
    ReplyDropped,
    ResponseWritten,
    WriteFailed,
}

impl View for SessionEvent {
    type V = SessionEventView;

    open spec fn view(&self) -> SessionEventView {
        match self {
            SessionEvent::ReadCompleted { bytes_read, line } => SessionEventView::ReadCompleted {
                bytes_read: *bytes_read,
                line: line@,
            },
            SessionEvent::ReadFailed => SessionEventView::ReadFailed,
            SessionEvent::Submitted => SessionEventView::Submitted,
            SessionEvent::OwnerUnreachable => SessionEventView::OwnerUnreachable,
            SessionEvent::ReplyReceived(reply) => SessionEventView::ReplyReceived(reply@),
            SessionEvent::ReplyDropped => SessionEventView::ReplyDropped,
            SessionEvent::ResponseWritten => SessionEventView::ResponseWritten,
            SessionEvent::WriteFailed => SessionEventView::WriteFailed,
        }
    }
}

/// What the caller is to do next.
#[derive(Debug, PartialEq, Eq)]
pub enum SessionAction {
    /// Read one line from the client.
    ReadLine,
    /// Send the operation to the owner's queue, with a reply destination made
    /// for this request alone.
    Submit(Operation),
    /// Wait for the reply on that destination.
    AwaitReply,
    /// Write the line to the client and flush.
    WriteResponse(String),
    /// End the session; nothing went wrong with the connection.
    Finish,
    /// End the session and report the failure of the connection.
    Abort,
}

/// An action as contracts see it.
pub enum SessionActionView {
    ReadLine,
    Submit(OperationView),
    AwaitReply,
    WriteResponse(Seq<char>),
    Finish,
    Abort,
}

impl View for SessionAction {
    type V = SessionActionView;

    open spec fn view(&self) -> SessionActionView {
        match self {
            SessionAction::ReadLine => SessionActionView::ReadLine,
            SessionAction::Submit(op) => SessionActionView::Submit(op@),
            SessionAction::AwaitReply => SessionActionView::AwaitReply,
            SessionAction::WriteResponse(line) => SessionActionView::WriteResponse(line@),
            SessionAction::Finish => SessionActionView::Finish,
            SessionAction::Abort => SessionActionView::Abort,
        }
    }
}

/// The session's rule: the phase and the action that follow an event, or
/// `None` where the event is not an answer to what the phase waits for.
///
/// - A read of no bytes ends the session in peace; a failed read ends it with
///   a failure; any other line is parsed and submitted, whatever it holds.
/// - Once the queue has taken the operation the session waits for the reply;
///   with no owner left, the session ends in peace.
/// - A reply is written as its response line; a dropped reply is written as
///   the internal-error line. Either way the session goes on.
/// - After the response is written the session reads again; a failed write
///   ends it with a failure.
pub open spec fn transition(phase: Phase, event: SessionEventView) -> Option<
    (Phase, SessionActionView),
> {
    match (phase, event) {
        (Phase::Reading, SessionEventView::ReadCompleted { bytes_read, line }) => {
            if bytes_read == 0 {
                Some((Phase::Closed, SessionActionView::Finish))
            } else {
                Some((Phase::Submitting, SessionActionView::Submit(parse(line))))
            }
        },
        (Phase::Reading, SessionEventView::ReadFailed) => Some(
            (Phase::Closed, SessionActionView::Abort),
        ),
        (Phase::Submitting, SessionEventView::Submitted) => Some(
            (Phase::AwaitingReply, SessionActionView::AwaitReply),
        ),
        (Phase::Submitting, SessionEventView::OwnerUnreachable) => Some(
            (Phase::Closed, SessionActionView::Finish),
        ),
        (Phase::AwaitingReply, SessionEventView::ReplyReceived(reply)) => Some(
            (Phase::Writing, SessionActionView::WriteResponse(response_of(Some(reply)))),
        ),
        (Phase::AwaitingReply, SessionEventView::ReplyDropped) => Some(
            (Phase::Writing, SessionActionView::WriteResponse(response_of(None))),
        ),
        (Phase::Writing, SessionEventView::ResponseWritten) => Some(
            (Phase::Reading, SessionActionView::ReadLine),
        ),
        (Phase::Writing, SessionEventView::WriteFailed) => Some(
            (Phase::Closed, SessionActionView::Abort),
        ),
        _ => None,
    }
}

/// The state of one client connection.
pub struct Session {
    phase: Phase,
}

impl Session {
    /// Where the session stands.
    pub closed spec fn phase(&self) -> Phase {
        self.phase
    }

    /// A session for a connection that was just accepted, with its first
    /// action: to read.
    pub fn open() -> (opened: (Session, SessionAction))
        ensures
            opened.0.phase() == Phase::Reading,
            opened.1@ == SessionActionView::ReadLine,
    {
        (Session { phase: Phase::Reading }, SessionAction::ReadLine)
    }

    /// Where the session stands.
    pub fn current_phase(&self) -> (phase: Phase)
        ensures
            phase == self.phase(),
    {
        self.phase
    }

    /// Takes an event and says what to do next. An event that does not
    /// answer what the session waits for changes nothing and gets `None`.
    pub fn step(&mut self, event: SessionEvent) -> (action: Option<SessionAction>)
        ensures
            match transition(old(self).phase(), event@) {
                Some((next, expected)) => {
                    &&& final(self).phase() == next
                    &&& action matches Some(act)
                    &&& act@ == expected
                },
                None => {
                    &&& final(self).phase() == old(self).phase()
                    &&& action is None
                },
            },
    {
        match (self.phase, event) {
            (Phase::Reading, SessionEvent::ReadCompleted { bytes_read, line }) => {
                if bytes_read == 0 {
                    self.phase = Phase::Closed;
                    Some(SessionAction::Finish)
                } else {
                    self.phase = Phase::Submitting;
                    Some(SessionAction::Submit(parse_line(line.as_str())))
                }
            },
            (Phase::Reading, SessionEvent::ReadFailed) => {
                self.phase = Phase::Closed;
                Some(SessionAction::Abort)
            },
            (Phase::Submitting, SessionEvent::Submitted) => {
                self.phase = Phase::AwaitingReply;
                Some(SessionAction::AwaitReply)
            },
            (Phase::Submitting, SessionEvent::OwnerUnreachable) => {
                self.phase = Phase::Closed;
                Some(SessionAction::Finish)
            },
            (Phase::AwaitingReply, SessionEvent::ReplyReceived(reply)) => {
                self.phase = Phase::Writing;
                Some(SessionAction::WriteResponse(response_line(Some(reply))))
            },
            (Phase::AwaitingReply, SessionEvent::ReplyDropped) => {
                self.phase = Phase::Writing;
                Some(SessionAction::WriteResponse(response_line(None)))
            },
            (Phase::Writing, SessionEvent::ResponseWritten) => {
                self.phase = Phase::Reading;
                Some(SessionAction::ReadLine)
            },
            (Phase::Writing, SessionEvent::WriteFailed) => {
                self.phase = Phase::Closed;
                Some(SessionAction::Abort)
            },
            _ => None,
        }
    }
}

} // verus!
