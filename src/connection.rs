//! The decisions of one inbound connection's lifecycle and of the accept
//! loop. The transport hands in what happened; these say what to do next.

use vstd::prelude::*;
use crate::line::{handle_line, line_action, LineAction};

verus! {

/// What the transport reports to a connection's handler.
#[derive(Clone, Debug)]
pub enum ReadEvent {
    /// One line was read; its terminator may still be on it.
    Line(String),
    /// A read returned nothing: the peer closed the connection.
    EndOfStream,
    /// A read failed; the text says why.
    ReadFailed(String),
    /// Forwarding the last reading failed; the text says why.
    ForwardFailed(String),
}

/// What the handler asks the transport to do.
#[derive(Clone, Debug)]
pub enum Action {
    /// Act on a received line, then read the next one.
    Line(LineAction),
    /// Report a forwarding failure, then read the next line.
    ReportForwardError(String),
    /// The peer closed: report it and release the connection.
    Close,
    /// The transport failed: release the connection and hand the failure on.
    Fail(String),
}

/// The handler of one inbound connection. It is open until the peer closes
/// or a read fails; nothing else is kept from one line to the next.
#[derive(Debug)]
pub struct ConnectionHandler {
    open: bool,
}

/// Event `ev` asks for action `a`, after which the connection is open or not
/// as `open_after` says.
pub open spec fn handler_step(ev: ReadEvent, a: Action, open_after: bool) -> bool {
    match ev {
        ReadEvent::Line(l) => open_after && (a matches Action::Line(la) && line_action(l@, la)),
        ReadEvent::EndOfStream => !open_after && a is Close,
        ReadEvent::ReadFailed(m) => !open_after && a == Action::Fail(m),
        ReadEvent::ForwardFailed(m) => open_after && a == Action::ReportForwardError(m),
    }
}

impl ConnectionHandler {
    pub closed spec fn spec_is_open(&self) -> bool {
        self.open
    }

    /// A handler for a freshly accepted connection.
    pub fn new() -> (h: ConnectionHandler)
        ensures
            h.spec_is_open(),
    {
        ConnectionHandler { open: true }
    }

    /// Whether the connection is still to be read.
    pub fn is_open(&self) -> (r: bool)
        ensures
            r == self.spec_is_open(),
    {
        self.open
    }

    /// Decides what `ev` asks for. Malformed lines and forwarding failures
    /// leave the connection open; only the peer's close or a failed read end it.
    pub fn on_event(&mut self, ev: ReadEvent) -> (a: Action)
        requires
            old(self).spec_is_open(),
        ensures
            handler_step(ev, a, final(self).spec_is_open()),
    {
        match ev {
            ReadEvent::Line(l) => Action::Line(handle_line(l.as_str())),
            ReadEvent::EndOfStream => {
                self.open = false;
                Action::Close
            },
            ReadEvent::ReadFailed(m) => {
                self.open = false;
                Action::Fail(m)
            },
            ReadEvent::ForwardFailed(m) => Action::ReportForwardError(m),
        }
    }
}

/// What one attempt to accept a connection gave.
#[derive(Clone, Debug)]
pub enum AcceptOutcome {
    Accepted,
    /// The accept failed; the text says why.
    Failed(String),
}

/// What the accept loop does next.
#[derive(Clone, Debug)]
pub enum AcceptAction {
    /// Start an independent handler for the new connection, then accept again.
    Spawn,
    /// Report the failure, then accept again.
    Retry(String),
}

/// Decides what the accept loop does after one attempt. A failed accept is
/// never fatal: the loop always goes on to the next accept.
pub fn on_accept(outcome: AcceptOutcome) -> (a: AcceptAction)
    ensures
        outcome is Accepted <==> a is Spawn,
        outcome matches AcceptOutcome::Failed(m) ==> a == AcceptAction::Retry(m),
{
    match outcome {
        AcceptOutcome::Accepted => AcceptAction::Spawn,
        AcceptOutcome::Failed(m) => AcceptAction::Retry(m),
    }
}

} // verus!
