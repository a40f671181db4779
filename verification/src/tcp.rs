//! The TCP front end: every connection goes to one destination that was
//! fixed beforehand.

use vstd::prelude::*;
use crate::session::{Action, ActionView, Destination, DestinationView, Event, EventView, Failure};

verus! {

/// One forwarded TCP connection.
#[derive(Clone, Debug, PartialEq, Eq)]
pub enum TcpConnection {
    /// Nothing has happened yet; the destination is at hand.
    Idle(Destination),
    /// The outbound connection is being opened.
    Connecting,
    /// The connection was handed to the relay, or dropped.
    Closed,
}

/// A forwarded TCP connection as a mathematical value.
pub enum TcpConnectionView {
    Idle(DestinationView),
    Connecting,
    Closed,
}

impl View for TcpConnection {
    type V = TcpConnectionView;

    open spec fn view(&self) -> TcpConnectionView {
        match *self {
            TcpConnection::Idle(remote) => TcpConnectionView::Idle(remote@),
            TcpConnection::Connecting => TcpConnectionView::Connecting,
            TcpConnection::Closed => TcpConnectionView::Closed,
        }
    }
}

/// The next state of a forwarded TCP connection and what its caller is to
/// do, for each state and event: open the outbound connection to the fixed
/// destination, then hand both streams to the relay.
pub open spec fn next(s: TcpConnectionView, e: EventView) -> (TcpConnectionView, ActionView) {
    match (s, e) {
        (TcpConnectionView::Closed, _) => (s, ActionView::Abort(Failure::Misuse)),
        (_, EventView::IoFailed) => (TcpConnectionView::Closed, ActionView::Abort(Failure::Io)),
        (TcpConnectionView::Idle(remote), EventView::Accepted) => (
            TcpConnectionView::Connecting,
            ActionView::Connect(remote),
        ),
        (TcpConnectionView::Connecting, EventView::Connected) => (
            TcpConnectionView::Closed,
            ActionView::Relay,
        ),
        (TcpConnectionView::Connecting, EventView::ConnectFailed) => (
            TcpConnectionView::Closed,
            ActionView::Abort(Failure::Connect),
        ),
        _ => (TcpConnectionView::Closed, ActionView::Abort(Failure::Misuse)),
    }
}

impl TcpConnection {
    /// A connection on which nothing has happened yet, bound for `remote`.
    pub fn new(remote: Destination) -> (r: TcpConnection)
        ensures
            r@ == TcpConnectionView::Idle(remote@),
    {
        TcpConnection::Idle(remote)
    }

    /// Takes the connection one step further: from its state and what the
    /// caller reports to its next state and what the caller is to do.
    pub fn handle_connection(self, event: Event) -> (r: (TcpConnection, Action))
        ensures
            (r.0@, r.1@) == next(self@, event@),
    {
        match (self, event) {
            (TcpConnection::Closed, _) => (TcpConnection::Closed, Action::Abort(Failure::Misuse)),
            (_, Event::IoFailed) => (TcpConnection::Closed, Action::Abort(Failure::Io)),
            (TcpConnection::Idle(remote), Event::Accepted) => (
                TcpConnection::Connecting,
                Action::Connect(remote),
            ),
            (TcpConnection::Connecting, Event::Connected) => (
                TcpConnection::Closed,
                Action::Relay,
            ),
            (TcpConnection::Connecting, Event::ConnectFailed) => (
                TcpConnection::Closed,
                Action::Abort(Failure::Connect),
            ),
            _ => (TcpConnection::Closed, Action::Abort(Failure::Misuse)),
        }
    }
}

/// A forwarded TCP connection never asks for bytes to be read from the
/// client or written to either side: until the relay takes over, nothing is
/// exchanged.
pub proof fn lemma_nothing_exchanged_before_relay(s: TcpConnectionView, e: EventView)
    ensures
        match next(s, e).1 {
            ActionView::Connect(remote) => s == TcpConnectionView::Idle(remote),
            ActionView::Relay => true,
            ActionView::Abort(_) => true,
            _ => false,
        },
{
}

} // verus!
