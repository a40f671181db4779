//! One accepted connection, served by the front end that was chosen at
//! start-up.

use vstd::prelude::*;
use crate::config::Mode;
use crate::http::{HttpConnection, HttpConnectionView, Phase};
use crate::session::{Action, ActionView, Destination, DestinationView, Event, EventView};
use crate::socks5::{Socks5Connection, Socks5ConnectionView, Stage};
use crate::tcp::{TcpConnection, TcpConnectionView};

verus! {

/// An accepted connection and the front end that serves it.
#[derive(Clone, Debug, PartialEq, Eq)]
pub enum Connection {
    Http(HttpConnection),
    Socks5(Socks5Connection),
    Tcp(TcpConnection),
}

/// An accepted connection as a mathematical value.
pub enum ConnectionView {
    Http(HttpConnectionView),
    Socks5(Socks5ConnectionView),
    Tcp(TcpConnectionView),
}

impl View for Connection {
    type V = ConnectionView;

    open spec fn view(&self) -> ConnectionView {
        match *self {
            Connection::Http(c) => ConnectionView::Http(c@),
            Connection::Socks5(c) => ConnectionView::Socks5(c@),
            Connection::Tcp(c) => ConnectionView::Tcp(c@),
        }
    }
}

/// The connection that a mode starts with. The TCP mode needs the fixed
/// destination; the other two have no use for one.
pub open spec fn opened(mode: Mode, remote: Option<DestinationView>) -> Option<ConnectionView> {
    match mode {
        Mode::Http => Some(
            ConnectionView::Http(
                HttpConnectionView {
                    phase: Phase::Idle,
                    req_buffer: Seq::<u8>::empty(),
                    method: crate::http::Method::Other,
                },
            ),
        ),
        Mode::Socks5 => Some(ConnectionView::Socks5(crate::socks5::at(Stage::Idle))),
        Mode::Tcp => match remote {
            Some(dest) => Some(ConnectionView::Tcp(TcpConnectionView::Idle(dest))),
            None => None,
        },
    }
}

/// The next state of a connection and what its caller is to do: that of the
/// front end that serves it.
pub open spec fn next(s: ConnectionView, e: EventView) -> (ConnectionView, ActionView) {
    match s {
        ConnectionView::Http(c) => (
            ConnectionView::Http(crate::http::next(c, e).0),
            crate::http::next(c, e).1,
        ),
        ConnectionView::Socks5(c) => (
            ConnectionView::Socks5(crate::socks5::next(c, e).0),
            crate::socks5::next(c, e).1,
        ),
        ConnectionView::Tcp(c) => (
            ConnectionView::Tcp(crate::tcp::next(c, e).0),
            crate::tcp::next(c, e).1,
        ),
    }
}

/// The destination as a mathematical value, if there is one.
pub open spec fn remote_view(remote: Option<Destination>) -> Option<DestinationView> {
    match remote {
        Some(dest) => Some(dest@),
        None => None,
    }
}

/// A connection as a mathematical value, if there is one.
pub open spec fn opened_view(c: Option<Connection>) -> Option<ConnectionView> {
    match c {
        Some(c) => Some(c@),
        None => None,
    }
}

impl Connection {
    /// Starts a connection in the given mode. The TCP mode cannot start
    /// without its fixed destination; the other modes always start.
    pub fn open(mode: Mode, remote: Option<Destination>) -> (r: Option<Connection>)
        ensures
            opened_view(r) == opened(mode, remote_view(remote)),
            r is None <==> mode == Mode::Tcp && remote is None,
    {
        match mode {
            Mode::Http => Some(Connection::Http(HttpConnection::new())),
            Mode::Socks5 => Some(Connection::Socks5(Socks5Connection::new())),
            Mode::Tcp => match remote {
                Some(dest) => Some(Connection::Tcp(TcpConnection::new(dest))),
                None => None,
            },
        }
    }

    /// Takes the connection one step further: from its state and what the
    /// caller reports to its next state and what the caller is to do.
    pub fn handle_connection(self, event: Event) -> (r: (Connection, Action))
        ensures
            (r.0@, r.1@) == next(self@, event@),
    {
        match self {
            Connection::Http(c) => {
                let (c, action) = c.handle_connection(event);
                (Connection::Http(c), action)
            },
            Connection::Socks5(c) => {
                let (c, action) = c.handle_connection(event);
                (Connection::Socks5(c), action)
            },
            Connection::Tcp(c) => {
                let (c, action) = c.handle_connection(event);
                (Connection::Tcp(c), action)
            },
        }
    }
}

} // verus!
