//! The vocabulary shared by the three front ends: where a connection goes,
//! what the caller is asked to do next, and what it reports back.

use vstd::prelude::*;

verus! {

/// Where the outbound connection is to be opened.
#[derive(Clone, Debug, PartialEq, Eq)]
pub enum Destination {
    /// A `host:port` text, still to be resolved.
    HostPort(String),
    /// An IPv4 address, its four octets in network order, and a port.
    V4([u8; 4], u16),
    /// An IPv6 address, its sixteen octets in network order, and a port.
    V6([u8; 16], u16),
}

/// A destination as a mathematical value.
pub enum DestinationView {
    HostPort(Seq<char>),
    V4(Seq<u8>, u16),
    V6(Seq<u8>, u16),
}

impl View for Destination {
    type V = DestinationView;

    open spec fn view(&self) -> DestinationView {
        match *self {
            Destination::HostPort(text) => DestinationView::HostPort(text@),
            Destination::V4(octets, port) => DestinationView::V4(octets@, port),
            Destination::V6(octets, port) => DestinationView::V6(octets@, port),
        }
    }
}

/// What a client sent that the relay does not accept.
#[derive(Clone, Copy, Debug, PartialEq, Eq, Structural)]
pub enum ProtocolError {
    /// The bytes are not the head of an HTTP request.
    MalformedRequest,
    /// The request head does not end where the chunk that completed it ends.
    LengthMismatch,
    /// The HTTP version is neither 1.0 nor 1.1.
    UnknownHttpVersion,
    /// The request has no `Host` header.
    MissingHost,
    /// The `Host` header holds a byte that is not printable ASCII.
    HostNotText,
    /// The SOCKS version byte is not 5.
    UnsupportedSocksVersion,
    /// The SOCKS command is not CONNECT.
    UnsupportedCommand,
    /// The SOCKS address type is not IPv4, domain name or IPv6.
    UnsupportedAddressType,
    /// The SOCKS domain name is not UTF-8.
    InvalidDomain,
    /// The SOCKS domain name and port do not name an address.
    UnresolvedAddress,
}

/// Why a connection was given up.
#[derive(Clone, Copy, Debug, PartialEq, Eq, Structural)]
pub enum Failure {
    /// The client broke the protocol.
    Protocol(ProtocolError),
    /// The outbound connection could not be opened.
    Connect,
    /// Reading from or writing to a stream failed, or the stream ended.
    Io,
    /// The caller reported something that the connection was not waiting for.
    Misuse,
}

/// What the caller reports to a connection.
#[derive(Clone, Debug, PartialEq, Eq)]
pub enum Event {
    /// A client connection was accepted.
    Accepted,
    /// The bytes that the last read brought.
    Received(Vec<u8>),
    /// The bytes of the last send were written and flushed.
    Sent,
    /// The destination was resolved to an address.
    Resolved,
    /// The destination names no address.
    ResolveFailed,
    /// The outbound connection is open.
    Connected,
    /// The outbound connection could not be opened.
    ConnectFailed,
    /// A read or a write failed, or the stream ended before a read was filled.
    IoFailed,
}

/// An event as a mathematical value.
pub enum EventView {
    Accepted,
    Received(Seq<u8>),
    Sent,
    Resolved,
    ResolveFailed,
    Connected,
    ConnectFailed,
    IoFailed,
}

impl View for Event {
    type V = EventView;

    open spec fn view(&self) -> EventView {
        match *self {
            Event::Accepted => EventView::Accepted,
            Event::Received(bytes) => EventView::Received(bytes@),
            Event::Sent => EventView::Sent,
            Event::Resolved => EventView::Resolved,
            Event::ResolveFailed => EventView::ResolveFailed,
            Event::Connected => EventView::Connected,
            Event::ConnectFailed => EventView::ConnectFailed,
            Event::IoFailed => EventView::IoFailed,
        }
    }
}

/// What a connection asks its caller to do next.
#[derive(Clone, Debug, PartialEq, Eq)]
pub enum Action {
    /// Read once from the client, at most this many bytes, and report them.
    Read(usize),
    /// Read exactly this many bytes from the client and report them.
    ReadExact(usize),
    /// Write these bytes to the client and flush.
    SendClient(Vec<u8>),
    /// Write these bytes to the outbound connection.
    SendUpstream(Vec<u8>),
    /// Resolve this destination to an address and keep it.
    Resolve(Destination),
    /// Open the outbound connection to the address resolved earlier.
    ConnectResolved,
    /// Resolve this destination and open the outbound connection to it.
    Connect(Destination),
    /// Copy bytes in both directions until either side ends.
    Relay,
    /// Drop the connection.
    Abort(Failure),
}

/// An action as a mathematical value.
pub enum ActionView {
    Read(usize),
    ReadExact(usize),
    SendClient(Seq<u8>),
    SendUpstream(Seq<u8>),
    Resolve(DestinationView),
    ConnectResolved,
    Connect(DestinationView),
    Relay,
    Abort(Failure),
}

impl View for Action {
    type V = ActionView;

    open spec fn view(&self) -> ActionView {
        match *self {
            Action::Read(n) => ActionView::Read(n),
            Action::ReadExact(n) => ActionView::ReadExact(n),
            Action::SendClient(bytes) => ActionView::SendClient(bytes@),
            Action::SendUpstream(bytes) => ActionView::SendUpstream(bytes@),
            Action::Resolve(dest) => ActionView::Resolve(dest@),
            Action::ConnectResolved => ActionView::ConnectResolved,
            Action::Connect(dest) => ActionView::Connect(dest@),
            Action::Relay => ActionView::Relay,
            Action::Abort(failure) => ActionView::Abort(failure),
        }
    }
}

/// What is said of a connection that was given up.
pub open spec fn failure_text(failure: Failure) -> Seq<char> {
    match failure {
        Failure::Protocol(ProtocolError::MalformedRequest) => "Malformed HTTP request"@,
        Failure::Protocol(ProtocolError::LengthMismatch) => "body_start != size"@,
        Failure::Protocol(ProtocolError::UnknownHttpVersion) => "Unknown HTTP version"@,
        Failure::Protocol(ProtocolError::MissingHost) => "No host header"@,
        Failure::Protocol(ProtocolError::HostNotText) => "Host header is not text"@,
        Failure::Protocol(ProtocolError::UnsupportedSocksVersion) => "Only support socks version 5"@,
        Failure::Protocol(ProtocolError::UnsupportedCommand) => "Only support command 'connect'"@,
        Failure::Protocol(ProtocolError::UnsupportedAddressType) => "Unsupported address type"@,
        Failure::Protocol(ProtocolError::InvalidDomain) => "Domain name is not UTF-8"@,
        Failure::Protocol(ProtocolError::UnresolvedAddress) => "Invalid socket address"@,
        Failure::Connect => "Can't connect to the destination"@,
        Failure::Io => "Stream failed or ended"@,
        Failure::Misuse => "Unexpected event"@,
    }
}

impl Failure {
    /// The line that is logged for a connection given up for this reason.
    pub fn message(&self) -> (r: &'static str)
        ensures
            r@ == failure_text(*self),
    {
        match self {
            Failure::Protocol(ProtocolError::MalformedRequest) => "Malformed HTTP request",
            Failure::Protocol(ProtocolError::LengthMismatch) => "body_start != size",
            Failure::Protocol(ProtocolError::UnknownHttpVersion) => "Unknown HTTP version",
            Failure::Protocol(ProtocolError::MissingHost) => "No host header",
            Failure::Protocol(ProtocolError::HostNotText) => "Host header is not text",
            Failure::Protocol(ProtocolError::UnsupportedSocksVersion) => {
                "Only support socks version 5"
            },
            Failure::Protocol(ProtocolError::UnsupportedCommand) => {
                "Only support command 'connect'"
            },
            Failure::Protocol(ProtocolError::UnsupportedAddressType) => "Unsupported address type",
            Failure::Protocol(ProtocolError::InvalidDomain) => "Domain name is not UTF-8",
            Failure::Protocol(ProtocolError::UnresolvedAddress) => "Invalid socket address",
            Failure::Connect => "Can't connect to the destination",
            Failure::Io => "Stream failed or ended",
            Failure::Misuse => "Unexpected event",
        }
    }
}

} // verus!
