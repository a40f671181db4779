use tiny_proxy::config::{LogFormat, LogLevel, Mode};
use tiny_proxy::connection::Connection;
use tiny_proxy::http::HttpConnection;
use tiny_proxy::session::{Action, Destination, Event, Failure, ProtocolError};
use tiny_proxy::socks5::Socks5Connection;
use tiny_proxy::tcp::TcpConnection;

fn remote() -> Destination {
    Destination::V4([127, 0, 0, 1], 9000)
}

#[test]
fn tcp_connection_goes_to_the_fixed_destination() {
    let conn = TcpConnection::new(remote());
    assert_eq!(conn, TcpConnection::Idle(remote()));
    let (conn, action) = conn.handle_connection(Event::Accepted);
    assert_eq!(action, Action::Connect(Destination::V4([127, 0, 0, 1], 9000)));
    assert_eq!(conn, TcpConnection::Connecting);
    let (conn, action) = conn.handle_connection(Event::Connected);
    assert_eq!(action, Action::Relay);
    assert_eq!(conn, TcpConnection::Closed);
}

#[test]
fn tcp_connection_aborts_when_the_destination_is_down() {
    let (conn, _) = TcpConnection::new(remote()).handle_connection(Event::Accepted);
    let (conn, action) = conn.handle_connection(Event::ConnectFailed);
    assert_eq!(action, Action::Abort(Failure::Connect));
    assert_eq!(conn, TcpConnection::Closed);
    let (_, action) = conn.handle_connection(Event::Accepted);
    assert_eq!(action, Action::Abort(Failure::Misuse));
}

#[test]
fn tcp_connection_exchanges_nothing_before_the_relay() {
    let events = || {
        vec![
            Event::Accepted,
            Event::Received(vec![1, 2, 3]),
            Event::Sent,
            Event::Resolved,
            Event::ResolveFailed,
            Event::Connected,
            Event::ConnectFailed,
            Event::IoFailed,
        ]
    };
    let states = || {
        vec![TcpConnection::Idle(remote()), TcpConnection::Connecting, TcpConnection::Closed]
    };
    for state in states() {
        for event in events() {
            let (_, action) = state.clone().handle_connection(event);
            assert!(matches!(action, Action::Connect(_) | Action::Relay | Action::Abort(_)));
        }
    }
    let (_, action) = TcpConnection::Connecting.handle_connection(Event::Received(vec![1]));
    assert_eq!(action, Action::Abort(Failure::Misuse));
    let (_, action) = TcpConnection::Idle(remote()).handle_connection(Event::IoFailed);
    assert_eq!(action, Action::Abort(Failure::Io));
}

#[test]
fn open_starts_the_front_end_of_the_mode() {
    assert_eq!(Connection::open(Mode::Http, None), Some(Connection::Http(HttpConnection::new())));
    assert_eq!(
        Connection::open(Mode::Socks5, None),
        Some(Connection::Socks5(Socks5Connection::new()))
    );
    assert_eq!(
        Connection::open(Mode::Tcp, Some(remote())),
        Some(Connection::Tcp(TcpConnection::new(remote())))
    );
    assert_eq!(
        Connection::open(Mode::Http, Some(remote())),
        Some(Connection::Http(HttpConnection::new()))
    );
}

#[test]
fn open_in_tcp_mode_needs_the_destination() {
    assert_eq!(Connection::open(Mode::Tcp, None), None);
}

#[test]
fn connection_steps_as_its_front_end_does() {
    let (_, action) = Connection::open(Mode::Http, None).unwrap().handle_connection(Event::Accepted);
    assert_eq!(action, Action::Read(4096));
    let (conn, action) =
        Connection::open(Mode::Socks5, None).unwrap().handle_connection(Event::Accepted);
    assert_eq!(action, Action::ReadExact(1));
    let (conn, action) = conn.handle_connection(Event::Received(vec![4]));
    assert_eq!(action, Action::Abort(Failure::Protocol(ProtocolError::UnsupportedSocksVersion)));
    assert!(matches!(conn, Connection::Socks5(_)));
    let (conn, action) =
        Connection::open(Mode::Tcp, Some(remote())).unwrap().handle_connection(Event::Accepted);
    assert_eq!(action, Action::Connect(remote()));
    assert_eq!(conn, Connection::Tcp(TcpConnection::Connecting));
}

#[test]
fn failure_messages() {
    let protocol = |e: ProtocolError| Failure::Protocol(e).message();
    assert_eq!(protocol(ProtocolError::MalformedRequest), "Malformed HTTP request");
    assert_eq!(protocol(ProtocolError::LengthMismatch), "body_start != size");
    assert_eq!(protocol(ProtocolError::UnknownHttpVersion), "Unknown HTTP version");
    assert_eq!(protocol(ProtocolError::MissingHost), "No host header");
    assert_eq!(protocol(ProtocolError::HostNotText), "Host header is not text");
    assert_eq!(protocol(ProtocolError::UnsupportedSocksVersion), "Only support socks version 5");
    assert_eq!(protocol(ProtocolError::UnsupportedCommand), "Only support command 'connect'");
    assert_eq!(protocol(ProtocolError::UnsupportedAddressType), "Unsupported address type");
    assert_eq!(protocol(ProtocolError::InvalidDomain), "Domain name is not UTF-8");
    assert_eq!(protocol(ProtocolError::UnresolvedAddress), "Invalid socket address");
    assert_eq!(Failure::Connect.message(), "Can't connect to the destination");
    assert_eq!(Failure::Io.message(), "Stream failed or ended");
    assert_eq!(Failure::Misuse.message(), "Unexpected event");
}

#[test]
fn config_choices_are_distinct() {
    assert_ne!(Mode::Http, Mode::Socks5);
    assert_ne!(Mode::Socks5, Mode::Tcp);
    assert_ne!(LogFormat::Console, LogFormat::Json);
    let levels = [
        LogLevel::Off,
        LogLevel::Trace,
        LogLevel::Debug,
        LogLevel::Info,
        LogLevel::Warn,
        LogLevel::Error,
    ];
    for (i, a) in levels.iter().enumerate() {
        for (j, b) in levels.iter().enumerate() {
            assert_eq!(a == b, i == j);
        }
    }
}
