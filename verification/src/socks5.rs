//! The SOCKS5 front end: method negotiation, the connect request with its
//! typed address, and the steps of one proxied connection.

use vstd::prelude::*;
use vstd::slice::{slice_subrange, slice_to_vec};
use vstd::utf8::{decode_utf8, valid_utf8};
use crate::session::{Action, ActionView, Destination, DestinationView, Event, EventView, Failure, ProtocolError};
use crate::text::{ascii_chars, decimal_digits, port_text, text_of};

verus! {

/// The protocol version that is served.
pub const SOCKS5_VER: u8 = 0x05;

/// The command that is served: open a connection.
pub const CMD_CONNECT: u8 = 0x01;

/// Address type: four octets of IPv4.
pub const IPV4: u8 = 0x01;

/// Address type: a length byte and that many bytes of a host name.
pub const HOST: u8 = 0x03;

/// Address type: sixteen octets of IPv6.
pub const IPV6: u8 = 0x04;

/// Length of an IPv4 address field.
pub const IPV4_LEN: usize = 4;

/// Length of an IPv6 address field.
pub const IPV6_LEN: usize = 16;

/// How far the client's greeting has come.
#[derive(Clone, Copy, Debug, PartialEq, Eq, Structural)]
pub enum HandshakeStep {
    /// This many more bytes are to be read next.
    Need(usize),
    /// The greeting is complete.
    Done,
    /// The greeting is turned down.
    Fail(ProtocolError),
}

/// How far the client's connect request has come.
#[derive(Clone, Debug, PartialEq, Eq)]
pub enum AddressStep {
    /// This many more bytes are to be read next.
    Need(usize),
    /// The request is complete and names this destination.
    Done(Destination),
    /// The request is turned down.
    Fail(ProtocolError),
}

/// A step of the connect request as a mathematical value.
pub enum AddressStepView {
    Need(usize),
    Done(DestinationView),
    Fail(ProtocolError),
}

impl View for AddressStep {
    type V = AddressStepView;

    open spec fn view(&self) -> AddressStepView {
        match *self {
            AddressStep::Need(n) => AddressStepView::Need(n),
            AddressStep::Done(dest) => AddressStepView::Done(dest@),
            AddressStep::Fail(e) => AddressStepView::Fail(e),
        }
    }
}

/// What the bytes of a greeting received so far call for.
///
/// A greeting is the version byte, the number of methods offered, and one
/// byte for each method. The fields are read one after the other, and the
/// version is judged as soon as it is there.
pub open spec fn handshake_step(b: Seq<u8>) -> HandshakeStep {
    if b.len() == 0 {
        HandshakeStep::Need(1)
    } else if b[0] != SOCKS5_VER {
        HandshakeStep::Fail(ProtocolError::UnsupportedSocksVersion)
    } else if b.len() == 1 {
        HandshakeStep::Need(1)
    } else if b.len() < 2 + b[1] {
        HandshakeStep::Need((2 + b[1] - b.len()) as usize)
    } else {
        HandshakeStep::Done
    }
}

/// The answer to a greeting: version 5, no authentication.
pub open spec fn method_selection() -> Seq<u8> {
    seq![5u8, 0u8]
}

/// The answer to a connect request: success, with a bind address that is a
/// placeholder and not the address in use.
pub open spec fn success_frame() -> Seq<u8> {
    seq![5u8, 0u8, 0u8, 1u8, 0u8, 0u8, 0u8, 0u8, 0x68u8, 0x68u8]
}

/// The port that two bytes in network order spell.
pub open spec fn port_of(high: u8, low: u8) -> u16 {
    (high * 256 + low) as u16
}

/// The `host:port` text of a host name and a port: the name, a colon, and the
/// port as a decimal numeral.
pub open spec fn domain_text(name: Seq<u8>, port: u16) -> Seq<char> {
    decode_utf8(name) + seq![':'] + ascii_chars(decimal_digits(port as nat))
}

/// Where the address field of a request begins.
pub open spec fn address_start(b: Seq<u8>) -> int {
    if b[3] == HOST {
        5
    } else {
        4
    }
}

/// How long the address field of a request is.
pub open spec fn address_len(b: Seq<u8>) -> int {
    if b[3] == IPV4 {
        4
    } else if b[3] == IPV6 {
        16
    } else {
        b[4] as int
    }
}

/// The destination that an address field of type `atyp` and a port name. A
/// host name must be UTF-8.
pub open spec fn decoded(atyp: u8, addr: Seq<u8>, port: u16) -> AddressStepView {
    if atyp == IPV4 {
        AddressStepView::Done(DestinationView::V4(addr, port))
    } else if atyp == IPV6 {
        AddressStepView::Done(DestinationView::V6(addr, port))
    } else if valid_utf8(addr) {
        AddressStepView::Done(DestinationView::HostPort(domain_text(addr, port)))
    } else {
        AddressStepView::Fail(ProtocolError::InvalidDomain)
    }
}

/// What the bytes of a connect request received so far call for.
///
/// A request is the version byte, the command, a reserved byte, the address
/// type, the address (for a host name, a length byte first) and two bytes of
/// port, high byte first. The fields are read one after the other; version,
/// command and address type are judged as soon as they are there, the host
/// name once the port is there. Bytes past the port are not looked at.
pub open spec fn address_step(b: Seq<u8>) -> AddressStepView {
    if b.len() == 0 {
        AddressStepView::Need(1)
    } else if b[0] != SOCKS5_VER {
        AddressStepView::Fail(ProtocolError::UnsupportedSocksVersion)
    } else if b.len() == 1 {
        AddressStepView::Need(1)
    } else if b[1] != CMD_CONNECT {
        AddressStepView::Fail(ProtocolError::UnsupportedCommand)
    } else if b.len() < 4 {
        AddressStepView::Need(1)
    } else if b[3] != IPV4 && b[3] != HOST && b[3] != IPV6 {
        AddressStepView::Fail(ProtocolError::UnsupportedAddressType)
    } else if b[3] == HOST && b.len() == 4 {
        AddressStepView::Need(1)
    } else {
        let start = address_start(b);
        let end = start + address_len(b);
        if b.len() < end {
            AddressStepView::Need((end - b.len()) as usize)
        } else if b.len() < end + 2 {
            AddressStepView::Need((end + 2 - b.len()) as usize)
        } else {
            decoded(b[3], b.subrange(start, end), port_of(b[end], b[end + 1]))
        }
    }
}

/// Says what the bytes of a greeting received so far call for: how many
/// bytes to read next, that the greeting is complete, or that it is turned
/// down because its version is not 5.
pub fn handshake(received: &[u8]) -> (r: HandshakeStep)
    ensures
        r == handshake_step(received@),
{
    let len = received.len();
    if len == 0 {
        return HandshakeStep::Need(1);
    }
    if received[0] != SOCKS5_VER {
        return HandshakeStep::Fail(ProtocolError::UnsupportedSocksVersion);
    }
    if len == 1 {
        return HandshakeStep::Need(1);
    }
    let message_len: usize = 2 + received[1] as usize;
    if len < message_len {
        HandshakeStep::Need(message_len - len)
    } else {
        HandshakeStep::Done
    }
}

/// The port that two bytes in network order spell.
pub fn read_port(high: u8, low: u8) -> (r: u16)
    ensures
        r == port_of(high, low),
{
    high as u16 * 256 + low as u16
}

/// The `host:port` text of a host name and a port, or nothing where the
/// name is not UTF-8.
pub fn host_port(name: &[u8], port: u16) -> (r: Option<String>)
    ensures
        r is Some <==> valid_utf8(name@),
        r is Some ==> r->0@ == domain_text(name@, port),
{
    match text_of(slice_to_vec(name)) {
        Some(mut addr) => {
            proof {
                reveal_strlit(":");
            }
            addr.append(":");
            let digits = port_text(port);
            addr.append(digits.as_str());
            assert(addr@ =~= domain_text(name@, port));
            Some(addr)
        },
        None => None,
    }
}

/// Says what the bytes of a connect request received so far call for: how
/// many bytes to read next, the destination that the complete request names,
/// or why it is turned down.
pub fn read_address(received: &[u8]) -> (r: AddressStep)
    ensures
        r@ == address_step(received@),
{
    let len = received.len();
    if len == 0 {
        return AddressStep::Need(1);
    }
    if received[0] != SOCKS5_VER {
        return AddressStep::Fail(ProtocolError::UnsupportedSocksVersion);
    }
    if len == 1 {
        return AddressStep::Need(1);
    }
    if received[1] != CMD_CONNECT {
        return AddressStep::Fail(ProtocolError::UnsupportedCommand);
    }
    if len < 4 {
        return AddressStep::Need(1);
    }
    let address_type = received[3];
    if address_type != IPV4 && address_type != HOST && address_type != IPV6 {
        return AddressStep::Fail(ProtocolError::UnsupportedAddressType);
    }
    if address_type == HOST && len == 4 {
        return AddressStep::Need(1);
    }
    let start: usize = if address_type == HOST {
        5
    } else {
        4
    };
    let address_len: usize = if address_type == IPV4 {
        IPV4_LEN
    } else if address_type == IPV6 {
        IPV6_LEN
    } else {
        received[4] as usize
    };
    let end: usize = start + address_len;
    if len < end {
        return AddressStep::Need(end - len);
    }
    if len < end + 2 {
        return AddressStep::Need(end + 2 - len);
    }
    let port = read_port(received[end], received[end + 1]);
    let field = slice_subrange(received, start, end);
    if address_type == IPV4 {
        let addr: [u8; 4] = [field[0], field[1], field[2], field[3]];
        assert(addr@ =~= field@);
        AddressStep::Done(Destination::V4(addr, port))
    } else if address_type == IPV6 {
        let addr: [u8; 16] = [
            field[0],
            field[1],
            field[2],
            field[3],
            field[4],
            field[5],
            field[6],
            field[7],
            field[8],
            field[9],
            field[10],
            field[11],
            field[12],
            field[13],
            field[14],
            field[15],
        ];
        assert(addr@ =~= field@);
        AddressStep::Done(Destination::V6(addr, port))
    } else {
        match host_port(field, port) {
            Some(addr) => AddressStep::Done(Destination::HostPort(addr)),
            None => AddressStep::Fail(ProtocolError::InvalidDomain),
        }
    }
}

/// The bytes of the answer to a greeting.
pub fn method_reply() -> (r: Vec<u8>)
    ensures
        r@ == method_selection(),
{
    let r = vec![SOCKS5_VER, 0x00u8];
    assert(r@ =~= method_selection());
    r
}

/// The bytes of the answer to a connect request.
pub fn success_reply() -> (r: Vec<u8>)
    ensures
        r@ == success_frame(),
{
    let r = vec![0x05u8, 0x00u8, 0x00u8, 0x01u8, 0x00u8, 0x00u8, 0x00u8, 0x00u8, 0x68u8, 0x68u8];
    assert(r@ =~= success_frame());
    r
}

/// How far a proxied SOCKS5 connection has come.
#[derive(Clone, Copy, Debug, PartialEq, Eq, Structural)]
pub enum Stage {
    /// Nothing has happened yet.
    Idle,
    /// The greeting is being read.
    Greeting,
    /// The answer to the greeting is being written.
    Greeted,
    /// The connect request is being read.
    Request,
    /// The destination is being resolved.
    Resolving,
    /// The answer to the connect request is being written.
    Replying,
    /// The outbound connection is being opened.
    Connecting,
    /// The connection was handed to the relay, or dropped.
    Closed,
}

/// One proxied SOCKS5 connection.
#[derive(Clone, Debug, PartialEq, Eq)]
pub struct Socks5Connection {
    pub stage: Stage,
    /// The bytes read so far of the message that is being read.
    pub received: Vec<u8>,
}

/// A proxied SOCKS5 connection as a mathematical value.
pub struct Socks5ConnectionView {
    pub stage: Stage,
    pub received: Seq<u8>,
}

impl View for Socks5Connection {
    type V = Socks5ConnectionView;

    open spec fn view(&self) -> Socks5ConnectionView {
        Socks5ConnectionView { stage: self.stage, received: self.received@ }
    }
}

/// The state at `stage` with nothing read of the next message.
pub open spec fn at(stage: Stage) -> Socks5ConnectionView {
    Socks5ConnectionView { stage, received: Seq::<u8>::empty() }
}

/// What follows a step of the greeting, `received` being the bytes so far.
pub open spec fn after_handshake(received: Seq<u8>, step: HandshakeStep) -> (
    Socks5ConnectionView,
    ActionView,
) {
    match step {
        HandshakeStep::Need(n) => (
            Socks5ConnectionView { stage: Stage::Greeting, received },
            ActionView::ReadExact(n),
        ),
        HandshakeStep::Done => (at(Stage::Greeted), ActionView::SendClient(method_selection())),
        HandshakeStep::Fail(e) => (at(Stage::Closed), ActionView::Abort(Failure::Protocol(e))),
    }
}

/// What follows a step of the connect request, `received` being the bytes so
/// far.
pub open spec fn after_address(received: Seq<u8>, step: AddressStepView) -> (
    Socks5ConnectionView,
    ActionView,
) {
    match step {
        AddressStepView::Need(n) => (
            Socks5ConnectionView { stage: Stage::Request, received },
            ActionView::ReadExact(n),
        ),
        AddressStepView::Done(dest) => (at(Stage::Resolving), ActionView::Resolve(dest)),
        AddressStepView::Fail(e) => (at(Stage::Closed), ActionView::Abort(Failure::Protocol(e))),
    }
}

/// The next state of a proxied SOCKS5 connection and what its caller is to
/// do, for each state and event.
///
/// The greeting is read field by field and answered; then the connect
/// request is read field by field, its destination resolved, the request
/// answered, the outbound connection opened, and the relay takes over. Bytes
/// that are not as many as were asked for are turned down as misuse.
pub open spec fn next(s: Socks5ConnectionView, e: EventView) -> (Socks5ConnectionView, ActionView) {
    match (s.stage, e) {
        (Stage::Closed, _) => (s, ActionView::Abort(Failure::Misuse)),
        (_, EventView::IoFailed) => (at(Stage::Closed), ActionView::Abort(Failure::Io)),
        (Stage::Idle, EventView::Accepted) => (at(Stage::Greeting), ActionView::ReadExact(1)),
        (Stage::Greeting, EventView::Received(bytes)) => if handshake_step(s.received)
            == HandshakeStep::Need(bytes.len() as usize) {
            after_handshake(s.received + bytes, handshake_step(s.received + bytes))
        } else {
            (at(Stage::Closed), ActionView::Abort(Failure::Misuse))
        },
        (Stage::Greeted, EventView::Sent) => (at(Stage::Request), ActionView::ReadExact(1)),
        (Stage::Request, EventView::Received(bytes)) => if address_step(s.received)
            == AddressStepView::Need(bytes.len() as usize) {
            after_address(s.received + bytes, address_step(s.received + bytes))
        } else {
            (at(Stage::Closed), ActionView::Abort(Failure::Misuse))
        },
        (Stage::Resolving, EventView::Resolved) => (
            at(Stage::Replying),
            ActionView::SendClient(success_frame()),
        ),
        (Stage::Resolving, EventView::ResolveFailed) => (
            at(Stage::Closed),
            ActionView::Abort(Failure::Protocol(ProtocolError::UnresolvedAddress)),
        ),
        (Stage::Replying, EventView::Sent) => (at(Stage::Connecting), ActionView::ConnectResolved),
        (Stage::Connecting, EventView::Connected) => (at(Stage::Closed), ActionView::Relay),
        (Stage::Connecting, EventView::ConnectFailed) => (
            at(Stage::Closed),
            ActionView::Abort(Failure::Connect),
        ),
        _ => (at(Stage::Closed), ActionView::Abort(Failure::Misuse)),
    }
}

impl Socks5Connection {
    /// A connection on which nothing has happened yet.
    pub fn new() -> (r: Socks5Connection)
        ensures
            r@ == at(Stage::Idle),
    {
        Socks5Connection { stage: Stage::Idle, received: Vec::new() }
    }

    /// The connection at `stage`, with nothing read of the next message.
    fn fresh(stage: Stage) -> (r: Socks5Connection)
        ensures
            r@ == at(stage),
    {
        Socks5Connection { stage, received: Vec::new() }
    }

    /// Takes the connection one step further: from its state and what the
    /// caller reports to its next state and what the caller is to do.
    pub fn handle_connection(self, event: Event) -> (r: (Socks5Connection, Action))
        ensures
            (r.0@, r.1@) == next(self@, event@),
    {
        let Socks5Connection { stage, mut received } = self;
        match (stage, event) {
            (Stage::Closed, _) => (
                Socks5Connection { stage, received },
                Action::Abort(Failure::Misuse),
            ),
            (_, Event::IoFailed) => (Self::fresh(Stage::Closed), Action::Abort(Failure::Io)),
            (Stage::Idle, Event::Accepted) => (Self::fresh(Stage::Greeting), Action::ReadExact(1)),
            (Stage::Greeting, Event::Received(bytes)) => {
                match handshake(received.as_slice()) {
                    HandshakeStep::Need(n) if n == bytes.len() => {},
                    _ => {
                        return (Self::fresh(Stage::Closed), Action::Abort(Failure::Misuse));
                    },
                }
                received.extend_from_slice(bytes.as_slice());
                assert(received@ =~= self@.received + bytes@);
                match handshake(received.as_slice()) {
                    HandshakeStep::Need(n) => (
                        Socks5Connection { stage: Stage::Greeting, received },
                        Action::ReadExact(n),
                    ),
                    HandshakeStep::Done => (
                        Self::fresh(Stage::Greeted),
                        Action::SendClient(method_reply()),
                    ),
                    HandshakeStep::Fail(e) => (
                        Self::fresh(Stage::Closed),
                        Action::Abort(Failure::Protocol(e)),
                    ),
                }
            },
            (Stage::Greeted, Event::Sent) => (Self::fresh(Stage::Request), Action::ReadExact(1)),
            (Stage::Request, Event::Received(bytes)) => {
                match read_address(received.as_slice()) {
                    AddressStep::Need(n) if n == bytes.len() => {},
                    _ => {
                        return (Self::fresh(Stage::Closed), Action::Abort(Failure::Misuse));
                    },
                }
                received.extend_from_slice(bytes.as_slice());
                assert(received@ =~= self@.received + bytes@);
                match read_address(received.as_slice()) {
                    AddressStep::Need(n) => (
                        Socks5Connection { stage: Stage::Request, received },
                        Action::ReadExact(n),
                    ),
                    AddressStep::Done(dest) => (
                        Self::fresh(Stage::Resolving),
                        Action::Resolve(dest),
                    ),
                    AddressStep::Fail(e) => (
                        Self::fresh(Stage::Closed),
                        Action::Abort(Failure::Protocol(e)),
                    ),
                }
            },
            (Stage::Resolving, Event::Resolved) => (
                Self::fresh(Stage::Replying),
                Action::SendClient(success_reply()),
            ),
            (Stage::Resolving, Event::ResolveFailed) => (
                Self::fresh(Stage::Closed),
                Action::Abort(Failure::Protocol(ProtocolError::UnresolvedAddress)),
            ),
            (Stage::Replying, Event::Sent) => (
                Self::fresh(Stage::Connecting),
                Action::ConnectResolved,
            ),
            (Stage::Connecting, Event::Connected) => (Self::fresh(Stage::Closed), Action::Relay),
            (Stage::Connecting, Event::ConnectFailed) => (
                Self::fresh(Stage::Closed),
                Action::Abort(Failure::Connect),
            ),
            _ => (Self::fresh(Stage::Closed), Action::Abort(Failure::Misuse)),
        }
    }
}

/// The bytes of a connect request: version, command, a reserved byte, the
/// address type, the address field and the port, high byte first.
pub open spec fn connect_request(reserved: u8, atyp: u8, field: Seq<u8>, port: u16) -> Seq<u8> {
    seq![SOCKS5_VER, CMD_CONNECT, reserved, atyp] + field + seq![
        (port / 256) as u8,
        (port % 256) as u8,
    ]
}

/// The address field of a host name: its length, then its bytes.
pub open spec fn host_field(name: Seq<u8>) -> Seq<u8> {
    seq![name.len() as u8] + name
}

/// Two bytes in network order spell the port that they were cut from.
pub proof fn lemma_port_round_trip(port: u16)
    ensures
        port_of((port / 256) as u8, (port % 256) as u8) == port,
{
}

/// A connect request with an IPv4 address decodes to the four octets and
/// the port that it was made of.
pub proof fn lemma_ipv4_round_trip(reserved: u8, octets: Seq<u8>, port: u16)
    requires
        octets.len() == 4,
    ensures
        address_step(connect_request(reserved, IPV4, octets, port)) == AddressStepView::Done(
            DestinationView::V4(octets, port),
        ),
{
    let b = connect_request(reserved, IPV4, octets, port);
    assert(b.len() == 10);
    assert(b[3] == IPV4);
    assert(b.subrange(4, 8) =~= octets);
    lemma_port_round_trip(port);
}

/// A connect request with an IPv6 address decodes to the sixteen octets and
/// the port that it was made of.
pub proof fn lemma_ipv6_round_trip(reserved: u8, octets: Seq<u8>, port: u16)
    requires
        octets.len() == 16,
    ensures
        address_step(connect_request(reserved, IPV6, octets, port)) == AddressStepView::Done(
            DestinationView::V6(octets, port),
        ),
{
    let b = connect_request(reserved, IPV6, octets, port);
    assert(b.len() == 22);
    assert(b[3] == IPV6);
    assert(b.subrange(4, 20) =~= octets);
    lemma_port_round_trip(port);
}

/// A connect request with a host name of `L` bytes is complete with exactly
/// those `L` bytes and the two bytes of port: it then names the host and
/// port as text where the name is UTF-8, and is turned down where it is not.
/// Any shorter beginning of it only asks for more bytes, at least one and
/// never past the request's end.
pub proof fn lemma_host_name_exact_length(reserved: u8, name: Seq<u8>, port: u16)
    requires
        name.len() <= 255,
    ensures
        ({
            let frame = connect_request(reserved, HOST, host_field(name), port);
            &&& frame.len() == 7 + name.len()
            &&& address_step(frame) == decoded(HOST, name, port)
            &&& valid_utf8(name) ==> address_step(frame) == AddressStepView::Done(
                DestinationView::HostPort(domain_text(name, port)),
            )
            &&& !valid_utf8(name) ==> address_step(frame) == AddressStepView::Fail(
                ProtocolError::InvalidDomain,
            )
            &&& forall|n: int|
                0 <= n < frame.len() ==> match #[trigger] address_step(frame.take(n)) {
                    AddressStepView::Need(k) => 1 <= k && n + k <= frame.len(),
                    _ => false,
                }
        }),
{
    let frame = connect_request(reserved, HOST, host_field(name), port);
    assert(frame.len() == 7 + name.len());
    assert(frame[3] == HOST);
    assert(frame[4] == name.len() as u8);
    assert(frame.subrange(5, 5 + name.len() as int) =~= name);
    lemma_port_round_trip(port);
    assert forall|n: int| 0 <= n < frame.len() implies match #[trigger] address_step(
        frame.take(n),
    ) {
        AddressStepView::Need(k) => 1 <= k && n + k <= frame.len(),
        _ => false,
    } by {
        let head = frame.take(n);
        assert(head.len() == n);
        if n >= 1 {
            assert(head[0] == frame[0]);
        }
        if n >= 2 {
            assert(head[1] == frame[1]);
        }
        if n >= 4 {
            assert(head[3] == frame[3]);
        }
        if n >= 5 {
            assert(head[4] == frame[4]);
        }
    }
}

/// A connection that is reading, in whatever state, is dropped when the
/// stream ends or fails: it never waits on.
pub proof fn lemma_stream_end_fails(s: Socks5ConnectionView)
    requires
        s.stage != Stage::Closed,
    ensures
        next(s, EventView::IoFailed) == (at(Stage::Closed), ActionView::Abort(Failure::Io)),
{
}

/// A greeting whose first byte is not 5 is turned down on that byte: the
/// connection asks for one byte, and drops the client when it sees it.
pub proof fn lemma_wrong_version_fails_at_once(version: u8)
    requires
        version != SOCKS5_VER,
    ensures
        next(at(Stage::Idle), EventView::Accepted) == (
            at(Stage::Greeting),
            ActionView::ReadExact(1),
        ),
        next(at(Stage::Greeting), EventView::Received(seq![version])) == (
            at(Stage::Closed),
            ActionView::Abort(Failure::Protocol(ProtocolError::UnsupportedSocksVersion)),
        ),
{
    let one = seq![version];
    assert(Seq::<u8>::empty() + one =~= one);
    assert(one[0] == version);
}

/// A connect request whose address type is none of IPv4, host name and IPv6
/// is turned down on the type byte: up to there the connection asks for one
/// byte at a time, and it drops the client when it sees the type.
pub proof fn lemma_unknown_address_type_fails_at_once(reserved: u8, atyp: u8)
    requires
        atyp != IPV4,
        atyp != HOST,
        atyp != IPV6,
    ensures
        ({
            let b = seq![SOCKS5_VER, CMD_CONNECT, reserved, atyp];
            &&& forall|n: int|
                0 <= n < 4 ==> #[trigger] address_step(b.take(n)) == AddressStepView::Need(1)
            &&& address_step(b) == AddressStepView::Fail(ProtocolError::UnsupportedAddressType)
            &&& next(
                Socks5ConnectionView { stage: Stage::Request, received: b.take(3) },
                EventView::Received(seq![atyp]),
            ) == (
                at(Stage::Closed),
                ActionView::Abort(Failure::Protocol(ProtocolError::UnsupportedAddressType)),
            )
        }),
{
    let b = seq![SOCKS5_VER, CMD_CONNECT, reserved, atyp];
    assert forall|n: int| 0 <= n < 4 implies #[trigger] address_step(b.take(n))
        == AddressStepView::Need(1) by {
        let head = b.take(n);
        if n >= 1 {
            assert(head[0] == b[0]);
        }
        if n >= 2 {
            assert(head[1] == b[1]);
        }
    }
    assert(b.take(3) + seq![atyp] =~= b);
    assert(address_step(b.take(3)) == AddressStepView::Need(1));
}

} // verus!
