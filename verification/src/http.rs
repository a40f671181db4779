//! The HTTP front end: reading a request head from a growing buffer, finding
//! where it wants to go, and the steps of one proxied connection.

use vstd::prelude::*;
use vstd::slice::slice_to_vec;
use crate::session::{Action, ActionView, Destination, DestinationView, Event, EventView, Failure, ProtocolError};
use crate::text::{all_visible, ascii_chars, ascii_string, contains_byte, eq_ignore_case, is_visible_text, same_ignoring_case};

verus! {

/// How many headers a request may carry.
pub const MAX_HEADERS: usize = 64;

/// How many bytes one read from the client asks for at most.
pub const CHUNK_SIZE: usize = 4096;

/// The request method, as far as the proxy tells methods apart.
#[derive(Clone, Copy, Debug, PartialEq, Eq, Structural)]
pub enum Method {
    /// `CONNECT`: open a tunnel.
    Connect,
    /// Any other method: forward the request.
    Other,
}

/// The HTTP versions that the proxy serves.
#[derive(Clone, Copy, Debug, PartialEq, Eq, Structural)]
pub enum Version {
    Http10,
    Http11,
}

/// A request head as the scanner reports it, before the proxy has judged it.
#[derive(Clone, Debug, PartialEq, Eq)]
pub struct RawHead {
    /// How many bytes of the buffer the head occupies.
    pub consumed: usize,
    /// The method token, if one was read.
    pub method: Option<Vec<u8>>,
    /// The minor version digit, if one was read.
    pub version: Option<u8>,
    /// Header names and values, in the order received.
    pub headers: Vec<(Vec<u8>, Vec<u8>)>,
}

/// A scanned head as a mathematical value.
pub struct RawHeadView {
    pub consumed: usize,
    pub method: Option<Seq<u8>>,
    pub version: Option<u8>,
    pub headers: Seq<(Seq<u8>, Seq<u8>)>,
}

/// Header pairs as sequences of bytes.
pub open spec fn pairs(headers: Seq<(Vec<u8>, Vec<u8>)>) -> Seq<(Seq<u8>, Seq<u8>)> {
    Seq::new(headers.len(), |i: int| (headers[i].0@, headers[i].1@))
}

impl View for RawHead {
    type V = RawHeadView;

    open spec fn view(&self) -> RawHeadView {
        RawHeadView {
            consumed: self.consumed,
            method: match self.method {
                Some(m) => Some(m@),
                None => None,
            },
            version: self.version,
            headers: pairs(self.headers@),
        }
    }
}

/// A parsed request: what the proxy keeps of a complete head.
#[derive(Clone, Debug, PartialEq, Eq)]
pub struct Request {
    pub method: Method,
    pub version: Version,
    /// Header names and values, in the order received.
    pub headers: Vec<(Vec<u8>, Vec<u8>)>,
    /// How many bytes the request line and headers occupy.
    pub head_len: usize,
}

/// A parsed request as a mathematical value.
pub struct RequestView {
    pub method: Method,
    pub version: Version,
    pub headers: Seq<(Seq<u8>, Seq<u8>)>,
    pub head_len: usize,
}

impl View for Request {
    type V = RequestView;

    open spec fn view(&self) -> RequestView {
        RequestView {
            method: self.method,
            version: self.version,
            headers: pairs(self.headers@),
            head_len: self.head_len,
        }
    }
}

/// What scanning a buffer for a request head can find.
pub enum Scan {
    /// The head is not complete yet, and nothing so far is wrong.
    Partial,
    /// The head is complete.
    Complete(RawHeadView),
    /// The bytes cannot begin a request head.
    Invalid,
}

/// The outcome of scanning `buf` for a request head with room for
/// `max_headers` headers.
pub uninterp spec fn head_scan(buf: Seq<u8>, max_headers: usize) -> Scan;

/// `httparse::Error`, the scanner's reason for turning bytes down. It is
/// carried through as it is; nothing is claimed of what it holds.
#[verifier::external_type_specification]
#[verifier::external_body]
pub struct ExScanError(httparse::Error);

/// A scanner's result as a `Scan`.
pub open spec fn scan_of(r: Result<Option<RawHead>, httparse::Error>) -> Scan {
    match r {
        Ok(Some(head)) => Scan::Complete(head@),
        Ok(None) => Scan::Partial,
        Err(_) => Scan::Invalid,
    }
}

/// `httparse::Request::parse`, on a fresh request with `max_headers` empty
/// header slots. Nothing is claimed of what the scanner finds but that it is
/// a function of the bytes and of the number of slots: the result is given
/// the name `head_scan`. A complete head comes back with the offset at which
/// the body starts, the method, the minor version and the headers that the
/// scanner filled in, copied out byte for byte.
#[verifier::external_body]
fn scan_head(buf: &[u8], max_headers: usize) -> (r: Result<Option<RawHead>, httparse::Error>)
    requires
        max_headers <= 1024,
    ensures
        scan_of(r) == head_scan(buf@, max_headers),
{
    let mut slots = vec![httparse::EMPTY_HEADER; max_headers];
    let mut req = httparse::Request::new(&mut slots);
    match req.parse(buf) {
        Ok(httparse::Status::Complete(consumed)) => Ok(Some(RawHead {
            consumed,
            method: req.method.map(|m| m.as_bytes().to_vec()),
            version: req.version,
            headers: req.headers.iter().map(|h| (h.name.as_bytes().to_vec(), h.value.to_vec())).collect(),
        })),
        Ok(httparse::Status::Partial) => Ok(None),
        Err(e) => Err(e),
    }
}

/// The method token `CONNECT`.
pub open spec fn connect_token() -> Seq<u8> {
    seq![67u8, 79u8, 78u8, 78u8, 69u8, 67u8, 84u8]
}

/// The header name `host`.
pub open spec fn host_name() -> Seq<u8> {
    seq![104u8, 111u8, 115u8, 116u8]
}

/// The method that a token stands for. A head without a method token counts
/// as an ordinary request.
pub open spec fn method_of(token: Option<Seq<u8>>) -> Method {
    match token {
        Some(t) => if t == connect_token() {
            Method::Connect
        } else {
            Method::Other
        },
        None => Method::Other,
    }
}

/// The version that a minor version digit stands for. A head without one
/// counts as HTTP/1.1.
pub open spec fn version_of(minor: Option<u8>) -> Result<Version, ProtocolError> {
    match minor {
        Some(v) => if v == 0 {
            Ok(Version::Http10)
        } else if v == 1 {
            Ok(Version::Http11)
        } else {
            Err(ProtocolError::UnknownHttpVersion)
        },
        None => Ok(Version::Http11),
    }
}

/// The proxy's verdict on a complete head that the chunk of `size` bytes
/// completed: the head must end exactly where that chunk ends, and its
/// version must be 1.0 or 1.1.
pub open spec fn request_of(head: RawHeadView, size: nat) -> Result<RequestView, ProtocolError> {
    if head.consumed as nat != size {
        Err(ProtocolError::LengthMismatch)
    } else {
        match version_of(head.version) {
            Ok(version) => Ok(
                RequestView {
                    method: method_of(head.method),
                    version,
                    headers: head.headers,
                    head_len: head.consumed,
                },
            ),
            Err(e) => Err(e),
        }
    }
}

/// The verdict on what a scan found.
pub open spec fn verdict(scan: Scan, size: nat) -> Result<Option<RequestView>, ProtocolError> {
    match scan {
        Scan::Partial => Ok(None),
        Scan::Invalid => Err(ProtocolError::MalformedRequest),
        Scan::Complete(head) => match request_of(head, size) {
            Ok(request) => Ok(Some(request)),
            Err(e) => Err(e),
        },
    }
}

/// What the reader says of a buffer whose last `size` bytes just arrived.
pub open spec fn parse_outcome(buf: Seq<u8>, size: nat) -> Result<
    Option<RequestView>,
    ProtocolError,
> {
    verdict(head_scan(buf, MAX_HEADERS), size)
}

/// A reader's answer as a mathematical value.
pub open spec fn outcome_view(r: Result<Option<Request>, ProtocolError>) -> Result<
    Option<RequestView>,
    ProtocolError,
> {
    match r {
        Ok(Some(request)) => Ok(Some(request@)),
        Ok(None) => Ok(None),
        Err(e) => Err(e),
    }
}

/// Whether the token is `CONNECT`, letter for letter.
pub fn is_connect(token: &[u8]) -> (r: bool)
    ensures
        r == (token@ == connect_token()),
{
    let r = token.len() == 7 && token[0] == 67 && token[1] == 79 && token[2] == 78 && token[3]
        == 78 && token[4] == 69 && token[5] == 67 && token[6] == 84;
    proof {
        if r {
            assert(token@ =~= connect_token());
        }
    }
    r
}

/// Judges a complete head that a chunk of `size` bytes completed.
///
/// The head is turned down when it does not end exactly with that chunk, or
/// when its version is neither 1.0 nor 1.1; otherwise the request comes back
/// with the headers as they were scanned.
pub fn build_request(head: RawHead, size: usize) -> (r: Result<Request, ProtocolError>)
    ensures
        match r {
            Ok(request) => request_of(head@, size as nat) == Ok::<RequestView, ProtocolError>(
                request@,
            ),
            Err(e) => request_of(head@, size as nat) == Err::<RequestView, ProtocolError>(e),
        },
{
    if head.consumed != size {
        return Err(ProtocolError::LengthMismatch);
    }
    let version = match head.version {
        Some(0) => Version::Http10,
        Some(1) => Version::Http11,
        Some(_) => {
            return Err(ProtocolError::UnknownHttpVersion);
        },
        None => Version::Http11,
    };
    let method = match &head.method {
        Some(token) => if is_connect(token.as_slice()) {
            Method::Connect
        } else {
            Method::Other
        },
        None => Method::Other,
    };
    Ok(Request { method, version, headers: head.headers, head_len: head.consumed })
}

/// Takes in one more chunk and says whether the buffer now holds a request.
///
/// The chunk is appended to `req_buffer`, and the whole buffer is scanned
/// again from its start. `Ok(None)` asks for another chunk. A complete head
/// is judged as `build_request` does, against the length of this chunk. An
/// empty chunk is a chunk like any other: the end of the stream is not told
/// apart from a read that brought nothing.
pub fn parse(req_buffer: &mut Vec<u8>, chunk: &[u8]) -> (r: Result<Option<Request>, ProtocolError>)
    ensures
        final(req_buffer)@ == old(req_buffer)@ + chunk@,
        outcome_view(r) == parse_outcome(final(req_buffer)@, chunk@.len()),
{
    req_buffer.extend_from_slice(chunk);
    assert(req_buffer@ =~= old(req_buffer)@ + chunk@);
    match scan_head(req_buffer.as_slice(), MAX_HEADERS) {
        Ok(Some(head)) => match build_request(head, chunk.len()) {
            Ok(request) => Ok(Some(request)),
            Err(e) => Err(e),
        },
        Ok(None) => Ok(None),
        Err(_) => Err(ProtocolError::MalformedRequest),
    }
}

/// The value of the first header called `name`, whatever the case of its
/// letters.
pub open spec fn first_value(headers: Seq<(Seq<u8>, Seq<u8>)>, name: Seq<u8>) -> Option<Seq<u8>>
    decreases headers.len(),
{
    if headers.len() == 0 {
        None
    } else if same_ignoring_case(headers[0].0, name) {
        Some(headers[0].1)
    } else {
        first_value(headers.drop_first(), name)
    }
}

/// The `host:port` text that a `Host` value names: the value itself where it
/// holds a colon, and the value with `:80` behind it where it holds none.
pub open spec fn authority(host: Seq<u8>) -> Seq<char> {
    if host.contains(58u8) {
        ascii_chars(host)
    } else {
        ascii_chars(host) + seq![':', '8', '0']
    }
}

/// Where a request with these headers wants to go.
pub open spec fn destination_of(headers: Seq<(Seq<u8>, Seq<u8>)>) -> Result<
    Seq<char>,
    ProtocolError,
> {
    match first_value(headers, host_name()) {
        None => Err(ProtocolError::MissingHost),
        Some(host) => if all_visible(host) {
            Ok(authority(host))
        } else {
            Err(ProtocolError::HostNotText)
        },
    }
}

/// The first header called `name` is the one at the least index whose name
/// matches, and there is none exactly when no name matches.
pub proof fn lemma_first_value(headers: Seq<(Seq<u8>, Seq<u8>)>, name: Seq<u8>)
    ensures
        match first_value(headers, name) {
            Some(value) => exists|i: int|
                0 <= i < headers.len() && same_ignoring_case(headers[i].0, name) && value
                    == headers[i].1 && forall|j: int|
                    0 <= j < i ==> !same_ignoring_case(#[trigger] headers[j].0, name),
            None => forall|j: int|
                0 <= j < headers.len() ==> !same_ignoring_case(#[trigger] headers[j].0, name),
        },
    decreases headers.len(),
{
    if headers.len() == 0 {
    } else if same_ignoring_case(headers[0].0, name) {
        assert(0 <= 0 < headers.len() && same_ignoring_case(headers[0].0, name) && headers[0].1
            == headers[0].1 && forall|j: int|
            0 <= j < 0 ==> !same_ignoring_case(#[trigger] headers[j].0, name));
    } else {
        let rest = headers.drop_first();
        lemma_first_value(rest, name);
        match first_value(rest, name) {
            Some(value) => {
                let i = choose|i: int|
                    0 <= i < rest.len() && same_ignoring_case(rest[i].0, name) && value
                        == rest[i].1 && forall|j: int|
                        0 <= j < i ==> !same_ignoring_case(#[trigger] rest[j].0, name);
                assert forall|j: int| 0 <= j < i + 1 implies !same_ignoring_case(
                    #[trigger] headers[j].0,
                    name,
                ) by {
                    if j > 0 {
                        assert(headers[j] == rest[j - 1]);
                    }
                }
                assert(headers[i + 1] == rest[i]);
                assert(0 <= i + 1 < headers.len() && same_ignoring_case(headers[i + 1].0, name)
                    && value == headers[i + 1].1 && forall|j: int|
                    0 <= j < i + 1 ==> !same_ignoring_case(#[trigger] headers[j].0, name));
            },
            None => {
                assert forall|j: int| 0 <= j < headers.len() implies !same_ignoring_case(
                    #[trigger] headers[j].0,
                    name,
                ) by {
                    if j > 0 {
                        assert(headers[j] == rest[j - 1]);
                    }
                }
            },
        }
    }
}

/// Finds the value of the first header called `name`, whatever the case of
/// its letters.
pub fn header_value<'a>(headers: &'a Vec<(Vec<u8>, Vec<u8>)>, name: &[u8]) -> (r: Option<
    &'a Vec<u8>,
>)
    ensures
        match r {
            Some(value) => first_value(pairs(headers@), name@) == Some(value@),
            None => first_value(pairs(headers@), name@) is None,
        },
{
    let ghost all = pairs(headers@);
    let mut i: usize = 0;
    assert(all.skip(0) =~= all);
    while i < headers.len()
        invariant
            i <= headers@.len(),
            all == pairs(headers@),
            first_value(all, name@) == first_value(all.skip(i as int), name@),
        decreases headers@.len() - i,
    {
        proof {
            assert(all.skip(i as int)[0] == all[i as int]);
            assert(all.skip(i as int).drop_first() =~= all.skip(i + 1));
        }
        if eq_ignore_case(headers[i].0.as_slice(), name) {
            return Some(&headers[i].1);
        }
        i += 1;
    }
    None
}

/// Where the request wants to go: the value of its `Host` header, with `:80`
/// behind it where the value holds no colon.
///
/// A request without a `Host` header is turned down, and so is one whose
/// `Host` value holds a byte that is neither printable ASCII nor a tab.
pub fn destination(request: &Request) -> (r: Result<String, ProtocolError>)
    ensures
        match r {
            Ok(text) => destination_of(request@.headers) == Ok::<Seq<char>, ProtocolError>(text@),
            Err(e) => destination_of(request@.headers) == Err::<Seq<char>, ProtocolError>(e),
        },
{
    let name: [u8; 4] = [104, 111, 115, 116];
    assert(name@ =~= host_name());
    let host = match header_value(&request.headers, name.as_slice()) {
        Some(value) => value,
        None => {
            return Err(ProtocolError::MissingHost);
        },
    };
    if !is_visible_text(host.as_slice()) {
        return Err(ProtocolError::HostNotText);
    }
    let mut text = ascii_string(slice_to_vec(host.as_slice()));
    if !contains_byte(host.as_slice(), 58) {
        proof {
            reveal_strlit(":80");
        }
        text.append(":80");
        assert(text@ =~= ascii_chars(host@) + seq![':', '8', '0']);
    }
    Ok(text)
}

/// The answer to a `CONNECT` whose tunnel is open:
/// `HTTP/1.1 200 Connection established`, an end of line and an empty line.
pub open spec fn connection_established() -> Seq<u8> {
    seq![
        72u8, 84u8, 84u8, 80u8, 47u8, 49u8, 46u8, 49u8, 32u8, 50u8, 48u8, 48u8, 32u8,
        67u8, 111u8, 110u8, 110u8, 101u8, 99u8, 116u8, 105u8, 111u8, 110u8, 32u8,
        101u8, 115u8, 116u8, 97u8, 98u8, 108u8, 105u8, 115u8, 104u8, 101u8, 100u8,
        13u8, 10u8, 13u8, 10u8,
    ]
}

/// The bytes of the answer to a `CONNECT` whose tunnel is open.
pub fn established_reply() -> (r: Vec<u8>)
    ensures
        r@ == connection_established(),
{
    let r = vec![
        72u8, 84u8, 84u8, 80u8, 47u8, 49u8, 46u8, 49u8, 32u8, 50u8, 48u8, 48u8, 32u8,
        67u8, 111u8, 110u8, 110u8, 101u8, 99u8, 116u8, 105u8, 111u8, 110u8, 32u8,
        101u8, 115u8, 116u8, 97u8, 98u8, 108u8, 105u8, 115u8, 104u8, 101u8, 100u8,
        13u8, 10u8, 13u8, 10u8,
    ];
    assert(r@ =~= connection_established());
    r
}

/// How far a proxied HTTP connection has come.
#[derive(Clone, Copy, Debug, PartialEq, Eq, Structural)]
pub enum Phase {
    /// Nothing has happened yet.
    Idle,
    /// The request head is being read.
    Reading,
    /// The outbound connection is being opened.
    Connecting,
    /// The answer to the client, or the request to the destination, is being
    /// written.
    Finishing,
    /// The connection was handed to the relay, or dropped.
    Closed,
}

/// One proxied HTTP connection.
#[derive(Clone, Debug, PartialEq, Eq)]
pub struct HttpConnection {
    pub phase: Phase,
    /// Every byte read from the client so far.
    pub req_buffer: Vec<u8>,
    /// The method of the request, once it is known.
    pub method: Method,
}

/// A proxied HTTP connection as a mathematical value.
pub struct HttpConnectionView {
    pub phase: Phase,
    pub req_buffer: Seq<u8>,
    pub method: Method,
}

impl View for HttpConnection {
    type V = HttpConnectionView;

    open spec fn view(&self) -> HttpConnectionView {
        HttpConnectionView { phase: self.phase, req_buffer: self.req_buffer@, method: self.method }
    }
}

/// The state `s` moved to `phase`.
pub open spec fn moved(s: HttpConnectionView, phase: Phase) -> HttpConnectionView {
    HttpConnectionView { phase, req_buffer: s.req_buffer, method: s.method }
}

/// What follows a reader's answer on the buffer `buf`: another read while
/// the head is incomplete, the outbound connection once it is complete and
/// names its destination, and the end of the connection otherwise.
pub open spec fn after_parse(
    buf: Seq<u8>,
    method: Method,
    outcome: Result<Option<RequestView>, ProtocolError>,
) -> (HttpConnectionView, ActionView) {
    match outcome {
        Ok(None) => (
            HttpConnectionView { phase: Phase::Reading, req_buffer: buf, method },
            ActionView::Read(CHUNK_SIZE),
        ),
        Ok(Some(request)) => match destination_of(request.headers) {
            Ok(text) => (
                HttpConnectionView {
                    phase: Phase::Connecting,
                    req_buffer: buf,
                    method: request.method,
                },
                ActionView::Connect(DestinationView::HostPort(text)),
            ),
            Err(e) => (
                HttpConnectionView { phase: Phase::Closed, req_buffer: buf, method },
                ActionView::Abort(Failure::Protocol(e)),
            ),
        },
        Err(e) => (
            HttpConnectionView { phase: Phase::Closed, req_buffer: buf, method },
            ActionView::Abort(Failure::Protocol(e)),
        ),
    }
}

/// The next state of a proxied HTTP connection and what its caller is to do,
/// for each state and event.
///
/// The head is read chunk by chunk. Once it is complete, the outbound
/// connection is opened. A `CONNECT` is then answered to the client and none
/// of its bytes go to the destination; any other request is sent to the
/// destination as it was read. After that the relay takes over.
pub open spec fn next(s: HttpConnectionView, e: EventView) -> (HttpConnectionView, ActionView) {
    match (s.phase, e) {
        (Phase::Closed, _) => (s, ActionView::Abort(Failure::Misuse)),
        (_, EventView::IoFailed) => (moved(s, Phase::Closed), ActionView::Abort(Failure::Io)),
        (Phase::Idle, EventView::Accepted) => (
            moved(s, Phase::Reading),
            ActionView::Read(CHUNK_SIZE),
        ),
        (Phase::Reading, EventView::Received(chunk)) => after_parse(
            s.req_buffer + chunk,
            s.method,
            parse_outcome(s.req_buffer + chunk, chunk.len()),
        ),
        (Phase::Connecting, EventView::Connected) => (
            moved(s, Phase::Finishing),
            if s.method == Method::Connect {
                ActionView::SendClient(connection_established())
            } else {
                ActionView::SendUpstream(s.req_buffer)
            },
        ),
        (Phase::Connecting, EventView::ConnectFailed) => (
            moved(s, Phase::Closed),
            ActionView::Abort(Failure::Connect),
        ),
        (Phase::Finishing, EventView::Sent) => (moved(s, Phase::Closed), ActionView::Relay),
        _ => (moved(s, Phase::Closed), ActionView::Abort(Failure::Misuse)),
    }
}

impl HttpConnection {
    /// A connection on which nothing has happened yet.
    pub fn new() -> (r: HttpConnection)
        ensures
            r@ == (HttpConnectionView {
                phase: Phase::Idle,
                req_buffer: Seq::<u8>::empty(),
                method: Method::Other,
            }),
    {
        HttpConnection { phase: Phase::Idle, req_buffer: Vec::new(), method: Method::Other }
    }

    /// What follows the reader's answer `outcome` on this connection's
    /// buffer.
    pub fn route(self, outcome: Result<Option<Request>, ProtocolError>) -> (r: (
        HttpConnection,
        Action,
    ))
        ensures
            (r.0@, r.1@) == after_parse(self@.req_buffer, self@.method, outcome_view(outcome)),
    {
        let HttpConnection { phase: _, req_buffer, method } = self;
        match outcome {
            Ok(None) => (
                HttpConnection { phase: Phase::Reading, req_buffer, method },
                Action::Read(CHUNK_SIZE),
            ),
            Ok(Some(request)) => match destination(&request) {
                Ok(text) => (
                    HttpConnection { phase: Phase::Connecting, req_buffer, method: request.method },
                    Action::Connect(Destination::HostPort(text)),
                ),
                Err(e) => (
                    HttpConnection { phase: Phase::Closed, req_buffer, method },
                    Action::Abort(Failure::Protocol(e)),
                ),
            },
            Err(e) => (
                HttpConnection { phase: Phase::Closed, req_buffer, method },
                Action::Abort(Failure::Protocol(e)),
            ),
        }
    }

    /// Takes the connection one step further: from its state and what the
    /// caller reports to its next state and what the caller is to do.
    pub fn handle_connection(self, event: Event) -> (r: (HttpConnection, Action))
        ensures
            (r.0@, r.1@) == next(self@, event@),
    {
        let HttpConnection { phase, mut req_buffer, method } = self;
        match (phase, event) {
            (Phase::Closed, _) => (
                HttpConnection { phase, req_buffer, method },
                Action::Abort(Failure::Misuse),
            ),
            (_, Event::IoFailed) => (
                HttpConnection { phase: Phase::Closed, req_buffer, method },
                Action::Abort(Failure::Io),
            ),
            (Phase::Idle, Event::Accepted) => (
                HttpConnection { phase: Phase::Reading, req_buffer, method },
                Action::Read(CHUNK_SIZE),
            ),
            (Phase::Reading, Event::Received(chunk)) => {
                let outcome = parse(&mut req_buffer, chunk.as_slice());
                (HttpConnection { phase, req_buffer, method }).route(outcome)
            },
            (Phase::Connecting, Event::Connected) => {
                let action = match method {
                    Method::Connect => Action::SendClient(established_reply()),
                    Method::Other => Action::SendUpstream(req_buffer.clone()),
                };
                (HttpConnection { phase: Phase::Finishing, req_buffer, method }, action)
            },
            (Phase::Connecting, Event::ConnectFailed) => (
                HttpConnection { phase: Phase::Closed, req_buffer, method },
                Action::Abort(Failure::Connect),
            ),
            (Phase::Finishing, Event::Sent) => (
                HttpConnection { phase: Phase::Closed, req_buffer, method },
                Action::Relay,
            ),
            _ => (
                HttpConnection { phase: Phase::Closed, req_buffer, method },
                Action::Abort(Failure::Misuse),
            ),
        }
    }
}

/// The chunks one after the other, as one byte string.
pub open spec fn joined(chunks: Seq<Seq<u8>>) -> Seq<u8>
    decreases chunks.len(),
{
    if chunks.len() == 0 {
        Seq::<u8>::empty()
    } else {
        joined(chunks.drop_last()) + chunks.last()
    }
}

/// What a reader that began with an empty buffer has said once these chunks
/// came in, in this order. A reader that has given a request or turned the
/// bytes down takes no further chunk.
pub open spec fn read_outcome(chunks: Seq<Seq<u8>>) -> Result<Option<RequestView>, ProtocolError>
    decreases chunks.len(),
{
    if chunks.len() == 0 {
        Ok(None)
    } else {
        match read_outcome(chunks.drop_last()) {
            Ok(None) => parse_outcome(joined(chunks), chunks.last().len()),
            settled => settled,
        }
    }
}

/// The state of a connection that began to read, after these chunks came in,
/// and what it last asked for.
pub open spec fn fed(chunks: Seq<Seq<u8>>) -> (HttpConnectionView, ActionView)
    decreases chunks.len(),
{
    if chunks.len() == 0 {
        (
            HttpConnectionView {
                phase: Phase::Reading,
                req_buffer: Seq::<u8>::empty(),
                method: Method::Other,
            },
            ActionView::Read(CHUNK_SIZE),
        )
    } else {
        next(fed(chunks.drop_last()).0, EventView::Received(chunks.last()))
    }
}

/// The parsed request does not depend on how the bytes were cut into chunks.
///
/// Take any chunks such that the reader is still waiting when the last one
/// arrives, and compare with the same bytes arriving as a single chunk. Both
/// readers scan the same bytes, so they find the same head: where both give
/// a request, it is the same request; where one gives a request, the other
/// gives it too or turns the bytes down for the length of its last chunk; and
/// they agree on whether more bytes are needed and on whether the bytes are
/// malformed. Where the last chunk is all there is, the two answers are the
/// same.
pub proof fn lemma_chunking_keeps_request(chunks: Seq<Seq<u8>>)
    requires
        chunks.len() > 0,
        read_outcome(chunks.drop_last()) == Ok::<Option<RequestView>, ProtocolError>(None),
    ensures
        ({
            let cut = read_outcome(chunks);
            let whole = read_outcome(seq![joined(chunks)]);
            let mismatch = Err::<Option<RequestView>, ProtocolError>(ProtocolError::LengthMismatch);
            let more = Ok::<Option<RequestView>, ProtocolError>(None);
            let malformed = Err::<Option<RequestView>, ProtocolError>(
                ProtocolError::MalformedRequest,
            );
            &&& cut == verdict(head_scan(joined(chunks), MAX_HEADERS), chunks.last().len())
            &&& whole == verdict(head_scan(joined(chunks), MAX_HEADERS), joined(chunks).len())
            &&& (cut matches Ok(Some(_)) && whole matches Ok(Some(_))) ==> cut == whole
            &&& cut matches Ok(Some(_)) ==> whole == cut || whole == mismatch
            &&& whole matches Ok(Some(_)) ==> cut == whole || cut == mismatch
            &&& cut == more <==> whole == more
            &&& cut == malformed <==> whole == malformed
            &&& chunks.last().len() == joined(chunks).len() ==> cut == whole
        }),
{
    let bytes = joined(chunks);
    let single = seq![bytes];
    assert(single.drop_last() =~= Seq::<Seq<u8>>::empty());
    assert(single.last() == bytes);
    assert(joined(single.drop_last()) =~= Seq::<u8>::empty());
    assert(joined(single) =~= bytes);
    assert(read_outcome(single.drop_last()) == Ok::<Option<RequestView>, ProtocolError>(None));
}

/// A connection that is still reading holds every byte that came in, in
/// order, and has answered the last chunk as the reader does.
pub proof fn lemma_fed_follows_reader(chunks: Seq<Seq<u8>>)
    requires
        chunks.len() > 0,
        read_outcome(chunks.drop_last()) == Ok::<Option<RequestView>, ProtocolError>(None),
    ensures
        fed(chunks) == after_parse(joined(chunks), Method::Other, read_outcome(chunks)),
        fed(chunks).0.req_buffer == joined(chunks),
    decreases chunks.len(),
{
    let before = chunks.drop_last();
    if before.len() == 0 {
        assert(joined(before) =~= Seq::<u8>::empty());
    } else {
        assert(read_outcome(before.drop_last()) == Ok::<Option<RequestView>, ProtocolError>(None));
        lemma_fed_follows_reader(before);
    }
    assert(fed(before).0 == (HttpConnectionView {
        phase: Phase::Reading,
        req_buffer: joined(before),
        method: Method::Other,
    }));
}

/// Once the outbound connection of a `CONNECT` is open, the client gets the
/// fixed answer, and whatever is reported from then on, no byte is ever sent
/// to the destination before the relay takes over.
pub proof fn lemma_connect_forwards_nothing(s: HttpConnectionView, e: EventView)
    requires
        s.method == Method::Connect,
        s.phase == Phase::Connecting || s.phase == Phase::Finishing || s.phase == Phase::Closed,
    ensures
        !(next(s, e).1 is SendUpstream),
        next(s, e).0.method == Method::Connect,
        next(s, e).0.phase == Phase::Finishing || next(s, e).0.phase == Phase::Closed,
        s.phase == Phase::Connecting && e == EventView::Connected ==> next(s, e).1
            == ActionView::SendClient(connection_established()),
{
}

/// Once the outbound connection of any other request is open, the
/// destination gets every byte that was read from the client, as it was
/// read, and the client gets nothing before the relay takes over.
pub proof fn lemma_request_forwarded_verbatim(s: HttpConnectionView, e: EventView)
    requires
        s.method == Method::Other,
        s.phase == Phase::Connecting || s.phase == Phase::Finishing || s.phase == Phase::Closed,
    ensures
        !(next(s, e).1 is SendClient),
        next(s, e).1 is SendUpstream ==> s.phase == Phase::Connecting && next(s, e).1
            == ActionView::SendUpstream(s.req_buffer),
        s.phase == Phase::Connecting && e == EventView::Connected ==> next(s, e).1
            == ActionView::SendUpstream(s.req_buffer),
{
}

} // verus!
