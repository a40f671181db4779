use tiny_proxy::http::{
    build_request, destination, established_reply, header_value, is_connect, parse, HttpConnection,
    Method, Phase, RawHead, Request, Version, CHUNK_SIZE, MAX_HEADERS,
};
use tiny_proxy::session::{Action, Destination, Event, Failure, ProtocolError};

const GET: &[u8] = b"GET / HTTP/1.1\r\nHost: example.com\r\n\r\n";
const CONNECT: &[u8] = b"CONNECT example.com:443 HTTP/1.1\r\nHost: example.com:443\r\n\r\n";

fn pair(name: &str, value: &[u8]) -> (Vec<u8>, Vec<u8>) {
    (name.as_bytes().to_vec(), value.to_vec())
}

fn request_with(headers: Vec<(Vec<u8>, Vec<u8>)>) -> Request {
    Request { method: Method::Other, version: Version::Http11, headers, head_len: 0 }
}

#[test]
fn limits_are_as_documented() {
    assert_eq!(MAX_HEADERS, 64);
    assert_eq!(CHUNK_SIZE, 4096);
}

#[test]
fn parse_whole_get_request() {
    let mut buf = Vec::new();
    let request = parse(&mut buf, GET).unwrap().unwrap();
    assert_eq!(GET.len(), 37);
    assert_eq!(buf, GET.to_vec());
    assert_eq!(request.method, Method::Other);
    assert_eq!(request.version, Version::Http11);
    assert_eq!(request.headers, vec![pair("Host", b"example.com")]);
    assert_eq!(request.head_len, 37);
}

#[test]
fn parse_whole_connect_request() {
    let mut buf = Vec::new();
    let request = parse(&mut buf, CONNECT).unwrap().unwrap();
    assert_eq!(request.method, Method::Connect);
    assert_eq!(request.version, Version::Http11);
    assert_eq!(request.headers, vec![pair("Host", b"example.com:443")]);
    assert_eq!(request.head_len, CONNECT.len());
}

#[test]
fn parse_http_10_and_several_headers_in_order() {
    let text = b"POST /x HTTP/1.0\r\nAccept: */*\r\nHost: a.example\r\nX-Two: 2\r\n\r\n";
    let mut buf = Vec::new();
    let request = parse(&mut buf, text).unwrap().unwrap();
    assert_eq!(request.method, Method::Other);
    assert_eq!(request.version, Version::Http10);
    assert_eq!(
        request.headers,
        vec![pair("Accept", b"*/*"), pair("Host", b"a.example"), pair("X-Two", b"2")]
    );
}

#[test]
fn parse_asks_for_more_on_a_partial_head() {
    let mut buf = Vec::new();
    assert_eq!(parse(&mut buf, &GET[..10]), Ok(None));
    assert_eq!(buf, GET[..10].to_vec());
}

#[test]
fn parse_asks_for_more_on_an_empty_chunk() {
    let mut buf = Vec::new();
    assert_eq!(parse(&mut buf, b""), Ok(None));
    assert!(buf.is_empty());
}

#[test]
fn parse_rejects_a_head_completed_by_a_later_chunk() {
    let mut buf = Vec::new();
    assert_eq!(parse(&mut buf, &GET[..16]), Ok(None));
    assert_eq!(parse(&mut buf, &GET[16..]), Err(ProtocolError::LengthMismatch));
    assert_eq!(buf, GET.to_vec());
}

#[test]
fn parse_byte_by_byte_finds_the_same_head_and_rejects_its_length() {
    let mut buf = Vec::new();
    for i in 0..GET.len() - 1 {
        assert_eq!(parse(&mut buf, &GET[i..i + 1]), Ok(None));
    }
    assert_eq!(parse(&mut buf, &GET[36..]), Err(ProtocolError::LengthMismatch));
    assert_eq!(buf, GET.to_vec());
}

#[test]
fn parse_after_empty_chunks_gives_the_request_of_a_single_chunk() {
    let mut whole = Vec::new();
    let at_once = parse(&mut whole, GET);
    let mut cut = Vec::new();
    assert_eq!(parse(&mut cut, b""), Ok(None));
    assert_eq!(parse(&mut cut, b""), Ok(None));
    let in_pieces = parse(&mut cut, GET);
    assert!(matches!(at_once, Ok(Some(_))));
    assert_eq!(in_pieces, at_once);
    assert_eq!(cut, whole);
}

#[test]
fn parse_judges_the_head_against_the_last_chunk_only() {
    let mut buf = Vec::new();
    assert_eq!(parse(&mut buf, &GET[..10]), Ok(None));
    let mut rest = GET[10..].to_vec();
    rest.extend_from_slice(b"0123456789");
    assert_eq!(rest.len(), 37);
    let request = parse(&mut buf, &rest).unwrap().unwrap();
    assert_eq!(request.head_len, 37);
    assert_eq!(buf.len(), 47);
}

#[test]
fn parse_rejects_bytes_after_the_head() {
    let mut text = GET.to_vec();
    text.extend_from_slice(b"body");
    let mut buf = Vec::new();
    assert_eq!(parse(&mut buf, &text), Err(ProtocolError::LengthMismatch));
}

#[test]
fn parse_rejects_malformed_heads() {
    let mut buf = Vec::new();
    assert_eq!(parse(&mut buf, b"GET / HTTP/2.0\r\n\r\n"), Err(ProtocolError::MalformedRequest));
    let mut buf = Vec::new();
    assert_eq!(parse(&mut buf, b"\x01\x02 / HTTP/1.1\r\n\r\n"), Err(ProtocolError::MalformedRequest));
    let mut buf = Vec::new();
    assert_eq!(
        parse(&mut buf, b"GET / HTTP/1.1\r\nBad Name: x\r\n\r\n"),
        Err(ProtocolError::MalformedRequest)
    );
}

#[test]
fn parse_takes_sixty_four_headers_and_no_more() {
    let mut text = b"GET / HTTP/1.1\r\n".to_vec();
    for i in 0..64 {
        text.extend_from_slice(format!("H{}: v\r\n", i).as_bytes());
    }
    let mut full = text.clone();
    full.extend_from_slice(b"\r\n");
    let mut buf = Vec::new();
    let request = parse(&mut buf, &full).unwrap().unwrap();
    assert_eq!(request.headers.len(), 64);
    assert_eq!(request.headers[63], pair("H63", b"v"));

    let mut over = text;
    over.extend_from_slice(b"H64: v\r\n\r\n");
    let mut buf = Vec::new();
    assert_eq!(parse(&mut buf, &over), Err(ProtocolError::MalformedRequest));
}

#[test]
fn build_request_checks_length_then_version() {
    let head = |consumed: usize, version: Option<u8>| RawHead {
        consumed,
        method: Some(b"GET".to_vec()),
        version,
        headers: vec![pair("Host", b"h")],
    };
    assert_eq!(build_request(head(10, Some(1)), 9), Err(ProtocolError::LengthMismatch));
    assert_eq!(build_request(head(10, Some(7)), 9), Err(ProtocolError::LengthMismatch));
    assert_eq!(build_request(head(10, Some(2)), 10), Err(ProtocolError::UnknownHttpVersion));
    assert_eq!(build_request(head(10, Some(255)), 10), Err(ProtocolError::UnknownHttpVersion));
    assert_eq!(
        build_request(head(10, Some(0)), 10),
        Ok(Request {
            method: Method::Other,
            version: Version::Http10,
            headers: vec![pair("Host", b"h")],
            head_len: 10,
        })
    );
    assert_eq!(build_request(head(10, Some(1)), 10).unwrap().version, Version::Http11);
    assert_eq!(build_request(head(10, None), 10).unwrap().version, Version::Http11);
}

#[test]
fn build_request_tells_connect_from_other_methods() {
    let head = |method: Option<Vec<u8>>| RawHead {
        consumed: 0,
        method,
        version: Some(1),
        headers: Vec::new(),
    };
    assert_eq!(build_request(head(Some(b"CONNECT".to_vec())), 0).unwrap().method, Method::Connect);
    assert_eq!(build_request(head(Some(b"connect".to_vec())), 0).unwrap().method, Method::Other);
    assert_eq!(build_request(head(Some(b"CONNECTS".to_vec())), 0).unwrap().method, Method::Other);
    assert_eq!(build_request(head(Some(b"GET".to_vec())), 0).unwrap().method, Method::Other);
    assert_eq!(build_request(head(None), 0).unwrap().method, Method::Other);
}

#[test]
fn is_connect_is_exact() {
    assert!(is_connect(b"CONNECT"));
    assert!(!is_connect(b"CONNECX"));
    assert!(!is_connect(b"CONNEC"));
    assert!(!is_connect(b""));
}

#[test]
fn header_value_finds_the_first_match_in_any_case() {
    let headers = vec![pair("Accept", b"a"), pair("hOsT", b"first"), pair("Host", b"second")];
    assert_eq!(header_value(&headers, b"host"), Some(&b"first".to_vec()));
    assert_eq!(header_value(&headers, b"HOST"), Some(&b"first".to_vec()));
    assert_eq!(header_value(&headers, b"accept"), Some(&b"a".to_vec()));
    assert_eq!(header_value(&headers, b"hos"), None);
    assert_eq!(header_value(&Vec::new(), b"host"), None);
}

#[test]
fn destination_appends_port_80_where_there_is_no_colon() {
    let request = request_with(vec![pair("Host", b"example.com")]);
    assert_eq!(destination(&request), Ok("example.com:80".to_string()));
}

#[test]
fn destination_keeps_a_host_that_has_a_colon() {
    let request = request_with(vec![pair("Host", b"example.com:443")]);
    assert_eq!(destination(&request), Ok("example.com:443".to_string()));
    let request = request_with(vec![pair("host", b"[::1]")]);
    assert_eq!(destination(&request), Ok("[::1]".to_string()));
}

#[test]
fn destination_of_an_empty_host_is_the_port_alone() {
    let request = request_with(vec![pair("Host", b"")]);
    assert_eq!(destination(&request), Ok(":80".to_string()));
}

#[test]
fn destination_needs_a_host_header() {
    let request = request_with(vec![pair("Accept", b"*/*"), pair("Hostname", b"x")]);
    assert_eq!(destination(&request), Err(ProtocolError::MissingHost));
    assert_eq!(destination(&request_with(Vec::new())), Err(ProtocolError::MissingHost));
}

#[test]
fn destination_rejects_a_host_that_is_not_printable() {
    let request = request_with(vec![pair("Host", b"ex\xc3\xa4mple.com")]);
    assert_eq!(destination(&request), Err(ProtocolError::HostNotText));
    let request = request_with(vec![pair("Host", b"a\x7fb")]);
    assert_eq!(destination(&request), Err(ProtocolError::HostNotText));
    let request = request_with(vec![pair("Host", b"a\tb")]);
    assert_eq!(destination(&request), Ok("a\tb:80".to_string()));
}

#[test]
fn established_reply_is_the_status_line_and_an_empty_line() {
    assert_eq!(established_reply(), b"HTTP/1.1 200 Connection established\r\n\r\n".to_vec());
    assert_eq!(established_reply().len(), 39);
}

#[test]
fn http_get_is_forwarded_verbatim() {
    let conn = HttpConnection::new();
    assert_eq!(conn.phase, Phase::Idle);
    let (conn, action) = conn.handle_connection(Event::Accepted);
    assert_eq!(action, Action::Read(4096));
    let (conn, action) = conn.handle_connection(Event::Received(GET.to_vec()));
    assert_eq!(action, Action::Connect(Destination::HostPort("example.com:80".to_string())));
    assert_eq!(conn.phase, Phase::Connecting);
    let (conn, action) = conn.handle_connection(Event::Connected);
    assert_eq!(action, Action::SendUpstream(GET.to_vec()));
    let (conn, action) = conn.handle_connection(Event::Sent);
    assert_eq!(action, Action::Relay);
    assert_eq!(conn.phase, Phase::Closed);
}

#[test]
fn http_connect_is_answered_and_not_forwarded() {
    let (conn, _) = HttpConnection::new().handle_connection(Event::Accepted);
    let (conn, action) = conn.handle_connection(Event::Received(CONNECT.to_vec()));
    assert_eq!(action, Action::Connect(Destination::HostPort("example.com:443".to_string())));
    let (conn, action) = conn.handle_connection(Event::Connected);
    assert_eq!(
        action,
        Action::SendClient(b"HTTP/1.1 200 Connection established\r\n\r\n".to_vec())
    );
    let (conn, action) = conn.handle_connection(Event::Sent);
    assert_eq!(action, Action::Relay);
    assert_eq!(conn.phase, Phase::Closed);
}

#[test]
fn http_connection_reads_on_while_the_head_is_partial() {
    let (conn, _) = HttpConnection::new().handle_connection(Event::Accepted);
    let (conn, action) = conn.handle_connection(Event::Received(GET[..5].to_vec()));
    assert_eq!(action, Action::Read(4096));
    assert_eq!(conn.phase, Phase::Reading);
    assert_eq!(conn.req_buffer, GET[..5].to_vec());
    let (conn, action) = conn.handle_connection(Event::Received(GET[5..].to_vec()));
    assert_eq!(action, Action::Abort(Failure::Protocol(ProtocolError::LengthMismatch)));
    assert_eq!(conn.phase, Phase::Closed);
}

#[test]
fn http_connection_aborts_on_each_failure() {
    let reading = || HttpConnection::new().handle_connection(Event::Accepted).0;
    let (_, action) = reading().handle_connection(Event::Received(b"\x00".to_vec()));
    assert_eq!(action, Action::Abort(Failure::Protocol(ProtocolError::MalformedRequest)));
    let (_, action) =
        reading().handle_connection(Event::Received(b"GET / HTTP/1.1\r\nA: b\r\n\r\n".to_vec()));
    assert_eq!(action, Action::Abort(Failure::Protocol(ProtocolError::MissingHost)));
    let (_, action) = reading()
        .handle_connection(Event::Received(b"GET / HTTP/1.1\r\nHost: \xff\r\n\r\n".to_vec()));
    assert_eq!(action, Action::Abort(Failure::Protocol(ProtocolError::HostNotText)));
    let (_, action) = reading().handle_connection(Event::IoFailed);
    assert_eq!(action, Action::Abort(Failure::Io));
    let (conn, _) = reading().handle_connection(Event::Received(GET.to_vec()));
    let (conn, action) = conn.handle_connection(Event::ConnectFailed);
    assert_eq!(action, Action::Abort(Failure::Connect));
    let (_, action) = conn.handle_connection(Event::Accepted);
    assert_eq!(action, Action::Abort(Failure::Misuse));
}

#[test]
fn http_connection_rejects_events_out_of_turn() {
    let (conn, action) = HttpConnection::new().handle_connection(Event::Sent);
    assert_eq!(action, Action::Abort(Failure::Misuse));
    assert_eq!(conn.phase, Phase::Closed);
    let (conn, _) = HttpConnection::new().handle_connection(Event::Accepted);
    let (_, action) = conn.handle_connection(Event::Connected);
    assert_eq!(action, Action::Abort(Failure::Misuse));
}
