use rux_http::adapter::{EventAdapter, Reaction};
use rux_http::engine::{SendOutcome, CANONICAL_500};
use rux_http::epoll::{
    EpollEventKind, EpollFd, MuxCmd, EPOLLET, EPOLLHUP, EPOLLIN, EPOLLOUT,
};
use rux_http::handler::{HttpHandler, RecvOutcome};
use rux_http::request::Request;
use rux_http::resource::{Resource, DEFAULT_BUFFER_CAPACITY};

const OK: &[u8] = b"HTTP/1.1 200 OK\r\nAccess-Control-Allow-Headers: origin, content-type, accept\r\nAccess-Control-Allow-Origin: *\r\nAccess-Control-Max-Age: 1728000\r\nAllow-Control-Allow-Methods: GET,POST,OPTIONS\r\nContent-Type: text/plain\r\nServer: Rux-Http/0.1\r\nContent-Length: 0\r\n\r\n";

struct Wire {
    inbound: Vec<u8>,
    window: usize,
    taken: Vec<u8>,
}

fn wire(bytes: &[u8]) -> Wire {
    Wire { inbound: bytes.to_vec(), window: usize::MAX, taken: Vec::new() }
}

/// Makes the calls that the adapter asks of the driver.
fn drive(
    adapter: &mut EventAdapter,
    resource: &mut Resource,
    wire: &mut Wire,
    mut reaction: Reaction,
) -> Reaction {
    loop {
        reaction = match reaction {
            Reaction::Recv => {
                let room = resource.input_buffer.writable();
                assert!(room > 0);
                let outcome = if wire.inbound.is_empty() {
                    RecvOutcome::WouldBlock
                } else {
                    let n = room.min(wire.inbound.len());
                    RecvOutcome::Data(wire.inbound.drain(..n).collect())
                };
                adapter.on_recv(outcome, resource)
            }
            Reaction::Send => {
                let bytes = resource.output_buffer.slice(0);
                let outcome = if wire.window == 0 {
                    SendOutcome::WouldBlock
                } else {
                    let n = wire.window.min(bytes.len());
                    wire.taken.extend_from_slice(&bytes[..n]);
                    if wire.window != usize::MAX {
                        wire.window -= n;
                    }
                    SendOutcome::Sent(n)
                };
                adapter.on_send(outcome, resource)
            }
            other => return other,
        };
    }
}

fn event(
    adapter: &mut EventAdapter,
    resource: &mut Resource,
    wire: &mut Wire,
    bits: u32,
) -> Reaction {
    let reaction = adapter.on_event(EpollEventKind::from_bits(bits), resource);
    drive(adapter, resource, wire, reaction)
}

fn respond(
    adapter: &mut EventAdapter,
    resource: &mut Resource,
    wire: &mut Wire,
    response: &[u8],
) -> Reaction {
    let reaction = adapter.on_response(response, resource);
    drive(adapter, resource, wire, reaction)
}

fn adapter(keep_alive: bool) -> EventAdapter {
    EventAdapter::new(HttpHandler::new(EpollFd { fd: 3 }, 7), keep_alive)
}

fn request_of(reaction: Reaction) -> (Request, Vec<u8>) {
    match reaction {
        Reaction::Respond { request, payload } => (request, payload),
        other => panic!("expected a request to answer, got {:?}", other),
    }
}

#[test]
fn a_new_resource_has_two_empty_buffers_and_empty_slots() {
    let resource = Resource::new(DEFAULT_BUFFER_CAPACITY);
    assert_eq!(DEFAULT_BUFFER_CAPACITY, 2048);
    assert!(CANONICAL_500.len() <= DEFAULT_BUFFER_CAPACITY);
    assert_eq!(resource.input_buffer.capacity(), 2048);
    assert_eq!(resource.output_buffer.capacity(), 2048);
    assert_eq!(resource.input_buffer.readable(), 0);
    assert_eq!(resource.output_buffer.readable(), 0);
    assert_eq!(resource.headers.len(), 0);
}

#[test]
fn a_resource_must_hold_the_error_response() {
    assert!(Resource::try_new(0).is_none());
    assert!(Resource::try_new(CANONICAL_500.len() - 1).is_none());
    let smallest = Resource::try_new(CANONICAL_500.len()).unwrap();
    assert!(smallest.is_fit());
    assert_eq!(smallest.output_buffer.capacity(), CANONICAL_500.len());
    let mut small = Resource::new(2048);
    assert!(small.is_fit());
    small.output_buffer = rux_http::buf::ByteBuffer::with_capacity(16);
    assert!(!small.is_fit());
}

#[test]
fn resource_reset_clears_and_keeps_capacities() {
    let mut resource = Resource::new(512);
    resource.input_buffer.write(b"in").unwrap();
    resource.output_buffer.write(b"out").unwrap();
    resource.input_buffer.reserve(512);
    resource.headers.fill(vec![rux_http::request::Header {
        name: b"Host".to_vec(),
        value: b"x".to_vec(),
    }]);
    resource.reset();
    assert_eq!(resource.input_buffer.readable(), 0);
    assert_eq!(resource.output_buffer.readable(), 0);
    assert_eq!(resource.input_buffer.capacity(), 1024);
    assert_eq!(resource.output_buffer.capacity(), 512);
    assert_eq!(resource.headers.len(), 0);
    resource.reset();
    assert_eq!(resource.input_buffer.writable(), 1024);
}

#[test]
fn engine_reset_and_resource_reset_commute() {
    let build = || {
        let mut adapter = adapter(true);
        let mut resource = Resource::new(2048);
        let mut wire = wire(b"POST / HTTP/1.1\r\nContent-Length: abc\r\n\r\n");
        let reaction = event(&mut adapter, &mut resource, &mut wire, EPOLLIN);
        assert_eq!(reaction, Reaction::Command(MuxCmd::Keep));
        (adapter, resource)
    };
    let (mut a, mut ra) = build();
    a.reset();
    ra.reset();
    let (mut b, mut rb) = build();
    rb.reset();
    b.reset();
    assert_eq!(format!("{:?}", a), format!("{:?}", b));
    assert_eq!(ra.input_buffer.readable(), rb.input_buffer.readable());
    assert_eq!(ra.output_buffer.readable(), rb.output_buffer.readable());
    assert_eq!(ra.headers.len(), rb.headers.len());
    assert!(a.handler().is_parsing());
}

#[test]
fn adapter_interests_are_those_of_the_engine() {
    assert_eq!(EventAdapter::interests().bits(), EPOLLIN | EPOLLOUT | EPOLLET);
    let mut adapter = adapter(false);
    assert!(!adapter.keeps_alive());
    adapter.with_epfd(EpollFd { fd: 9 });
    assert_eq!(adapter.handler().epfd(), EpollFd { fd: 9 });
}

#[test]
fn minimal_get_on_http_1_1_is_answered_and_the_connection_kept() {
    let mut adapter = adapter(true);
    let mut resource = Resource::new(2048);
    let mut wire = wire(b"GET / HTTP/1.1\r\nHost: x\r\n\r\n");
    let (request, payload) =
        request_of(event(&mut adapter, &mut resource, &mut wire, EPOLLIN | EPOLLOUT));
    assert_eq!(request.method, Some(b"GET".to_vec()));
    assert_eq!(request.path, Some(b"/".to_vec()));
    assert_eq!(request.version, Some(1));
    assert_eq!(payload, b"");
    let reaction = respond(&mut adapter, &mut resource, &mut wire, OK);
    assert_eq!(reaction, Reaction::Command(MuxCmd::Keep));
    assert_eq!(wire.taken, OK);
    // State reset.
    assert!(adapter.handler().is_parsing());
    assert!(!adapter.handler().has_request());
    assert!(!adapter.handler().persist_connection());
    assert!(!adapter.handler().is_completing());
    assert_eq!(resource.input_buffer.readable(), 0);
    assert_eq!(resource.output_buffer.readable(), 0);
    assert_eq!(resource.headers.len(), 0);
}

#[test]
fn minimal_get_without_keep_alive_closes_after_the_response() {
    let mut adapter = adapter(false);
    let mut resource = Resource::new(2048);
    let mut wire = wire(b"GET / HTTP/1.1\r\nHost: x\r\n\r\n");
    let _ = request_of(event(&mut adapter, &mut resource, &mut wire, EPOLLIN | EPOLLOUT));
    let reaction = respond(&mut adapter, &mut resource, &mut wire, OK);
    assert_eq!(reaction, Reaction::Command(MuxCmd::Close));
    assert_eq!(wire.taken, OK);
}

#[test]
fn post_with_content_length_is_answered() {
    let mut adapter = adapter(true);
    let mut resource = Resource::new(2048);
    let mut wire = wire(b"POST /a HTTP/1.1\r\nHost: x\r\nContent-Length: 5\r\n\r\nhello");
    let (request, payload) =
        request_of(event(&mut adapter, &mut resource, &mut wire, EPOLLIN | EPOLLOUT));
    assert_eq!(request.method, Some(b"POST".to_vec()));
    assert_eq!(request.path, Some(b"/a".to_vec()));
    assert_eq!(payload, b"hello");
    let reaction = respond(&mut adapter, &mut resource, &mut wire, OK);
    assert_eq!(reaction, Reaction::Command(MuxCmd::Keep));
    assert_eq!(wire.taken, OK);
}

#[test]
fn request_split_across_two_reads_is_kept_then_framed() {
    let whole: &[u8] = b"POST /a HTTP/1.1\r\nHost: x\r\nContent-Length: 5\r\n\r\nhello";
    let mut adapter = adapter(true);
    let mut resource = Resource::new(2048);
    let mut wire = wire(&whole[..34]);
    let first = event(&mut adapter, &mut resource, &mut wire, EPOLLIN | EPOLLOUT);
    assert_eq!(first, Reaction::Command(MuxCmd::Keep));
    wire.inbound.extend_from_slice(&whole[34..]);
    let (request, payload) = request_of(event(&mut adapter, &mut resource, &mut wire, EPOLLIN));
    assert_eq!(request.path, Some(b"/a".to_vec()));
    assert_eq!(payload, b"hello");
}

#[test]
fn oversized_body_gets_the_500_and_close() {
    let mut adapter = adapter(true);
    let mut resource = Resource::new(2048);
    let mut bytes = b"POST / HTTP/1.1\r\nContent-Length: 10485760\r\n\r\n".to_vec();
    bytes.resize(2 * 1024 * 1024, b'a');
    let mut wire = wire(&bytes);
    let reaction = event(&mut adapter, &mut resource, &mut wire, EPOLLIN | EPOLLOUT);
    assert_eq!(reaction, Reaction::Command(MuxCmd::Close));
    assert_eq!(wire.taken, CANONICAL_500.as_bytes());
    assert!(resource.input_buffer.capacity() <= 1024 * 1024);
}

#[test]
fn malformed_content_length_gets_the_500_and_close() {
    let mut adapter = adapter(true);
    let mut resource = Resource::new(2048);
    let mut wire = wire(b"POST / HTTP/1.1\r\nContent-Length: abc\r\n\r\n");
    let reaction = event(&mut adapter, &mut resource, &mut wire, EPOLLIN | EPOLLOUT);
    assert_eq!(reaction, Reaction::Command(MuxCmd::Close));
    assert_eq!(wire.taken, CANONICAL_500.as_bytes());
}

#[test]
fn http_1_0_without_keep_alive_closes_after_the_response() {
    let mut adapter = adapter(true);
    let mut resource = Resource::new(2048);
    let mut wire = wire(b"GET / HTTP/1.0\r\n\r\n");
    let (request, _) =
        request_of(event(&mut adapter, &mut resource, &mut wire, EPOLLIN | EPOLLOUT));
    assert_eq!(request.version, Some(0));
    let reaction = respond(&mut adapter, &mut resource, &mut wire, OK);
    assert_eq!(reaction, Reaction::Command(MuxCmd::Close));
    assert_eq!(wire.taken, OK);
}

#[test]
fn peer_hangup_mid_response_closes() {
    let mut adapter = adapter(true);
    let mut resource = Resource::new(2048);
    let mut wire = wire(b"GET / HTTP/1.1\r\nHost: x\r\n\r\n");
    let _ = request_of(event(&mut adapter, &mut resource, &mut wire, EPOLLIN));
    // The socket is not known to be writable: the response stays buffered.
    let reaction = respond(&mut adapter, &mut resource, &mut wire, OK);
    assert_eq!(reaction, Reaction::Command(MuxCmd::Keep));
    assert_eq!(resource.output_buffer.readable(), OK.len());
    let reaction = event(&mut adapter, &mut resource, &mut wire, EPOLLHUP | EPOLLOUT);
    assert_eq!(reaction, Reaction::Command(MuxCmd::Close));
    assert_eq!(resource.output_buffer.readable(), OK.len());
    assert!(wire.taken.is_empty());
}

#[test]
fn incomplete_keeps_the_connection() {
    let mut adapter = adapter(false);
    let mut resource = Resource::new(2048);
    let mut wire = wire(b"GET / HTT");
    let reaction = event(&mut adapter, &mut resource, &mut wire, EPOLLIN | EPOLLOUT);
    assert_eq!(reaction, Reaction::Command(MuxCmd::Keep));
    let reaction = event(&mut adapter, &mut resource, &mut wire, EPOLLOUT);
    assert_eq!(reaction, Reaction::Command(MuxCmd::Keep));
}

#[test]
fn two_requests_on_a_kept_connection() {
    let mut adapter = adapter(true);
    let mut resource = Resource::new(2048);
    let mut wire = wire(b"GET /one HTTP/1.1\r\nHost: x\r\n\r\n");
    let (one, _) = request_of(event(&mut adapter, &mut resource, &mut wire, EPOLLIN | EPOLLOUT));
    assert_eq!(one.path, Some(b"/one".to_vec()));
    assert_eq!(
        respond(&mut adapter, &mut resource, &mut wire, OK),
        Reaction::Command(MuxCmd::Keep)
    );
    wire.inbound.extend_from_slice(b"GET /two HTTP/1.0\r\n\r\n");
    let (two, _) = request_of(event(&mut adapter, &mut resource, &mut wire, EPOLLIN));
    assert_eq!(two.path, Some(b"/two".to_vec()));
    assert_eq!(
        respond(&mut adapter, &mut resource, &mut wire, OK),
        Reaction::Command(MuxCmd::Close)
    );
    assert_eq!(wire.taken.len(), 2 * OK.len());
}
