//! The server and its sessions, against upstreams in memory and a clock of the test's own.

use std::cell::{Cell, RefCell};
use std::rc::{Rc, Weak};

use domain_fronting::message::{Method, RequestHead, Response};
use domain_fronting::net::SocketAddr;
use domain_fronting::server::{
    answer, bad_request, handle_read_request, let_in, Admitted, AtomicStats, Config, Refusal,
    RequestError, Server, SessionArgs, Stats, TcpConnector, WriteRequest,
};
use domain_fronting::session::{connect_deadline, ReadOutcome, Session, StreamState};
use domain_fronting::session_id::Uuid;
use domain_fronting::time::{Duration, Instant};

/// What stands in for upstream.
#[derive(Clone, Copy, PartialEq)]
enum Kind {
    /// Echoes the first chunk behind a greeting, and closes.
    Echo,
    /// Drops what is written, and never has anything to read.
    Null,
    /// Always has something to read.
    Spam,
}

struct Upstream {
    kind: Kind,
    written: Vec<u8>,
    pending: Vec<u8>,
    closed: bool,
}

type Half = Rc<RefCell<Upstream>>;
type Live = Rc<RefCell<Session<Half, Half>>>;
type Table = Server<Kind, Weak<RefCell<Session<Half, Half>>>>;

struct World {
    server: Table,
    kind: Kind,
    key: String,
    now: Instant,
    live: Rc<RefCell<Vec<Live>>>,
}

fn dummy_addr() -> SocketAddr {
    SocketAddr::V4 { v4: 0x7f00_0001, port: 1234 }
}

fn fresh_id() -> Uuid {
    Uuid { bits: uuid::Uuid::new_v4().as_u128() }
}

fn text(id: Uuid) -> String {
    uuid::Uuid::from_u128(id.bits).to_string()
}

fn head(method: &str, key: &str, value: &str) -> RequestHead {
    let mut headers = http::HeaderMap::new();
    headers.append(
        http::HeaderName::from_bytes(key.as_bytes()).unwrap(),
        http::HeaderValue::from_str(value).unwrap(),
    );
    RequestHead { method: method.to_owned(), headers }
}

fn connect(kind: Kind) -> (Half, Half) {
    let upstream = Rc::new(RefCell::new(Upstream {
        kind,
        written: Vec::new(),
        pending: Vec::new(),
        closed: false,
    }));
    (upstream.clone(), upstream)
}

impl World {
    fn new(config: Config, kind: Kind) -> World {
        World {
            key: config.session_key.clone(),
            server: Server::with_connector(config, kind),
            kind,
            now: Instant { nanos: 1_000 },
            live: Rc::new(RefCell::new(Vec::new())),
        }
    }

    fn wait(&mut self, secs: u64) {
        self.now = self.now.after(Duration::from_secs(secs)).unwrap();
        let now = self.now;
        let gone: Vec<Live> = {
            let mut live = self.live.borrow_mut();
            let (gone, kept) = live.drain(..).partition(|s| s.borrow().expired(now));
            *live = kept;
            gone
        };
        for session in gone {
            let session = Rc::try_unwrap(session).ok().unwrap().into_inner();
            self.server.remove_session(session.close());
        }
    }

    fn request(&mut self, head: RequestHead) -> Result<Admitted<Live>, Refusal> {
        let (kind, now, live) = (self.kind, self.now, self.live.clone());
        self.server.handle_request(
            head,
            now,
            |session: &Weak<_>| session.upgrade(),
            |args: SessionArgs| {
                let session = Session::on_start(args, Ok(connect(kind)), now).unwrap();
                let session = Rc::new(RefCell::new(session));
                live.borrow_mut().push(session.clone());
                let reference = Rc::downgrade(&session);
                (session, reference)
            },
        )
    }

    fn get(&mut self, id: Uuid) -> Result<(Response, StreamState<Half>), Response> {
        let admitted = self
            .request(head("GET", &self.key.clone(), &text(id)))
            .map_err(|refusal| refusal.response)?;
        assert!(admitted.reads());
        let reply = admitted.session.borrow_mut().handle_read();
        handle_read_request(Ok(reply)).map_err(|e| answer(Err(e)))
    }

    fn write(&mut self, method: &str, id: Uuid, pieces: &[&[u8]]) -> Response {
        let admitted = match self.request(head(method, &self.key.clone(), &text(id))) {
            Ok(admitted) => admitted,
            Err(refusal) => return refusal.response,
        };
        assert!(!admitted.reads());
        let mut write = WriteRequest::start();
        for piece in pieces {
            let (next, data) = write.on_data(Some(Ok(piece.to_vec())));
            let data = data.unwrap().unwrap();
            let mut session = admitted.session.borrow_mut();
            {
                let upstream = session.upstream_write();
                let mut upstream = upstream.borrow_mut();
                upstream.written.extend_from_slice(&data);
                if upstream.kind == Kind::Echo && !upstream.closed {
                    upstream.pending.extend_from_slice(b"general kenobi!");
                    upstream.pending.extend_from_slice(&data);
                    upstream.closed = true;
                }
            }
            assert!(session.handle_write(&data, Ok(()), self.now));
            let (next, replied) = next.on_reply(Ok(()), self.server.stats_mut());
            replied.unwrap();
            write = next;
        }
        let (write, end) = write.on_data(None);
        assert!(end.unwrap().is_none());
        write.finish()
    }

    fn post(&mut self, id: Uuid, bytes: &str) -> Response {
        self.write("POST", id, &[bytes.as_bytes()])
    }

    fn session(&self, id: Uuid) -> Option<Live> {
        let live = self.live.borrow();
        live.iter().find(|s| s.borrow().session_id() == id).cloned()
    }

    /// The next frame: `None` while upstream has nothing yet, `Some(None)` at the end.
    fn frame(&mut self, id: Uuid, stream: &mut StreamState<Half>) -> Option<Option<Vec<u8>>> {
        let Some(session) = self.session(id) else {
            return Some(stream.next(ReadOutcome::Cancelled, self.server.stats_mut()));
        };
        let outcome = {
            let mut upstream = stream.reader().borrow_mut();
            match upstream.kind {
                Kind::Null => return None,
                Kind::Spam => ReadOutcome::Data(b"hello there!".to_vec()),
                Kind::Echo if !upstream.closed => return None,
                Kind::Echo => ReadOutcome::Data(std::mem::take(&mut upstream.pending)),
            }
        };
        let frame = stream.next(outcome, self.server.stats_mut());
        session.borrow_mut().handle_frame(&frame, self.now);
        Some(frame)
    }

    fn collect(&mut self, id: Uuid, mut stream: StreamState<Half>) -> Vec<u8> {
        let mut body = Vec::new();
        while let Some(Some(frame)) = self.frame(id, &mut stream) {
            body.extend_from_slice(&frame);
        }
        body
    }
}

fn assert_bare(response: &Response, status: u16) {
    assert_eq!(response.status, status);
    assert!(response.headers.is_empty());
}

/// Idle sessions end, and writing to a session keeps it alive.
#[test]
fn idle_timeout_write() {
    let config = Config::new(dummy_addr()).with_idle_timeout(Duration::from_secs(3));
    let mut world = World::new(config, Kind::Null);

    for stalls in [0, 1, 2, 99] {
        let session = fresh_id();
        let (_, mut reader) = world.get(session).unwrap();

        assert!(world.frame(session, &mut reader).is_none(), "Stream should still be alive");
        world.wait(2);
        assert!(world.frame(session, &mut reader).is_none(), "Stream should still be alive");

        for _ in 0..stalls {
            world.post(session, "stay alive!");
            world.wait(2);
            assert!(world.frame(session, &mut reader).is_none(), "Stream should still be alive");
        }

        world.wait(4);
        assert_eq!(
            world.frame(session, &mut reader),
            Some(None),
            "Stream must have ended after idle timeout"
        );
    }
}

/// Idle sessions end, and reading from a session keeps it alive.
#[test]
fn idle_timeout_read() {
    let config = Config::new(dummy_addr()).with_idle_timeout(Duration::from_secs(3));
    let mut world = World::new(config, Kind::Spam);

    for stalls in [0, 1, 2, 99] {
        let session = fresh_id();
        let (_, mut reader) = world.get(session).unwrap();
        assert!(
            matches!(world.frame(session, &mut reader), Some(Some(_))),
            "Stream should still be alive"
        );

        for _ in 0..stalls {
            world.wait(2);
            assert!(
                matches!(world.frame(session, &mut reader), Some(Some(_))),
                "Stream should still be alive"
            );
        }

        world.wait(4);
        assert_eq!(
            world.frame(session, &mut reader),
            Some(None),
            "Stream must have ended after idle timeout"
        );
    }
}

/// Data can be sent and received, and `take_stats` returns the counts.
#[test]
fn stats() {
    let config = Config::new(dummy_addr());
    let mut world = World::new(config, Kind::Echo);
    assert_eq!(world.server.take_stats(), Stats::default());

    let session = fresh_id();
    let (response, reader) = world.get(session).unwrap();
    assert_eq!(response.status, 200);
    let write_response = world.post(session, "hello there");
    assert_eq!(write_response.status, 204);
    let body = world.collect(session, reader);
    assert_eq!(body.len(), 26);
    assert_eq!(body, b"general kenobi!hello there");
    let stats = world.server.take_stats();
    assert_eq!(stats.bytes_tx, 11);
    assert_eq!(stats.bytes_rx, 26);

    let stats = world.server.take_stats();
    assert_eq!(stats, Default::default());

    let session = fresh_id();
    let (response, reader) = world.get(session).unwrap();
    assert_eq!(response.status, 200);
    let write_response = world.post(session, "hello again!!!");
    assert_eq!(write_response.status, 204);
    let body = world.collect(session, reader);
    assert_eq!(body.len(), 29);
    let stats = world.server.take_stats();
    assert_eq!(stats.bytes_tx, 14);
    assert_eq!(stats.bytes_rx, 29);
}

#[test]
fn total_timeout_ends_a_busy_session() {
    let config = Config::new(dummy_addr())
        .with_idle_timeout(Duration::from_secs(3))
        .with_total_timeout(Duration::from_secs(5));
    let mut world = World::new(config, Kind::Null);
    let session = fresh_id();
    assert_bare(&world.post(session, "a"), 204);
    world.wait(2);
    assert_bare(&world.write("PATCH", session, &[b"b"]), 204);
    world.wait(2);
    assert_bare(&world.write("PATCH", session, &[b"c"]), 204);
    world.wait(1);
    assert!(world.session(session).is_none());
    assert_bare(&world.write("PATCH", session, &[b"d"]), 400);
}

#[test]
fn without_timeouts_a_session_stays() {
    let config = Config::new(dummy_addr());
    assert!(config.sessions_live_forever());
    let mut world = World::new(config, Kind::Null);
    let session = fresh_id();
    assert_bare(&world.post(session, "a"), 204);
    world.wait(1_000_000_000);
    assert_bare(&world.write("PATCH", session, &[b"b"]), 204);
}

#[test]
fn patch_opens_nothing() {
    let mut world = World::new(Config::new(dummy_addr()), Kind::Null);
    let session = fresh_id();
    assert_bare(&world.write("PATCH", session, &[b"early"]), 400);
    assert!(world.session(session).is_none());
    assert_bare(&world.post(session, "first"), 204);
    assert_bare(&world.write("PATCH", session, &[b" second"]), 204);
    let upstream = world.session(session).unwrap();
    let written = upstream.borrow_mut().upstream_write().borrow().written.clone();
    assert_eq!(written, b"first second");
}

#[test]
fn sessions_are_separate() {
    let mut world = World::new(Config::new(dummy_addr()), Kind::Null);
    let (a, b) = (fresh_id(), fresh_id());
    assert_bare(&world.post(a, "from a"), 204);
    assert_bare(&world.post(b, "from b"), 204);
    for (id, expected) in [(a, b"from a"), (b, b"from b")] {
        let session = world.session(id).unwrap();
        assert_eq!(session.borrow_mut().upstream_write().borrow().written, expected);
    }
    world.server.remove_session(a);
    assert_bare(&world.write("PATCH", a, &[b"x"]), 400);
    assert_bare(&world.write("PATCH", b, &[b"y"]), 204);
}

#[test]
fn only_one_read_request_gets_the_data() {
    let mut world = World::new(Config::new(dummy_addr()), Kind::Null);
    let session = fresh_id();
    let (response, _stream) = world.get(session).unwrap();
    assert_eq!(response.status, 200);
    assert_eq!(response.headers["content-type"], "application/octet-stream");
    assert_eq!(response.headers["cache-control"], "no-cache, no-store, no-transform");
    assert_eq!(response.headers["transfer-encoding"], "chunked");
    assert_eq!(response.headers.len(), 3);
    let refused = world.get(session).err().unwrap();
    assert_bare(&refused, 400);
}

#[test]
fn an_empty_write_is_a_bad_request() {
    let mut world = World::new(Config::new(dummy_addr()), Kind::Null);
    let session = fresh_id();
    assert_bare(&world.write("POST", session, &[]), 400);
    assert_bare(&world.write("POST", session, &[b"", b""]), 400);
    assert_bare(&world.write("POST", session, &[b"", b"x", b""]), 204);
    assert_eq!(world.server.take_stats(), Stats { bytes_tx: 1, bytes_rx: 0 });
}

#[test]
fn unusable_requests_are_refused() {
    let mut server: Server<TcpConnector, u8> = Server::new(Config::new(dummy_addr()));
    let now = Instant { nanos: 0 };
    let id = text(fresh_id());
    let mut handle = |head: RequestHead| {
        server
            .handle_request_inner(head, now, |_: &u8| None::<u8>, |_: SessionArgs| (1u8, 2u8))
            .map(|admitted| admitted.session)
    };

    let error = handle(head("DELETE", "X-Session", &id)).unwrap_err();
    assert!(matches!(&error, RequestError::UnexpectedMethod(method) if method == "DELETE"));
    assert_eq!(error.message(), "Unexpected HTTP method: DELETE");
    assert!(matches!(
        handle(head("get", "X-Session", &id)).unwrap_err(),
        RequestError::UnexpectedMethod(_)
    ));

    for bad in [
        head("GET", "X-Other", &id),
        head("GET", "X-Session", "no uuid"),
        head("GET", "X-Session", ""),
        head("GET", "X-Session", &format!(" {id}")),
        head("GET", "X-Session", &format!("{{{id}")),
    ] {
        let error = handle(bad).unwrap_err();
        assert!(matches!(error, RequestError::InvalidSessionId));
        assert_eq!(error.message(), "Invalid/missing session ID");
    }
    let mut opaque = head("GET", "X-Other", "");
    opaque.headers.insert("x-session", http::HeaderValue::from_bytes(&[0xff; 32]).unwrap());
    assert!(matches!(handle(opaque).unwrap_err(), RequestError::InvalidSessionId));

    let error = handle(head("PATCH", "X-Session", &id)).unwrap_err();
    assert!(matches!(error, RequestError::NoSession));
    assert_eq!(error.message(), "No session");

    assert_eq!(handle(head("POST", "X-Session", &id)).unwrap(), 1);
    let error = handle(head("PATCH", "X-Session", &id)).unwrap_err();
    assert!(matches!(error, RequestError::ExpiredSession));
    assert_eq!(error.message(), "Expired session");
    assert_eq!(handle(head("GET", "X-Session", &id)).unwrap(), 1);
}

#[test]
fn session_identifiers_are_read_in_all_their_forms() {
    let config = Config::new(dummy_addr()).with_session_key("X-Tunnel".to_owned());
    let server: Server<TcpConnector, u8> = Server::new(config);
    let expected = Some(Uuid { bits: 0x67e55044_10b1_426f_9247_bb680e5fe0c8 });
    for value in [
        "67e55044-10b1-426f-9247-bb680e5fe0c8",
        "67E55044-10B1-426F-9247-BB680E5FE0C8",
        "67e5504410b1426f9247bb680e5fe0c8",
        "{67e55044-10b1-426f-9247-bb680e5fe0c8}",
        "urn:uuid:67e55044-10b1-426f-9247-bb680e5fe0c8",
    ] {
        assert_eq!(server.session_id(&head("GET", "x-tunnel", value).headers), expected, "{value}");
        assert_eq!(server.session_id(&head("GET", "X-TUNNEL", value).headers), expected, "{value}");
        assert_eq!(server.session_id(&head("GET", "x-session", value).headers), None);
    }
    // The first of several values counts.
    let mut twice = head("GET", "X-Tunnel", "nothing");
    twice.headers.append("x-tunnel", http::HeaderValue::from_static(
        "67e55044-10b1-426f-9247-bb680e5fe0c8",
    ));
    assert_eq!(server.session_id(&twice.headers), None);
}

#[test]
fn a_session_key_that_is_no_header_name_finds_nothing() {
    let config = Config::new(dummy_addr()).with_session_key("no name".to_owned());
    let server: Server<TcpConnector, u8> = Server::new(config);
    let id = text(fresh_id());
    assert_eq!(server.session_id(&head("GET", "X-Session", &id).headers), None);
}

/// Names of more than 64 bytes are looked up without a look at their characters.
#[test]
fn long_session_keys() {
    let id = fresh_id();
    let server = |key: &str| -> Server<TcpConnector, u8> {
        Server::new(Config::new(dummy_addr()).with_session_key(key.to_owned()))
    };

    let name = "X-Long-".repeat(12);
    assert_eq!(name.len(), 84);
    let headers = head("GET", &name.to_lowercase(), &text(id)).headers;
    assert_eq!(server(&name).session_id(&headers), Some(id));
    assert_eq!(server(&name[..83]).session_id(&headers), None);
    assert_eq!(server(&name.replace("Long", "Lo g")).session_id(&headers), None);

    const SPACED: &str = "x-session x-session x-session x-session x-session x-session x-session";
    assert_eq!(SPACED.len(), 69);
    let mut headers = http::HeaderMap::new();
    headers.insert(SPACED, http::HeaderValue::from_str(&text(id)).unwrap());
    assert_eq!(server(SPACED).session_id(&headers), Some(id));
    assert_eq!(server(&SPACED.to_uppercase()).session_id(&headers), Some(id));
    assert_eq!(server(&SPACED.replace(' ', "\"")).session_id(&headers), Some(id));
    assert_eq!(server(&SPACED.replace(' ', "-")).session_id(&headers), None);
    assert_eq!(server(&"x".repeat(65_536)).session_id(&headers), None);
}

#[test]
fn new_sessions_are_started_with_the_configuration() {
    let config = Config::new(dummy_addr())
        .with_total_timeout(Duration::from_secs(15))
        .with_idle_timeout(Duration::from_secs(5));
    assert!(!config.sessions_live_forever());
    let mut server: Server<TcpConnector, u8> = Server::new(config);
    assert_eq!(*server.connector(), TcpConnector::default());
    assert_eq!(server.config().session_key, "X-Session");
    let id = fresh_id();
    let now = Instant { nanos: 7 };
    let mut seen = None;
    let result = server.handle_request_inner(
        head("POST", "X-Session", &text(id)),
        now,
        |_: &u8| None::<u8>,
        |args: SessionArgs| {
            seen = Some(args);
            (1u8, 2u8)
        },
    );
    let admitted = result.unwrap();
    assert_eq!((admitted.method, admitted.session_id), (Method::Post, id));
    let args = seen.unwrap();
    assert_eq!(args, SessionArgs {
        session_id: id,
        upstream: dummy_addr(),
        idle_timeout: Some(Duration { nanos: 5_000_000_000 }),
        total_deadline: Some(Instant { nanos: 15_000_000_007 }),
    });
    assert_eq!(connect_deadline(&args, now), Some(Instant { nanos: 5_000_000_007 }));
}

#[test]
fn admission_by_method_and_state() {
    for method in [Method::Get, Method::Post] {
        assert_eq!(let_in(method, Some(Some(7))).unwrap(), Some(7));
        assert_eq!(let_in::<u8>(method, Some(None)).unwrap(), None);
        assert_eq!(let_in::<u8>(method, None).unwrap(), None);
    }
    assert_eq!(let_in(Method::Patch, Some(Some(7))).unwrap(), Some(7));
    assert!(matches!(let_in::<u8>(Method::Patch, Some(None)), Err(RequestError::ExpiredSession)));
    assert!(matches!(let_in::<u8>(Method::Patch, None), Err(RequestError::NoSession)));
}

#[test]
fn failures_after_admission_are_bad_requests() {
    let mut stats = AtomicStats::default();
    let (write, data) = WriteRequest::start().on_data(Some(Err("broken pipe".to_owned())));
    let error = data.unwrap_err();
    assert!(matches!(error, RequestError::Body(_)));
    assert_eq!(error.message(), "broken pipe");
    assert_bare(&answer(Err(error)), 400);

    let (write, data) = write.on_data(Some(Ok(vec![1, 2, 3])));
    assert_eq!(data.unwrap().unwrap(), [1, 2, 3]);
    let (_, replied) = write.on_reply(Err("actor stopped".to_owned()), &mut stats);
    let error = replied.unwrap_err();
    assert!(matches!(error, RequestError::NoReply(_)));
    assert_eq!(error.message(), "actor stopped");
    assert_bare(&answer(Err(error)), 400);
    assert_eq!(stats.freeze(), Stats::default());

    let error = handle_read_request::<()>(Err("actor stopped".to_owned())).unwrap_err();
    assert!(matches!(error, RequestError::NoReply(_)));
    assert_eq!(error.message(), "actor stopped");
    let error = handle_read_request::<()>(Ok(None)).unwrap_err();
    assert_eq!(error.message(), "Multiple read requests are not allowed");
    assert_bare(&answer(Ok(bad_request())), 400);
}

#[test]
fn upstream_that_cannot_be_reached_starts_no_session() {
    let args = SessionArgs {
        session_id: fresh_id(),
        upstream: dummy_addr(),
        idle_timeout: None,
        total_deadline: None,
    };
    let refused = std::io::Error::from(std::io::ErrorKind::ConnectionRefused);
    let result: Result<Session<(), ()>, _> =
        Session::on_start(args, Err(refused), Instant { nanos: 0 });
    assert_eq!(result.err().unwrap().kind(), std::io::ErrorKind::ConnectionRefused);
}

#[test]
fn a_failed_write_ends_the_session() {
    let args = SessionArgs {
        session_id: fresh_id(),
        upstream: dummy_addr(),
        idle_timeout: Some(Duration::from_secs(3)),
        total_deadline: None,
    };
    let start = Instant { nanos: 0 };
    let mut session = Session::on_start(args, Ok(((), ())), start).unwrap();
    assert_eq!(session.idle_deadline(), Some(Instant { nanos: 3_000_000_000 }));
    let broken = std::io::Error::from(std::io::ErrorKind::BrokenPipe);
    let later = Instant { nanos: 2_000_000_000 };
    assert!(!session.handle_write(&vec![1], Err(broken), later));
    assert_eq!(session.idle_deadline(), Some(Instant { nanos: 3_000_000_000 }));
    assert!(session.handle_write(&vec![1], Ok(()), later));
    assert_eq!(session.idle_deadline(), Some(Instant { nanos: 5_000_000_000 }));
    assert!(!session.expired(Instant { nanos: 4_999_999_999 }));
    assert!(session.expired(Instant { nanos: 5_000_000_000 }));
    assert_eq!(session.close(), args.session_id);
}

#[test]
fn a_deadline_beyond_the_clock_never_comes() {
    let args = SessionArgs {
        session_id: fresh_id(),
        upstream: dummy_addr(),
        idle_timeout: Some(Duration { nanos: u128::MAX }),
        total_deadline: None,
    };
    let session = Session::on_start(args, Ok(((), ())), Instant { nanos: 1 }).unwrap();
    assert_eq!(session.idle_deadline(), None);
    assert!(!session.expired(Instant { nanos: u128::MAX }));
}

#[test]
fn streams_end_without_data() {
    let args = SessionArgs {
        session_id: fresh_id(),
        upstream: dummy_addr(),
        idle_timeout: None,
        total_deadline: None,
    };
    let mut session = Session::on_start(args, Ok(((), ())), Instant { nanos: 0 }).unwrap();
    let mut stats = AtomicStats::default();
    let mut stream = session.handle_read().unwrap();
    assert!(session.handle_read().is_none());
    assert_eq!(stream.next(ReadOutcome::Data(vec![1]), &mut stats), Some(vec![1]));
    assert_eq!(stream.next(ReadOutcome::Data(vec![]), &mut stats), None);
    assert_eq!(stream.next(ReadOutcome::Failed, &mut stats), None);
    assert_eq!(stream.next(ReadOutcome::Cancelled, &mut stats), None);
    assert_eq!(stats.freeze(), Stats { bytes_tx: 0, bytes_rx: 1 });
    assert_eq!(StreamState::<()>::reserve(1023), 4096);
    assert_eq!(StreamState::<()>::reserve(1024), 0);
}

#[test]
fn counters_are_copied_and_taken() {
    let mut stats = AtomicStats::default();
    stats.add_tx(3);
    stats.add_tx(4);
    stats.add_rx(5);
    assert_eq!(stats.freeze(), Stats { bytes_tx: 7, bytes_rx: 5 });
    assert_eq!(stats.freeze(), Stats { bytes_tx: 7, bytes_rx: 5 });
    assert_eq!(stats.take(), Stats { bytes_tx: 7, bytes_rx: 5 });
    assert_eq!(stats.take(), Stats::default());
    stats.add_rx(usize::MAX);
    stats.add_rx(2);
    let wrapped = (usize::MAX as u64).wrapping_add(2);
    assert_eq!(stats.freeze(), Stats { bytes_tx: 0, bytes_rx: wrapped });
}

#[test]
fn configurations_are_copied() {
    let config = Config::new(dummy_addr()).with_session_key("X-Other".to_owned());
    let copy = config.clone();
    assert_eq!(copy.session_key, "X-Other");
    assert_eq!(copy.upstream, dummy_addr());
    assert_eq!(copy.idle_timeout, None);
    assert_eq!(copy.total_timeout, None);
    assert_eq!(Config::new(dummy_addr()).session_key, "X-Session");
}

/// No connection is opened for a request that is refused, nor for a session that is alive.
#[test]
fn only_a_request_that_opens_a_session_connects() {
    let id = "67e55044-10b1-426f-9247-bb680e5fe0c8";
    let connects = Cell::new(0);
    let alive = Cell::new(true);
    let config = Config::new(dummy_addr());
    let mut server: Server<TcpConnector, u8> = Server::new(config);
    let mut handle = |head: RequestHead| {
        server
            .handle_request(
                head,
                Instant { nanos: 0 },
                |reference: &u8| alive.get().then_some(*reference),
                |args: SessionArgs| {
                    assert_eq!(args.upstream, dummy_addr());
                    connects.set(connects.get() + 1);
                    (connects.get(), connects.get())
                },
            )
            .map(|admitted| admitted.session)
            .map_err(|refusal| {
                assert_bare(&refusal.response, 400);
                refusal.error.message()
            })
    };

    for (method, key, value, message) in [
        ("PATCH", "X-Session", id, "No session"),
        ("PUT", "X-Session", id, "Unexpected HTTP method: PUT"),
        ("GET", "X-Foo", id, "Invalid/missing session ID"),
        ("POST", "X-Session", "none", "Invalid/missing session ID"),
    ] {
        assert_eq!(handle(head(method, key, value)), Err(message.to_owned()));
        assert_eq!(connects.get(), 0);
    }

    assert_eq!(handle(head("GET", "X-Session", id)), Ok(1));
    for method in ["GET", "POST", "PATCH"] {
        assert_eq!(handle(head(method, "X-Session", id)), Ok(1));
        assert_eq!(connects.get(), 1);
    }

    alive.set(false);
    assert_eq!(handle(head("PATCH", "X-Session", id)), Err("Expired session".to_owned()));
    assert_eq!(connects.get(), 1);
    assert_eq!(handle(head("POST", "X-Session", id)), Ok(2));
    assert_eq!(connects.get(), 2);
    alive.set(true);
    assert_eq!(handle(head("PATCH", "X-Session", id)), Ok(2));
    assert_eq!(connects.get(), 2);
    assert_eq!(server.take_stats(), Stats::default());
}

#[test]
fn a_frame_is_a_sign_of_life() {
    let config = Config::new(dummy_addr()).with_idle_timeout(Duration::from_secs(3));
    let mut world = World::new(config, Kind::Spam);
    let session = fresh_id();
    let (_, mut reader) = world.get(session).unwrap();
    for wait in [0, 2, 2] {
        world.wait(wait);
        assert!(matches!(world.frame(session, &mut reader), Some(Some(_))));
    }
    world.wait(4);
    assert_eq!(world.frame(session, &mut reader), Some(None));

    let args = SessionArgs {
        session_id: session,
        upstream: dummy_addr(),
        idle_timeout: Some(Duration::from_secs(3)),
        total_deadline: None,
    };
    let mut session = Session::on_start(args, Ok(((), ())), Instant { nanos: 0 }).unwrap();
    let later = Instant { nanos: 1_000_000_000 };
    session.handle_frame(&None::<Vec<u8>>, later);
    assert_eq!(session.idle_deadline(), Some(Instant { nanos: 3_000_000_000 }));
    session.handle_frame(&Some(vec![1]), later);
    assert_eq!(session.idle_deadline(), Some(Instant { nanos: 4_000_000_000 }));
}

/// Nothing that is counted is lost, and nothing is reported twice.
#[test]
fn counts_are_kept() {
    let mut stats = AtomicStats::default();
    let (mut tx, mut rx) = (0, 0);
    for i in 0..20usize {
        stats.add_tx(i);
        stats.add_rx(2 * i);
        if i % 3 == 0 {
            let taken = stats.take();
            tx += taken.bytes_tx;
            rx += taken.bytes_rx;
        }
    }
    let held = stats.freeze();
    assert_eq!((tx + held.bytes_tx, rx + held.bytes_rx), (190, 380));
}
