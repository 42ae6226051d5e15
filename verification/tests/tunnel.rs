//! The client and the server together, over an echo server in memory.

use std::cell::RefCell;
use std::collections::VecDeque;
use std::rc::{Rc, Weak};

use domain_fronting::client::{Forward, Frame, ProxyConfig, ProxyConnection};
use domain_fronting::message::{Method, Request, RequestHead};
use domain_fronting::net::SocketAddr;
use domain_fronting::server::{
    answer, handle_read_request, Admitted, Config, Server, SessionArgs, Stats, WriteRequest,
};
use domain_fronting::session::{ReadOutcome, Session, StreamState};
use domain_fronting::time::Instant;
use domain_fronting::uri::Uri;
use domain_fronting::DomainFronting;

type Failure = &'static str;
type Half = Rc<RefCell<VecDeque<u8>>>;
type Live = Rc<RefCell<Session<Half, Half>>>;

const ECHO_ADDR: SocketAddr = SocketAddr::V4 { v4: 0x7f00_0001, port: 7 };
const NOW: Instant = Instant { nanos: 0 };

struct Proxy {
    server: Server<(), Weak<RefCell<Session<Half, Half>>>>,
    live: Rc<RefCell<Vec<Live>>>,
}

impl Proxy {
    fn new(config: Config) -> Proxy {
        Proxy {
            server: Server::with_connector(config, ()),
            live: Rc::new(RefCell::new(Vec::new())),
        }
    }

    fn handle(&mut self, request: &Request) -> Result<Admitted<Live>, u16> {
        let head = RequestHead {
            method: request.method.as_str().to_owned(),
            headers: request.headers.clone(),
        };
        let live = self.live.clone();
        let admitted = self.server.handle_request(
            head,
            NOW,
            |session: &Weak<_>| session.upgrade(),
            |args: SessionArgs| {
                let echo: Half = Rc::new(RefCell::new(VecDeque::new()));
                let session = Session::on_start(args, Ok((echo.clone(), echo)), NOW).unwrap();
                let session = Rc::new(RefCell::new(session));
                live.borrow_mut().push(session.clone());
                let reference = Rc::downgrade(&session);
                (session, reference)
            },
        );
        admitted.map_err(|refusal| refusal.response.status)
    }

    /// Takes a write request, whose body arrives in pieces of at most `piece` bytes.
    fn write(&mut self, request: &Request, piece: usize) -> u16 {
        let session = match self.handle(request) {
            Ok(admitted) => admitted.session,
            Err(status) => return status,
        };
        let mut write = WriteRequest::start();
        for data in request.body.chunks(piece) {
            let (next, data) = write.on_data(Some(Ok(data.to_vec())));
            let data = data.unwrap().unwrap();
            let mut session = session.borrow_mut();
            session.upstream_write().borrow_mut().extend(data.iter());
            assert!(session.handle_write(&data, Ok(()), NOW));
            let (next, reply) = next.on_reply(Ok(()), self.server.stats_mut());
            reply.unwrap();
            write = next;
        }
        let (write, end) = write.on_data(None);
        assert!(end.unwrap().is_none());
        write.finish().status
    }

    fn read(&mut self, request: &Request) -> Result<StreamState<Half>, u16> {
        let session = self.handle(request)?.session;
        let reply = session.borrow_mut().handle_read();
        match handle_read_request(Ok(reply)) {
            Ok((response, stream)) => {
                assert_eq!(response.status, 200);
                Ok(stream)
            }
            Err(error) => Err(answer(Err(error)).status),
        }
    }
}

struct Client {
    connection: ProxyConnection,
    stream: StreamState<Half>,
}

impl Client {
    fn new(proxy: &mut Proxy, fronting: DomainFronting) -> Client {
        let connecting = ProxyConfig::new(ECHO_ADDR, fronting).connect_http2_over_stream();
        let mut connection = connecting.handshaken::<Failure>(Ok(())).unwrap();
        let request = connection.incoming.request::<Failure>().unwrap();
        let stream = proxy.read(&request).unwrap();
        connection.incoming.on_response::<Failure>(Ok(200)).unwrap();
        Client { connection, stream }
    }

    fn write_all(&mut self, proxy: &mut Proxy, data: &[u8], piece: usize) {
        let chunk = Some(data.to_vec());
        let request = self.connection.outgoing.next_request::<Failure>(chunk).unwrap().unwrap();
        let status = proxy.write(&request, piece);
        self.connection.outgoing.acknowledge::<Failure>(Ok(status)).unwrap();
    }

    /// Reads what upstream has, at most `limit` bytes at once.
    fn read(&mut self, proxy: &mut Proxy, limit: usize) -> Vec<u8> {
        let data: Vec<u8> = {
            let mut echo = self.stream.reader().borrow_mut();
            let n = echo.len().min(limit);
            echo.drain(..n).collect()
        };
        let Some(frame) = self.stream.next(ReadOutcome::Data(data), proxy.server.stats_mut())
        else {
            return Vec::new();
        };
        match self.connection.incoming.on_frame::<Failure>(Some(Ok(Frame::Data(frame)))) {
            Forward::Data(data) => data,
            other => panic!("{other:?}"),
        }
    }
}

fn example_df_config() -> DomainFronting {
    DomainFronting::new(Uri::parse("example.com").unwrap(), "api.example.com".to_string())
}

#[test]
fn test_client_server_bidirectional() {
    let mut proxy = Proxy::new(Config::new(ECHO_ADDR));
    let mut client = Client::new(&mut proxy, example_df_config());

    let test_data = b"Hello from client";
    client.write_all(&mut proxy, test_data, 8192);
    assert_eq!(
        client.read(&mut proxy, 1024),
        test_data,
        "Echo server should return the same data"
    );

    let test_data2 = b"Second message";
    client.write_all(&mut proxy, test_data2, 8192);
    assert_eq!(client.read(&mut proxy, 1024), test_data2, "Second echo failed");
}

#[test]
fn test_multiple_sessions() {
    let mut proxy = Proxy::new(Config::new(ECHO_ADDR));
    let mut client1 = Client::new(&mut proxy, example_df_config());
    let mut client2 = Client::new(&mut proxy, example_df_config());

    client1.write_all(&mut proxy, b"from_client1", 8192);
    client2.write_all(&mut proxy, b"from_client2", 8192);

    assert_eq!(client1.read(&mut proxy, 1024), b"from_client1", "Client 1 got wrong echo");
    assert_eq!(client2.read(&mut proxy, 1024), b"from_client2", "Client 2 got wrong echo");
}

#[test]
fn test_large_data_transfer() {
    let mut proxy = Proxy::new(Config::new(ECHO_ADDR));
    let mut client = Client::new(&mut proxy, example_df_config());

    let large_data = vec![0x42u8; 100_000];
    client.write_all(&mut proxy, &large_data, 65536);

    let mut received = Vec::new();
    while received.len() < large_data.len() {
        let data = client.read(&mut proxy, 4096);
        if data.is_empty() {
            break;
        }
        received.extend_from_slice(&data);
    }
    assert_eq!(received.len(), large_data.len(), "Did not receive all data");
    assert_eq!(received, large_data, "Data corruption detected");
    let stats = Stats { bytes_tx: 100_000, bytes_rx: 100_000 };
    assert_eq!(proxy.server.take_stats(), stats);
}

#[test]
fn data_keeps_its_order_in_any_pieces() {
    let mut proxy = Proxy::new(Config::new(ECHO_ADDR));
    let mut client = Client::new(&mut proxy, example_df_config());
    let data: Vec<u8> = (0..=255).collect();
    for (i, chunk) in data.chunks(50).enumerate() {
        client.write_all(&mut proxy, chunk, i + 1);
    }
    let mut received = Vec::new();
    for limit in 1..=30 {
        received.extend_from_slice(&client.read(&mut proxy, limit));
    }
    assert_eq!(received, data);
}

#[test]
fn session_keys_may_differ_in_case() {
    let config = Config::new(ECHO_ADDR).with_session_key("x-TUNNEL".to_owned());
    let mut proxy = Proxy::new(config);
    let fronting = example_df_config().with_session_key("X-Tunnel".to_owned());
    let mut client = Client::new(&mut proxy, fronting);
    client.write_all(&mut proxy, b"ping", 1);
    client.write_all(&mut proxy, b"pong", 2);
    assert_eq!(client.read(&mut proxy, 1024), b"pingpong");
    assert_eq!(proxy.live.borrow().len(), 1);
}

#[test]
fn a_session_key_of_another_header_is_not_found() {
    let config = Config::new(ECHO_ADDR).with_session_key("Host".to_owned());
    let mut proxy = Proxy::new(config);
    let fronting = example_df_config().with_session_key("Host".to_owned());
    let connecting = ProxyConfig::new(ECHO_ADDR, fronting).connect_http2_over_stream();
    let mut connection = connecting.handshaken::<Failure>(Ok(())).unwrap();
    let request = connection.incoming.request::<Failure>().unwrap();
    assert_eq!(request.headers["host"], "api.example.com");
    assert_eq!(proxy.read(&request).err(), Some(400));
}

#[test]
fn an_empty_chunk_is_not_acknowledged() {
    let mut proxy = Proxy::new(Config::new(ECHO_ADDR));
    let mut client = Client::new(&mut proxy, example_df_config());
    let chunk = Some(Vec::new());
    let request = client.connection.outgoing.next_request::<Failure>(chunk).unwrap().unwrap();
    assert_eq!(proxy.write(&request, 1), 400);
    assert!(client.connection.outgoing.acknowledge::<Failure>(Ok(400)).is_err());
}

/// All requests of a connection carry one identifier, by `GET` on one side and by `POST` and
/// `PATCH` on the other.
#[test]
fn requests_of_a_connection() {
    let mut proxy = Proxy::new(Config::new(ECHO_ADDR));
    let mut ids = Vec::new();
    for _ in 0..2 {
        let connecting =
            ProxyConfig::new(ECHO_ADDR, example_df_config()).connect_http2_over_stream();
        let mut connection = connecting.handshaken::<Failure>(Ok(())).unwrap();
        let read = connection.incoming.request::<Failure>().unwrap();
        assert_eq!(read.method, Method::Get);
        let id = read.headers["x-session"].clone();
        for method in [Method::Post, Method::Patch, Method::Patch] {
            let chunk = Some(b"data".to_vec());
            let write = connection.outgoing.next_request::<Failure>(chunk).unwrap().unwrap();
            assert_eq!(write.method, method);
            assert_eq!(write.headers["x-session"], id);
            let status = proxy.write(&write, 4);
            connection.outgoing.acknowledge::<Failure>(Ok(status)).unwrap();
        }
        ids.push(id);
    }
    assert_ne!(ids[0], ids[1]);
}
