//! The client: connecting, and the two pumps.

use domain_fronting::client::{
    Connecting, Forward, Frame, IncomingPump, IncomingState, IoTask, OutgoingPump, OutgoingState,
    ProxyConfig, ProxyConnection, Step, Version,
};
use domain_fronting::header::HttpError;
use domain_fronting::message::Method;
use domain_fronting::net::SocketAddr;
use domain_fronting::session_id::Uuid;
use domain_fronting::tls_stream::{has_h2, TlsError, TlsStream};
use domain_fronting::uri::Uri;
use domain_fronting::{DomainFronting, Error};

type Failure = &'static str;

const ADDR: SocketAddr = SocketAddr::V4 { v4: 0x7f00_0001, port: 443 };
const SESSION: Uuid = Uuid { bits: 0x67e55044_10b1_426f_9247_bb680e5fe0c8 };

fn fronting() -> DomainFronting {
    DomainFronting::new(Uri::parse("example.com").unwrap(), "api.example.com".to_owned())
}

fn proxy() -> ProxyConfig {
    ProxyConfig::new(ADDR, fronting())
}

fn h2() -> Vec<Vec<u8>> {
    vec![b"http/1.1".to_vec(), b"h2".to_vec()]
}

fn io_error() -> std::io::Error {
    std::io::Error::from(std::io::ErrorKind::ConnectionReset)
}

fn finish(connecting: Connecting) -> ProxyConnection {
    assert_eq!(connecting.step(), Step::Handshake);
    connecting.handshaken::<Failure>(Ok(())).unwrap()
}

#[test]
fn connecting_with_http2_takes_one_secured_stream() {
    let mut connecting = proxy().connect_https2(&h2());
    assert_eq!(connecting.addr(), ADDR);
    assert_eq!(connecting.version(), Version::Http2);
    assert_eq!(connecting.step(), Step::Dial { stream: 0 });
    connecting.dialed::<Failure>(Ok(())).unwrap();
    assert_eq!(connecting.step(), Step::Secure { stream: 0 });
    assert_eq!(connecting.server_name(), "example.com");
    connecting.secured::<Failure>(Ok(())).unwrap();
    let connection = finish(connecting);
    assert_eq!((connection.incoming_stream, connection.outgoing_stream), (0, 0));
    assert!(connection.is_write_vectored());
}

#[test]
fn connecting_with_http1_1_takes_two_secured_streams() {
    let mut connecting = proxy().connect_https1_1(&vec![b"http/1.1".to_vec()]);
    assert_eq!(connecting.version(), Version::Http1_1);
    assert_eq!(connecting.step(), Step::Dial { stream: 0 });
    connecting.dialed::<Failure>(Ok(())).unwrap();
    assert_eq!(connecting.step(), Step::Dial { stream: 1 });
    connecting.dialed::<Failure>(Ok(())).unwrap();
    assert_eq!(connecting.step(), Step::Secure { stream: 0 });
    connecting.secured::<Failure>(Ok(())).unwrap();
    assert_eq!(connecting.step(), Step::Secure { stream: 1 });
    connecting.secured::<Failure>(Ok(())).unwrap();
    let connection = finish(connecting);
    assert_eq!((connection.incoming_stream, connection.outgoing_stream), (0, 1));
}

#[test]
fn connecting_without_tls() {
    let mut connecting = proxy().connect_http1_1();
    connecting.dialed::<Failure>(Ok(())).unwrap();
    assert_eq!(connecting.step(), Step::Dial { stream: 1 });
    connecting.dialed::<Failure>(Ok(())).unwrap();
    let connection = finish(connecting);
    assert_eq!((connection.incoming_stream, connection.outgoing_stream), (0, 1));

    let connection = finish(proxy().connect_http1_1_over_streams());
    assert_eq!((connection.incoming_stream, connection.outgoing_stream), (0, 1));
    let connection = finish(proxy().connect_http2_over_stream());
    assert_eq!((connection.incoming_stream, connection.outgoing_stream), (0, 0));
}

#[test]
fn connecting_over_open_streams() {
    let connecting = proxy().connect_https2_over_stream::<Failure>(&h2()).unwrap();
    assert_eq!(connecting.step(), Step::Secure { stream: 0 });
    assert_eq!(connecting.server_name(), "example.com");
    let connecting = proxy().connect_https1_1_over_streams::<Failure>(&vec![]).unwrap();
    assert_eq!(connecting.step(), Step::Secure { stream: 0 });
}

#[test]
fn the_protocols_must_fit_the_version() {
    assert!(matches!(
        proxy().connect_https2_over_stream::<Failure>(&vec![b"http/1.1".to_vec()]),
        Err(Error::MisconfiguredAlpn)
    ));
    assert!(matches!(
        proxy().connect_https1_1_over_streams::<Failure>(&h2()),
        Err(Error::MisconfiguredAlpn)
    ));
    // The streams are opened first.
    let mut connecting = proxy().connect_https2(&vec![]);
    assert!(matches!(
        connecting.dialed::<Failure>(Err(io_error())),
        Err(Error::Connection(_))
    ));
    assert!(matches!(
        connecting.dialed::<Failure>(Ok(())),
        Err(Error::MisconfiguredAlpn)
    ));
    assert!(has_h2(&h2()));
    assert!(!has_h2(&vec![b"h2c".to_vec(), b"h".to_vec(), vec![]]));
}

#[test]
fn the_front_must_be_a_host_name() {
    let no_name = DomainFronting::new(Uri::parse("a_b..c").unwrap(), "p".to_owned());
    let result = ProxyConfig::new(ADDR, no_name).connect_https2_over_stream::<Failure>(&h2());
    match result {
        Err(Error::Tls(TlsError::InvalidInput(message))) => {
            assert_eq!(message, "invalid hostname \"a_b..c\"");
        }
        other => panic!("{other:?}"),
    }
    let tls = TlsStream::connect_with_config(7u8, "Example.com").unwrap();
    assert_eq!((tls.stream, tls.server_name.as_str()), (7, "Example.com"));
    assert!(TlsStream::connect_with_config(7u8, "").is_err());
    let tls = TlsStream::connect_with_config((), "2001:0db8:0::0001").unwrap();
    assert_eq!(tls.server_name, "2001:db8::1");
}

#[test]
fn handshakes_can_fail() {
    let mut connecting = proxy().connect_https2_over_stream::<Failure>(&h2()).unwrap();
    assert!(matches!(
        connecting.secured::<Failure>(Err(io_error())),
        Err(Error::Tls(TlsError::Io(_)))
    ));
    let connecting = proxy().connect_http2_over_stream();
    assert!(matches!(
        connecting.handshaken::<Failure>(Err("refused")),
        Err(Error::Hyper("refused"))
    ));
    let connecting = proxy().connect_http1_1_over_streams();
    assert!(matches!(
        connecting.handshaken::<Failure>(Err("refused")),
        Err(Error::Hyper("refused"))
    ));
}

#[test]
fn both_directions_share_one_session() {
    let mut first = finish(proxy().connect_http2_over_stream());
    let mut second = finish(proxy().connect_http2_over_stream());
    let read = first.incoming.request::<Failure>().unwrap();
    let write = first.outgoing.next_request::<Failure>(Some(vec![1])).unwrap().unwrap();
    let other = second.incoming.request::<Failure>().unwrap();
    assert_eq!(read.headers["x-session"], write.headers["x-session"]);
    assert_ne!(read.headers["x-session"], other.headers["x-session"]);
}

#[test]
fn only_the_first_acknowledged_write_opens_the_session() {
    let mut pump = OutgoingPump::new(SESSION, fronting());
    assert_eq!(pump.state(), OutgoingState::Ready);
    let request = pump.next_request::<Failure>(Some(b"a".to_vec())).unwrap().unwrap();
    assert_eq!((request.method, request.body.as_slice()), (Method::Post, b"a".as_slice()));
    for chunk in [b"b", b"c"] {
        assert_eq!(pump.state(), OutgoingState::Waiting);
        pump.acknowledge::<Failure>(Ok(204)).unwrap();
        assert_eq!(pump.state(), OutgoingState::Ready);
        let request = pump.next_request::<Failure>(Some(chunk.to_vec())).unwrap().unwrap();
        assert_eq!((request.method, request.body.as_slice()), (Method::Patch, chunk.as_slice()));
    }
    pump.acknowledge::<Failure>(Ok(204)).unwrap();
    assert!(pump.next_request::<Failure>(None).unwrap().is_none());
    assert_eq!(pump.state(), OutgoingState::Ended);
}

#[test]
fn nothing_is_sent_after_a_refusal() {
    for response in [Ok(200), Ok(400), Err("reset")] {
        let mut pump = OutgoingPump::new(SESSION, fronting());
        pump.next_request::<Failure>(Some(b"a".to_vec())).unwrap().unwrap();
        match (response, pump.acknowledge(response)) {
            (Ok(sent), Err(Error::HttpStatusCode(status))) => assert_eq!(status, sent),
            (Err(_), Err(Error::Hyper(failure))) => assert_eq!(failure, "reset"),
            other => panic!("{other:?}"),
        }
        assert_eq!(pump.state(), OutgoingState::Ended);
    }
}

#[test]
fn a_pump_passes_on_that_a_request_cannot_be_built() {
    let bad = fronting().with_session_key("no name".to_owned());
    let mut pump = OutgoingPump::new(SESSION, bad.clone());
    assert!(matches!(
        pump.next_request::<Failure>(Some(vec![1])),
        Err(Error::Http(HttpError::InvalidHeaderName))
    ));
    assert_eq!(pump.state(), OutgoingState::Ended);
    let mut pump = IncomingPump::new(SESSION, bad);
    assert!(matches!(
        pump.request::<Failure>(),
        Err(Error::Http(HttpError::InvalidHeaderName))
    ));
    assert_eq!(pump.state(), IncomingState::Ended);
}

/// A pump that has sent its read request.
fn asked() -> IncomingPump {
    let mut pump = IncomingPump::new(SESSION, fronting());
    assert_eq!(pump.state(), IncomingState::Requesting);
    assert_eq!(pump.request::<Failure>().unwrap().method, Method::Get);
    assert_eq!(pump.state(), IncomingState::Waiting);
    pump
}

#[test]
fn a_response_streams_until_its_end() {
    let mut pump = asked();
    pump.on_response::<Failure>(Ok(200)).unwrap();
    assert_eq!(pump.state(), IncomingState::Streaming);
    let frame = Some(Ok(Frame::Data(vec![1, 2])));
    assert!(matches!(pump.on_frame::<Failure>(frame), Forward::Data(data) if data == [1, 2]));
    let frame = Some(Ok(Frame::Trailers));
    assert!(matches!(pump.on_frame::<Failure>(frame), Forward::Nothing));
    assert_eq!(pump.state(), IncomingState::Streaming);
    assert!(matches!(pump.on_frame::<Failure>(None), Forward::End));
    assert_eq!(pump.state(), IncomingState::Ended);
}

#[test]
fn a_response_can_fail() {
    for status in [199, 300, 400, 500] {
        let mut pump = asked();
        assert!(matches!(
            pump.on_response::<Failure>(Ok(status)),
            Err(Error::HttpStatusCode(s)) if s == status
        ));
        assert_eq!(pump.state(), IncomingState::Ended);
    }
    let mut pump = asked();
    assert!(matches!(pump.on_response(Err("reset")), Err(Error::Hyper("reset"))));
    assert_eq!(pump.state(), IncomingState::Ended);
    for status in [200, 204, 299] {
        let mut pump = asked();
        pump.on_response::<Failure>(Ok(status)).unwrap();
        assert!(matches!(pump.on_frame(Some(Err("reset"))), Forward::Failure("reset")));
        assert_eq!(pump.state(), IncomingState::Ended);
    }
    let mut pump = asked();
    pump.on_response::<Failure>(Ok(200)).unwrap();
    pump.on_reader_gone();
    assert_eq!(pump.state(), IncomingState::Ended);
}

#[test]
fn the_io_task_can_fail() {
    assert!(ProxyConnection::check_io_task(IoTask::Running).is_ok());
    assert!(ProxyConnection::check_io_task(IoTask::Finished).is_ok());
    let failure = ProxyConnection::check_io_task(IoTask::Failed(io_error())).unwrap_err();
    assert_eq!(failure.kind(), std::io::ErrorKind::ConnectionReset);
}

#[test]
fn several_buffers_become_one() {
    let merge = |bufs: &[&'static [u8]]| ProxyConnection::merge_buffers(&bufs.to_vec());
    assert_eq!(merge(&[]), b"");
    assert_eq!(merge(&[b"", b"ab", b"", b"c"]), b"abc");
}
