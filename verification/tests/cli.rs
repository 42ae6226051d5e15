//! The decisions of the command line programs.

use domain_fronting::cli::{
    bind_addr, choose_transport, get_request, tls_files, Report, Reporter, Transport,
    TLS_ARGUMENTS,
};
use domain_fronting::net::SocketAddr;
use domain_fronting::server::{Config, Server, Stats, TcpConnector};
use domain_fronting::time::Instant;

#[test]
fn transports() {
    assert_eq!(choose_transport(true, true), Ok(Transport::Https2));
    assert_eq!(choose_transport(true, false), Ok(Transport::Https1_1));
    assert_eq!(choose_transport(false, false), Ok(Transport::Http1_1));
    assert_eq!(choose_transport(false, true), Err("HTTP/2 requires TLS"));
}

#[test]
fn simple_requests() {
    assert_eq!(
        get_request(None, "api.example.com"),
        "GET https://api.example.com/ HTTP/1.1\r\n\
         Host: api.example.com\r\nConnection: close\r\n\r\n"
    );
    assert_eq!(
        get_request(Some("/x".to_owned()), "h"),
        "GET /x HTTP/1.1\r\nHost: h\r\nConnection: close\r\n\r\n"
    );
}

#[test]
fn tls_arguments_go_together() {
    let name = || Some("api.example.com".to_owned());
    let files = tls_files(Some(1), Some(2), name()).unwrap().unwrap();
    assert_eq!((files.cert_path, files.key_path), (1, 2));
    assert_eq!(files.hostname, "api.example.com");
    assert!(tls_files::<u8>(None, None, None).unwrap().is_none());
    for given in 1..7u8 {
        let arg = |bit: u8| (given & bit != 0).then_some(bit);
        let result = tls_files(arg(1), arg(2), arg(4).and(name()));
        assert_eq!(result.err(), Some(TLS_ARGUMENTS));
    }
    assert_eq!(
        TLS_ARGUMENTS,
        "To enable TLS, all 3 arguments (--cert-path, --key-path and --hostname) must be used"
    );
}

#[test]
fn the_server_listens_on_every_interface() {
    assert_eq!(bind_addr(443), SocketAddr::V4 { v4: 0, port: 443 });
}

#[test]
fn reports_keep_their_distance() {
    let config = Config::new(bind_addr(1));
    let mut server: Server<TcpConnector, u8> = Server::new(config);
    let mut reporter = Reporter::new();
    let at = |millis: u128| Instant { nanos: millis * 1_000_000 };

    server.stats_mut().add_tx(3);
    let report = reporter.on_connection(&mut server, at(0));
    let stats = Stats { bytes_tx: 3, bytes_rx: 0 };
    assert_eq!(report, Some(Report { connections: 1, stats }));

    server.stats_mut().add_rx(4);
    assert_eq!(reporter.on_connection(&mut server, at(1)), None);
    assert_eq!(reporter.on_connection(&mut server, at(4_999)), None);
    let report = reporter.on_connection(&mut server, at(5_000));
    let stats = Stats { bytes_tx: 0, bytes_rx: 4 };
    assert_eq!(report, Some(Report { connections: 3, stats }));
    assert_eq!(reporter.on_connection(&mut server, at(9_999)), None);
    assert_eq!(server.take_stats(), Stats::default());
}
