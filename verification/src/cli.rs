//! The decisions of the command line programs.

use vstd::prelude::*;

use crate::net::SocketAddr;
use crate::server::{Server, ServerView, Stats};
use crate::time::Instant;

verus! {

/// How to connect to a front.
#[derive(Clone, Copy, Debug, PartialEq, Eq, Structural)]
pub enum Transport {
    /// HTTP/2 with TLS, over one connection.
    Https2,
    /// HTTP/1.1 with TLS, over two connections.
    Https1_1,
    /// HTTP/1.1 without TLS, over two connections.
    Http1_1,
}

/// Chooses how to connect, by whether the front wants TLS and the caller HTTP/2. Fails with a
/// message where the two do not go together.
pub fn choose_transport(tls: bool, http2: bool) -> (result: Result<Transport, &'static str>)
    ensures
        match result {
            Ok(Transport::Https2) => tls && http2,
            Ok(Transport::Https1_1) => tls && !http2,
            Ok(Transport::Http1_1) => !tls && !http2,
            Err(message) => !tls && http2 && message@ == "HTTP/2 requires TLS"@,
        },
{
    match (tls, http2) {
        (true, true) => Ok(Transport::Https2),
        (true, false) => Ok(Transport::Https1_1),
        (false, true) => Err("HTTP/2 requires TLS"),
        (false, false) => Ok(Transport::Http1_1),
    }
}

/// The URL to fetch when none is given: the root of the host.
pub open spec fn url_or_root(url: Option<String>, host: Seq<char>) -> Seq<char> {
    match url {
        Some(url) => url@,
        None => "https://"@ + host + "/"@,
    }
}

/// A simple request for a URL of a host.
pub open spec fn get_request_text(url: Seq<char>, host: Seq<char>) -> Seq<char> {
    "GET "@ + url + " HTTP/1.1\r\nHost: "@ + host + "\r\nConnection: close\r\n\r\n"@
}

/// Writes a simple request for a URL, or for the root of the host.
pub fn get_request(url: Option<String>, host: &str) -> (request: String)
    ensures
        request@ == get_request_text(url_or_root(url, host@), host@),
{
    let url = match url {
        Some(url) => url,
        None => {
            let mut root = "https://".to_owned();
            root.append(host);
            root.append("/");
            root
        },
    };
    let mut request = "GET ".to_owned();
    request.append(url.as_str());
    request.append(" HTTP/1.1\r\nHost: ");
    request.append(host);
    request.append("\r\nConnection: close\r\n\r\n");
    request
}

/// What a server needs for TLS.
#[derive(Debug)]
pub struct TlsFiles<P> {
    pub cert_path: P,
    pub key_path: P,
    pub hostname: String,
}

/// The message for an incomplete set of TLS arguments.
pub const TLS_ARGUMENTS: &'static str =
    "To enable TLS, all 3 arguments (--cert-path, --key-path and --hostname) must be used";

/// Decides whether the server uses TLS. All of the arguments for it must be given, or none.
pub fn tls_files<P>(cert_path: Option<P>, key_path: Option<P>, hostname: Option<String>) -> (result:
    Result<Option<TlsFiles<P>>, &'static str>)
    ensures
        match (cert_path, key_path, hostname) {
            (Some(cert_path), Some(key_path), Some(hostname)) => result == Ok::<
                Option<TlsFiles<P>>,
                &'static str,
            >(Some(TlsFiles { cert_path, key_path, hostname })),
            (None, None, None) => result == Ok::<Option<TlsFiles<P>>, &'static str>(None),
            _ => result == Err::<Option<TlsFiles<P>>, &'static str>(TLS_ARGUMENTS),
        },
{
    match (cert_path, key_path, hostname) {
        (Some(cert_path), Some(key_path), Some(hostname)) => Ok(
            Some(TlsFiles { cert_path, key_path, hostname }),
        ),
        (None, None, None) => Ok(None),
        _ => Err(TLS_ARGUMENTS),
    }
}

/// The address that the server listens on: the port, on every interface.
pub fn bind_addr(port: u16) -> (addr: SocketAddr)
    ensures
        addr == (SocketAddr::V4 { v4: 0, port }),
{
    SocketAddr::V4 { v4: 0, port }
}

/// The least time between two reports, in nanoseconds.
pub const REPORT_INTERVAL: u128 = 5_000_000_000;

/// Reports of the connections of a server, at most one per interval.
#[derive(Debug)]
pub struct Reporter {
    /// The connections since the last report.
    pub connections: u64,
    /// The time of the last report.
    pub last: Option<Instant>,
}

/// A report of the connections of a server.
#[derive(Clone, Copy, Debug, PartialEq, Eq, Structural)]
pub struct Report {
    pub connections: u64,
    pub stats: Stats,
}

impl Reporter {
    /// A report is due: none was made yet, or the interval has passed since the last.
    pub open spec fn is_due(self, now: Instant) -> bool {
        match self.last {
            Some(last) => now.nanos - last.nanos >= REPORT_INTERVAL,
            None => true,
        }
    }

    /// Nothing was reported yet.
    pub fn new() -> (reporter: Reporter)
        ensures
            reporter == (Reporter { connections: 0, last: None }),
    {
        Reporter { connections: 0, last: None }
    }

    /// Counts a connection, and reports where a report is due. A report takes the counts of the
    /// server.
    pub fn on_connection<C, R>(&mut self, server: &mut Server<C, R>, now: Instant) -> (report:
        Option<Report>)
        requires
            old(self).connections < u64::MAX,
        ensures
            final(server).spec_connector() == old(server).spec_connector(),
            if old(self).is_due(now) {
                &&& report == Some(
                    Report {
                        connections: (old(self).connections + 1) as u64,
                        stats: old(server)@.stats,
                    },
                )
                &&& *final(self) == (Reporter { connections: 0, last: Some(now) })
                &&& final(server)@ == (ServerView {
                    stats: Stats { bytes_tx: 0, bytes_rx: 0 },
                    ..old(server)@
                })
            } else {
                &&& report is None
                &&& *final(self) == (Reporter {
                    connections: (old(self).connections + 1) as u64,
                    ..*old(self)
                })
                &&& final(server)@ == old(server)@
            },
    {
        self.connections = self.connections + 1;
        let due = match self.last {
            Some(last) => now.nanos >= last.nanos && now.nanos - last.nanos >= REPORT_INTERVAL,
            None => true,
        };
        if !due {
            return None;
        }
        let report = Report { connections: self.connections, stats: server.take_stats() };
        self.connections = 0;
        self.last = Some(now);
        Some(report)
    }
}

} // verus!
