//! Domain fronting: tunnelling TCP connections through HTTP requests.
//!
//! The TLS handshake names one host of a CDN, the front, while the requests inside name another,
//! the proxy. The library holds the decisions of the client and of the server. It does no I/O:
//! what happened goes in, and what is to be done comes out.
//!
//! # Client
//!
//! A [`DomainFronting`] configuration and the addresses of the front make a
//! [`client::ProxyConfig`], whose `connect` functions lead to a [`client::ProxyConnection`] with
//! its two pumps.
//!
//! # Server
//!
//! A [`server::Server`] lets requests through to sessions, each of which is a
//! [`session::Session`].
//!
//! # Protocol
//!
//! - Client to server: data is sent as the body of repeated `POST` and `PATCH` requests.
//! - Server to client: the client issues one `GET` per session, and the server streams the data of
//!   upstream back in the body of the response.
//! - Server to upstream: the server opens one TCP stream per session.
//!
//! Every request carries a session identifier in a header (`X-Session: <random uuid>`). A `GET` or
//! a `POST` with an identifier that the server does not know opens a session. Later `PATCH`
//! requests with the same identifier push data to the same TCP stream.
//!
//! HTTP/2 takes a single connection. HTTP/1.1 takes two, one per direction.
//!
//! What the parts of the library promise is stated in [`laws`], and what holds of the client and
//! the server together in [`tunnel`].

use vstd::prelude::*;

pub mod cli;
pub mod client;
pub mod dns;
pub mod domain_fronting;
pub mod header;
pub mod laws;
pub mod message;
pub mod net;
pub mod request;
pub mod server;
pub mod session;
pub mod session_id;
pub mod text;
pub mod time;
pub mod tls_stream;
pub mod tunnel;
pub mod uri;

use crate::client::{ProxyConfig, ProxyConfigView};
use crate::header::HttpError;
use crate::net::{IpAddr, SocketAddr};
use crate::tls_stream::TlsError;
use crate::uri::{Uri, UriParts};

verus! {

/// Errors that can occur when establishing a domain fronting connection. `H` is the error of the
/// HTTP connection.
#[derive(Debug)]
pub enum Error<H> {
    /// Failed to establish a TLS connection.
    Tls(TlsError),
    /// The HTTP connection failed.
    Hyper(H),
    /// A request could not be built.
    Http(HttpError),
    /// A request was answered with this status.
    HttpStatusCode(u16),
    /// The connection failed.
    Connection(std::io::Error),
    /// The name resolution failed.
    Dns(std::io::Error),
    /// The protocols of the TLS configuration must offer `h2` if HTTP/2 is used, and must not if
    /// HTTP/1.1 is used.
    MisconfiguredAlpn,
    /// The name resolution found no address.
    EmptyDnsResponse,
}

/// What a fronting configuration says.
pub ghost struct FrontingView {
    pub front: UriParts,
    pub proxy_host: Seq<char>,
    pub session_key: Seq<char>,
}

impl FrontingView {
    /// The connection to the front is secured, unless plain HTTP is asked for.
    pub open spec fn tls(self) -> bool {
        self.front.wants_tls()
    }

    /// The scheme of the requests.
    pub open spec fn scheme(self) -> Seq<char> {
        if self.tls() {
            "https"@
        } else {
            "http"@
        }
    }

    /// The host of the front, empty where it has none.
    pub open spec fn front_host(self) -> Seq<char> {
        self.front.host_name()
    }

    /// The port of the front: the one that it names, or that of its scheme.
    pub open spec fn port(self) -> u16 {
        self.front.port_number()
    }
}

/// Configuration for creating a [`client::ProxyConfig`].
///
/// Contains the fronting domain and the proxy host.
#[derive(Debug)]
pub struct DomainFronting {
    /// Domain that will be used to connect to a CDN.
    front: Uri,
    /// Host that will be reached via the CDN, that is, the value of the `Host` header.
    proxy_host: String,
    /// Name of the header that carries the session identifier.
    session_key: String,
}

impl View for DomainFronting {
    type V = FrontingView;

    closed spec fn view(&self) -> FrontingView {
        FrontingView {
            front: self.front@,
            proxy_host: self.proxy_host@,
            session_key: self.session_key@,
        }
    }
}

impl PartialEq for DomainFronting {
    fn eq(&self, other: &DomainFronting) -> (same: bool) {
        self.front == other.front && self.proxy_host == other.proxy_host && self.session_key
            == other.session_key
    }
}

impl vstd::std_specs::cmp::PartialEqSpecImpl for DomainFronting {
    open spec fn obeys_eq_spec() -> bool {
        true
    }

    open spec fn eq_spec(&self, other: &DomainFronting) -> bool {
        &&& self@.front.same(other@.front)
        &&& self@.proxy_host == other@.proxy_host
        &&& self@.session_key == other@.session_key
    }
}

impl Clone for DomainFronting {
    fn clone(&self) -> (copy: DomainFronting)
        ensures
            copy@ == self@,
    {
        DomainFronting {
            front: self.front.clone(),
            proxy_host: self.proxy_host.clone(),
            session_key: self.session_key.clone(),
        }
    }
}

impl DomainFronting {
    /// The usual name of the header that carries the session identifier.
    pub const DEFAULT_SESSION_KEY: &'static str = "X-Session";

    /// Fronting through `front` to `proxy_host`, with the usual session header.
    pub fn new(front: Uri, proxy_host: String) -> (fronting: DomainFronting)
        ensures
            fronting@ == (FrontingView {
                front: front@,
                proxy_host: proxy_host@,
                session_key: "X-Session"@,
            }),
    {
        DomainFronting { front, proxy_host, session_key: Self::DEFAULT_SESSION_KEY.to_owned() }
    }

    /// The same with another session header.
    pub fn with_session_key(self, session_key: String) -> (fronting: DomainFronting)
        ensures
            fronting@ == (FrontingView { session_key: session_key@, ..self@ }),
    {
        DomainFronting { front: self.front, proxy_host: self.proxy_host, session_key }
    }

    /// The fronting domain.
    pub fn front(&self) -> (front: &Uri)
        ensures
            front@ == self@.front,
    {
        &self.front
    }

    /// The host of the fronting domain, used for SNI.
    pub fn front_host(&self) -> (host: &str)
        ensures
            host@ == self@.front_host(),
    {
        self.front.host_or_empty()
    }

    /// The proxy host, used for the `Host` header.
    pub fn proxy_host(&self) -> (host: &str)
        ensures
            host@ == self@.proxy_host,
    {
        self.proxy_host.as_str()
    }

    /// The name of the session header.
    pub fn session_key(&self) -> (key: &str)
        ensures
            key@ == self@.session_key,
    {
        self.session_key.as_str()
    }

    /// Whether the connection to the front is secured. It is, unless plain HTTP is asked for.
    pub fn tls(&self) -> (tls: bool)
        ensures
            tls == self@.tls(),
    {
        self.front.tls()
    }

    /// The scheme of the requests.
    pub fn scheme(&self) -> (scheme: &'static str)
        ensures
            scheme@ == self@.scheme(),
    {
        if self.tls() {
            "https"
        } else {
            "http"
        }
    }

    /// Turns what the name resolution of the front gave into the configuration of a connection:
    /// the first address counts.
    pub fn proxy_config<H>(&self, resolved: Result<Vec<IpAddr>, std::io::Error>) -> (result:
        Result<ProxyConfig, Error<H>>)
        ensures
            match resolved {
                Err(failure) => result == Err::<ProxyConfig, Error<H>>(Error::Dns(failure)),
                Ok(ips) => if ips.len() == 0 {
                    result == Err::<ProxyConfig, Error<H>>(Error::EmptyDnsResponse)
                } else {
                    match result {
                        Ok(config) => config@ == (ProxyConfigView {
                            addr: SocketAddr::of(ips[0], self@.port()),
                            fronting: self@,
                        }),
                        Err(_) => false,
                    }
                },
            },
    {
        let ips = match resolved {
            Ok(ips) => ips,
            Err(error) => return Err(Error::Dns(error)),
        };
        if ips.len() == 0 {
            return Err(Error::EmptyDnsResponse);
        }
        Ok(ProxyConfig::new(SocketAddr::new(ips[0], self.front.port_or_default()), self.clone()))
    }
}

} // verus!
