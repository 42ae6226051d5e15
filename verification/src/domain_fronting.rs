//! Fronting with a preshared secret.
//!
//! Requests carry the secret in a header, such as `X-Auth: abc123-shared-secret`. It is no
//! security feature, but filters the traffic of random bots.

use vstd::prelude::*;

use crate::net::{IpAddr, SocketAddr};
use crate::tls_stream::TlsError;
use crate::uri::{Uri, UriParts};

verus! {

/// Errors that can occur when establishing a domain fronting connection. `H` is the error of the
/// HTTP connection.
#[derive(Debug)]
pub enum Error<H> {
    /// Failed to establish a TLS connection.
    Tls(TlsError),
    /// The HTTP handshake failed.
    Handshake(H),
    /// A request was answered with this status.
    HttpStatusCode(u16),
    /// The connection failed.
    Connection(std::io::Error),
    /// The name resolution failed.
    Dns(std::io::Error),
    /// The name resolution found no address.
    EmptyDnsResponse,
}

/// What a fronting configuration with a secret says.
pub ghost struct SecretFrontingView {
    pub front: UriParts,
    pub proxy_host: Seq<char>,
    pub auth_header_key: Seq<char>,
    pub auth_header_val: Seq<char>,
}

/// Configuration for creating a [`ProxyConfig`].
///
/// Contains the fronting domain, the proxy host and the header with the secret.
#[derive(Debug)]
pub struct DomainFronting {
    /// Domain that will be used to connect to a CDN.
    front: Uri,
    /// Host that will be reached via the CDN, that is, the value of the `Host` header.
    proxy_host: String,
    /// Name of the header that carries the secret.
    auth_header_key: String,
    /// The secret.
    auth_header_val: String,
}

impl View for DomainFronting {
    type V = SecretFrontingView;

    closed spec fn view(&self) -> SecretFrontingView {
        SecretFrontingView {
            front: self.front@,
            proxy_host: self.proxy_host@,
            auth_header_key: self.auth_header_key@,
            auth_header_val: self.auth_header_val@,
        }
    }
}

impl PartialEq for DomainFronting {
    fn eq(&self, other: &DomainFronting) -> (same: bool) {
        self.front == other.front && self.proxy_host == other.proxy_host && self.auth_header_key
            == other.auth_header_key && self.auth_header_val == other.auth_header_val
    }
}

impl vstd::std_specs::cmp::PartialEqSpecImpl for DomainFronting {
    open spec fn obeys_eq_spec() -> bool {
        true
    }

    open spec fn eq_spec(&self, other: &DomainFronting) -> bool {
        &&& self@.front.same(other@.front)
        &&& self@.proxy_host == other@.proxy_host
        &&& self@.auth_header_key == other@.auth_header_key
        &&& self@.auth_header_val == other@.auth_header_val
    }
}

impl Clone for DomainFronting {
    fn clone(&self) -> (copy: DomainFronting)
        ensures
            copy@ == self@,
    {
        DomainFronting {
            front: self.front.clone(),
            proxy_host: self.proxy_host.clone(),
            auth_header_key: self.auth_header_key.clone(),
            auth_header_val: self.auth_header_val.clone(),
        }
    }
}

impl DomainFronting {
    /// Fronting through `front` to `proxy_host`, with the given header.
    pub fn new(
        front: Uri,
        proxy_host: String,
        auth_header_key: String,
        auth_header_val: String,
    ) -> (fronting: DomainFronting)
        ensures
            fronting@ == (SecretFrontingView {
                front: front@,
                proxy_host: proxy_host@,
                auth_header_key: auth_header_key@,
                auth_header_val: auth_header_val@,
            }),
    {
        DomainFronting { front, proxy_host, auth_header_key, auth_header_val }
    }

    /// The fronting domain.
    pub fn front(&self) -> (front: &Uri)
        ensures
            front@ == self@.front,
    {
        &self.front
    }

    /// The host of the fronting domain, used for SNI.
    pub fn front_host(&self) -> (host: &str)
        ensures
            host@ == self@.front.host_name(),
    {
        self.front.host_or_empty()
    }

    /// The proxy host, used for the `Host` header.
    pub fn proxy_host(&self) -> (host: &str)
        ensures
            host@ == self@.proxy_host,
    {
        self.proxy_host.as_str()
    }

    /// The name of the header that carries the secret.
    pub fn auth_header_key(&self) -> (key: &str)
        ensures
            key@ == self@.auth_header_key,
    {
        self.auth_header_key.as_str()
    }

    /// The secret.
    pub fn auth_header_val(&self) -> (val: &str)
        ensures
            val@ == self@.auth_header_val,
    {
        self.auth_header_val.as_str()
    }

    /// Whether the connection to the front is secured. It is, unless plain HTTP is asked for.
    pub fn tls(&self) -> (tls: bool)
        ensures
            tls == self@.front.wants_tls(),
    {
        self.front.tls()
    }

    /// Turns what the name resolution of the front gave into the configuration of a connection:
    /// the first address counts.
    pub fn proxy_config<H>(&self, resolved: Result<Vec<IpAddr>, std::io::Error>) -> (result:
        Result<ProxyConfig, Error<H>>)
        ensures
            match resolved {
                Err(failure) => result == Err::<ProxyConfig, Error<H>>(Error::Dns(failure)),
                Ok(ips) => if ips.len() == 0 {
                    result == Err::<ProxyConfig, Error<H>>(Error::EmptyDnsResponse)
                } else {
                    match result {
                        Ok(config) => {
                            &&& config.addr == SocketAddr::of(ips[0], self@.front.port_number())
                            &&& config.domain_fronting@ == self@
                        },
                        Err(_) => false,
                    }
                },
            },
    {
        let ips = match resolved {
            Ok(ips) => ips,
            Err(error) => return Err(Error::Dns(error)),
        };
        if ips.len() == 0 {
            return Err(Error::EmptyDnsResponse);
        }
        let addr = SocketAddr::new(ips[0], self.front.port_or_default());
        Ok(ProxyConfig { addr, domain_fronting: self.clone() })
    }
}

/// Configuration for connecting to a domain fronting proxy.
#[derive(Debug)]
pub struct ProxyConfig {
    /// The resolved socket address of the CDN.
    pub addr: SocketAddr,
    /// The fronting configuration.
    pub domain_fronting: DomainFronting,
}

} // verus!
