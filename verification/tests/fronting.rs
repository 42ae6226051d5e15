//! Fronting configurations and name resolution.

use domain_fronting::client::ProxyConfig;
use domain_fronting::dns::DefaultDnsResolver;
use domain_fronting::net::{IpAddr, SocketAddr};
use domain_fronting::uri::Uri;
use domain_fronting::{domain_fronting as secret, DomainFronting, Error};

fn fronting(front: &str) -> DomainFronting {
    DomainFronting::new(Uri::parse(front).unwrap(), "api.example.com".to_owned())
}

fn resolve(fronting: &DomainFronting, ips: Vec<IpAddr>) -> Result<ProxyConfig, Error<()>> {
    fronting.proxy_config(Ok(ips))
}

#[test]
fn uris_fall_into_parts() {
    let uri = Uri::parse("https://cdn.example.com:8443/a?b").unwrap();
    assert_eq!(uri.scheme.as_deref(), Some("https"));
    assert_eq!(uri.host.as_deref(), Some("cdn.example.com"));
    assert_eq!(uri.port, Some(8443));
    assert_eq!(uri.authority.as_deref(), Some("cdn.example.com:8443"));
    assert_eq!(uri.path, "/a");
    assert_eq!(uri.query.as_deref(), Some("b"));
    assert_eq!(uri.text, "https://cdn.example.com:8443/a?b");

    let uri = Uri::parse("HTTP://cdn.example.com").unwrap();
    assert_eq!(uri.scheme.as_deref(), Some("http"));
    assert_eq!(uri.text, "http://cdn.example.com/");

    let uri = Uri::parse("example.com").unwrap();
    assert_eq!(uri.scheme, None);
    assert_eq!(uri.host.as_deref(), Some("example.com"));
    assert_eq!(uri.text, "example.com");

    let uri = Uri::parse("/path").unwrap();
    assert_eq!((uri.scheme, uri.host, uri.port), (None, None, None));

    for bad in ["", "https://", "a b", "http://a/\u{7f}"] {
        assert!(Uri::parse(bad).is_err(), "{bad:?}");
    }
}

#[test]
fn tls_is_used_unless_http_is_asked_for() {
    for (front, tls, scheme) in [
        ("https://cdn.example.com", true, "https"),
        ("cdn.example.com", true, "https"),
        ("ftp://cdn.example.com", true, "https"),
        ("http://cdn.example.com", false, "http"),
        ("HTTP://cdn.example.com", false, "http"),
    ] {
        assert_eq!(fronting(front).tls(), tls, "{front}");
        assert_eq!(fronting(front).scheme(), scheme, "{front}");
    }
}

#[test]
fn a_configuration_says_what_it_was_made_with() {
    let df = fronting("https://cdn.example.com");
    assert_eq!(df.front().text, "https://cdn.example.com/");
    assert_eq!(df.front_host(), "cdn.example.com");
    assert_eq!(df.proxy_host(), "api.example.com");
    assert_eq!(df.session_key(), "X-Session");
    assert_eq!(DomainFronting::DEFAULT_SESSION_KEY, "X-Session");
    assert_eq!(fronting("/only/a/path").front_host(), "");
    let other = df.clone().with_session_key("X-Other".to_owned());
    assert_eq!(other.session_key(), "X-Other");
    assert_eq!(other.proxy_host(), "api.example.com");
}

#[test]
fn configurations_are_compared_as_uris_are() {
    let df = fronting("https://cdn.example.com");
    assert!(df == fronting("https://cdn.example.com/"));
    assert!(df == fronting("https://CDN.example.com"));
    assert!(df != fronting("http://cdn.example.com"));
    assert!(df != fronting("https://cdn.example.com/other"));
    assert!(df != fronting("https://cdn.example.com/?query"));
    assert!(fronting("https://a/?x") != fronting("https://a/?X"));
    assert!(fronting("https://a/x") != fronting("https://a/X"));
    assert!(fronting("FTP://a") == fronting("ftp://A"));
    assert!(fronting("a.example") != df);
    assert!(df != df.clone().with_session_key("X-Other".to_owned()));
    let addr = SocketAddr::new(IpAddr::V4(1), 443);
    let config = ProxyConfig::new(addr, df.clone());
    assert!(config == config.clone());
    assert!(config != ProxyConfig::new(SocketAddr::new(IpAddr::V4(2), 443), df));
}

#[test]
fn the_first_address_and_the_port_of_the_front_are_used() {
    let ips = || vec![IpAddr::V4(0x0102_0304), IpAddr::V6(1)];
    for (front, port) in [
        ("https://cdn.example.com", 443),
        ("cdn.example.com", 443),
        ("http://cdn.example.com", 80),
        ("https://cdn.example.com:8443", 8443),
        ("http://cdn.example.com:8080", 8080),
    ] {
        let config = resolve(&fronting(front), ips()).unwrap();
        assert_eq!(config.addr, SocketAddr::V4 { v4: 0x0102_0304, port }, "{front}");
    }
    let config = resolve(&fronting("https://cdn.example.com"), vec![IpAddr::V6(9)]).unwrap();
    assert_eq!(config.addr, SocketAddr::V6 { v6: 9, port: 443, flowinfo: 0, scope_id: 0 });
}

#[test]
fn name_resolution_can_fail() {
    let df = fronting("https://cdn.example.com");
    assert!(matches!(resolve(&df, Vec::new()), Err(Error::EmptyDnsResponse)));
    let failure = std::io::Error::from(std::io::ErrorKind::NotFound);
    let result: Result<_, Error<()>> = df.proxy_config(Err(failure));
    assert!(matches!(result, Err(Error::Dns(e)) if e.kind() == std::io::ErrorKind::NotFound));
}

#[test]
fn the_resolver_keeps_the_addresses_in_order() {
    let resolver = DefaultDnsResolver;
    assert_eq!(resolver.query("cdn.example.com"), ("cdn.example.com".to_owned(), 0));
    let found = vec![
        SocketAddr::V6 { v6: 5, port: 0, flowinfo: 1, scope_id: 2 },
        SocketAddr::V4 { v4: 6, port: 0 },
    ];
    assert_eq!(resolver.resolve(Ok(found)).unwrap(), [IpAddr::V6(5), IpAddr::V4(6)]);
    let failure = std::io::Error::from(std::io::ErrorKind::TimedOut);
    assert_eq!(
        resolver.resolve(Err(failure)).unwrap_err().kind(),
        std::io::ErrorKind::TimedOut
    );
}

#[test]
fn a_configuration_with_a_secret() {
    let df = secret::DomainFronting::new(
        Uri::parse("http://cdn.example.com").unwrap(),
        "api.example.com".to_owned(),
        "X-Auth".to_owned(),
        "password".to_owned(),
    );
    assert_eq!(df.front().text, "http://cdn.example.com/");
    assert_eq!(df.front_host(), "cdn.example.com");
    assert_eq!(df.proxy_host(), "api.example.com");
    assert_eq!(df.auth_header_key(), "X-Auth");
    assert_eq!(df.auth_header_val(), "password");
    assert!(!df.tls());
    assert!(df == df.clone());
    let config = df.proxy_config::<()>(Ok(vec![IpAddr::V4(3)])).unwrap();
    assert_eq!(config.addr, SocketAddr::V4 { v4: 3, port: 80 });
    assert!(config.domain_fronting == df);
    assert!(matches!(
        df.proxy_config::<()>(Ok(Vec::new())),
        Err(secret::Error::EmptyDnsResponse)
    ));
    let failure = std::io::Error::from(std::io::ErrorKind::NotFound);
    assert!(matches!(df.proxy_config::<()>(Err(failure)), Err(secret::Error::Dns(_))));
}

/// The longest fronts stay apart.
#[test]
fn long_fronts_are_told_apart() {
    let front = |c: char| format!("http://{}", c.to_string().repeat(65_527));
    let (a, b) = (Uri::parse(&front('a')).unwrap(), Uri::parse(&front('b')).unwrap());
    assert!(a == a.clone());
    assert!(a == Uri::parse(&front('A')).unwrap());
    assert!(a != b);
}
