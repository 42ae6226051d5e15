//! What the parts of the library promise, over all inputs.

use vstd::prelude::*;
use vstd::std_specs::cmp::PartialEqSpec;
use vstd::utf8::encode_utf8;

use crate::cli::{get_request_text, url_or_root, Reporter};
use crate::client::{
    connecting_view, merged, Connecting, ConnectingView, IncomingState, IncomingView,
    OutgoingState, OutgoingView, ProxyConfig, ProxyConfigView, ProxyConnection, Step, Version,
};
use crate::dns::DefaultDnsResolver;
use crate::domain_fronting as secret;
use crate::header::{
    ascii_text, first_value, header_values, is_header_name, is_header_value, is_visible,
    lemma_fixed_names, lemma_lookup_name, HttpError,
};
use crate::message::{Method, Request, RequestHead, Response};
use crate::net::{IpAddr, SocketAddr};
use crate::request::{is_read_request, is_write_request};
use crate::server::{
    counted, is_handling, is_opening, is_stream_response, session_id_of, Admitted, Config,
    RequestError, ServerView, SessionArgs, Stats, WriteView,
};
use crate::session::{frame_of, ReadOutcome, SessionView, StreamView};
use crate::session_id::{law_uuid_text_round_trip, uuid_of_text, uuid_text, Uuid};
use crate::text::{lower, lower_char};
use crate::time::{deadline_after, has_come, Duration, Instant};
use crate::tls_stream::{invalid_hostname_message, offers_h2, server_name_of, TlsError};
use crate::tunnel::{data_of, pumped, took_pieces, Piece, PumpStep};
use crate::uri::{parsed_uri, plain_host, Uri, UriParts};
use crate::{DomainFronting, Error, FrontingView};

verus! {

// Application protocols.
/// HTTP/2 is offered as soon as `h2` stands anywhere in the list.
pub proof fn law_h2_anywhere(before: Seq<Vec<u8>>, h2: Vec<u8>, behind: Seq<Vec<u8>>)
    requires
        h2@ == seq![104u8, 50u8],
    ensures
        offers_h2(before.push(h2) + behind),
{
    let all = before.push(h2) + behind;
    assert(all[before.len() as int] == h2);
}

/// A list of one protocol offers HTTP/2 exactly where that is `h2`, and no protocol offers
/// nothing.
pub proof fn law_h2_alone(protocol: Vec<u8>)
    ensures
        offers_h2(seq![protocol]) <==> protocol@ == seq![104u8, 50u8],
        !offers_h2(Seq::empty()),
{
    assert(seq![protocol][0] == protocol);
}

/// Two lists offer HTTP/2 together exactly where one of them does.
pub proof fn law_h2_in_parts(a: Seq<Vec<u8>>, b: Seq<Vec<u8>>)
    ensures
        offers_h2(a + b) <==> offers_h2(a) || offers_h2(b),
{
    let both = a + b;
    if offers_h2(a) {
        let i = choose|i: int| 0 <= i < a.len() && (#[trigger] a[i])@ == seq![104u8, 50u8];
        assert(both[i] == a[i]);
        law_h2_anywhere(both.take(i), both[i], both.skip(i + 1));
        assert(both.take(i).push(both[i]) + both.skip(i + 1) =~= both);
    }
    if offers_h2(b) {
        let i = choose|i: int| 0 <= i < b.len() && (#[trigger] b[i])@ == seq![104u8, 50u8];
        let j = a.len() + i;
        assert(both[j] == b[i]);
        law_h2_anywhere(both.take(j), both[j], both.skip(j + 1));
        assert(both.take(j).push(both[j]) + both.skip(j + 1) =~= both);
    }
    if offers_h2(both) {
        let i = choose|i: int| 0 <= i < both.len() && (#[trigger] both[i])@ == seq![104u8, 50u8];
        if i < a.len() {
            assert(a[i] == both[i]);
        } else {
            assert(b[i - a.len()] == both[i]);
        }
    }
}

// The front.
/// The host name of a front is the host part of its URI, whatever user information and port stand
/// beside it. Plain HTTP is the one scheme without TLS. The port is the one that is written, or
/// the usual one.
pub proof fn law_front(front: Uri)
    ensures
        front.host is Some ==> front@.host_name() == front.host->0@,
        front.host is None ==> front@.host_name().len() == 0,
        front@.wants_tls() <==> (front.scheme is Some ==> front.scheme->0@ != "http"@),
        front.port is Some ==> front@.port_number() == front.port->0,
        front.port is None ==> front@.port_number() == if front.scheme is Some
            && front.scheme->0@ == "http"@ {
            80u16
        } else {
            443
        },
{
}

/// The text of an optional part, where there is one.
pub open spec fn is_text_of(view: Option<Seq<char>>, part: Option<String>) -> bool {
    &&& view is Some <==> part is Some
    &&& part is Some ==> view->0 == part->0@
}

/// A URI is known by its parts, each by its own text.
pub proof fn law_uri_parts(uri: Uri)
    ensures
        is_text_of(uri@.scheme, uri.scheme),
        is_text_of(uri@.authority, uri.authority),
        is_text_of(uri@.host, uri.host),
        is_text_of(uri@.query, uri.query),
        uri@.port == uri.port,
        uri@.path == uri.path@,
        uri@.text == uri.text@,
{
}

/// Two fronts with the same host part have the same host name, whatever else differs.
pub proof fn law_front_host_is_the_host(a: UriParts, b: UriParts)
    requires
        a.host == b.host,
    ensures
        a.host_name() == b.host_name(),
{
}

/// What a fronting configuration says of its front.
pub proof fn law_fronting(fronting: FrontingView)
    ensures
        fronting.front.host is Some ==> fronting.front_host() == fronting.front.host->0,
        fronting.front.host is None ==> fronting.front_host().len() == 0,
        fronting.tls() <==> fronting.front.scheme != Some("http"@),
        fronting.tls() ==> fronting.scheme() == "https"@,
        !fronting.tls() ==> fronting.scheme() == "http"@,
        fronting.port() == if fronting.front.port is Some {
            fronting.front.port->0
        } else if fronting.front.scheme == Some("http"@) {
            80u16
        } else {
            443
        },
{
}

/// The comparison of URIs is an equivalence.
pub proof fn law_same_uri_is_an_equivalence(a: UriParts, b: UriParts, c: UriParts)
    ensures
        a.same(a),
        a.same(b) ==> b.same(a),
        a.same(b) && b.same(c) ==> a.same(c),
{
}

/// Two optional texts agree up to case: both are there, with the same lowercase, or neither is.
pub open spec fn agree(a: Option<Seq<char>>, b: Option<Seq<char>>) -> bool {
    &&& a is Some <==> b is Some
    &&& a is Some ==> lower(a->0) == lower(b->0)
}

/// URIs are equal exactly where they have the same path and query to the letter, and the same
/// scheme and authority up to case. How they are written out does not matter.
pub proof fn law_same_uri(a: UriParts, b: UriParts)
    ensures
        a.same(b) <==> a.path == b.path && a.query == b.query && agree(a.scheme, b.scheme) && agree(
            a.authority,
            b.authority,
        ),
{
}

/// Configurations are equal exactly where they lead to the same proxy under the same session key,
/// through equal fronts.
pub proof fn law_equal_fronting(a: DomainFronting, b: DomainFronting)
    ensures
        a.eq_spec(&b) <==> {
            &&& a@.proxy_host == b@.proxy_host
            &&& a@.session_key == b@.session_key
            &&& a@.front.same(b@.front)
        },
{
}

/// Configurations with a secret are equal exactly where they lead to the same proxy with the same
/// secret in the same header, through equal fronts.
pub proof fn law_equal_secret_fronting(a: secret::DomainFronting, b: secret::DomainFronting)
    ensures
        a.eq_spec(&b) <==> {
            &&& a@.proxy_host == b@.proxy_host
            &&& a@.auth_header_key == b@.auth_header_key
            &&& a@.auth_header_val == b@.auth_header_val
            &&& a@.front.same(b@.front)
        },
{
}

/// Configurations of a connection are equal exactly where they have one address and equal
/// fronting.
pub proof fn law_equal_proxy_config(a: ProxyConfig, b: ProxyConfig)
    ensures
        a.eq_spec(&b) <==> {
            &&& a@.addr == b@.addr
            &&& a@.fronting.proxy_host == b@.fronting.proxy_host
            &&& a@.fronting.session_key == b@.fronting.session_key
            &&& a@.fronting.front.same(b@.fronting.front)
        },
{
}

/// Equality of URIs is equality of what the library holds of them.
pub proof fn law_equal_uri(a: Uri, b: Uri)
    ensures
        a.eq_spec(&b) <==> a@.same(b@),
{
}

/// Lowercase differs from a text in its capital letters only, by 32, and is its own lowercase.
pub proof fn law_lower(text: Seq<char>)
    ensures
        lower(text).len() == text.len(),
        forall|i: int|
            0 <= i < text.len() ==> {
                let c = #[trigger] text[i];
                &&& 'A' <= c <= 'Z' ==> lower(text)[i] as int == c as int + 32
                &&& !('A' <= c <= 'Z') ==> lower(text)[i] == c
            },
        lower(lower(text)) == lower(text),
{
    assert forall|i: int| 0 <= i < text.len() implies {
        let c = #[trigger] text[i];
        &&& 'A' <= c <= 'Z' ==> lower(text)[i] as int == c as int + 32
        &&& !('A' <= c <= 'Z') ==> lower(text)[i] == c
    } by {
        assert(lower(text)[i] == lower_char(text[i]));
    }
    assert(lower(lower(text)) =~= lower(text));
}

// Connecting.
/// A connection in the making begins with the first stream, and keeps what it was made for.
pub proof fn law_connecting_starts(
    proxy: ProxyConfigView,
    version: Version,
    offered: Option<bool>,
)
    ensures
        ({
            let connecting = ConnectingView::start(proxy, version, offered);
            &&& connecting.step is Dial
            &&& connecting.step->Dial_stream == 0
            &&& connecting.proxy.addr == proxy.addr
            &&& connecting.proxy.fronting == proxy.fronting
            &&& connecting.version == version
            &&& connecting.offers_h2 == offered
        }),
{
}

/// HTTP/2 takes one stream, for both directions. HTTP/1.1 takes one per direction.
pub proof fn law_streams(version: Version)
    ensures
        version is Http2 <==> version.streams() == 1,
        version is Http1_1 <==> version.streams() == 2,
{
}

/// With TLS, open streams lead to a handshake for the host part of the front's URI, and for
/// nothing else of the URI, wherever that is a server name and the list of protocols fits.
pub proof fn law_handshakes_are_for_the_host<H>(
    proxy: ProxyConfigView,
    version: Version,
    protocols: Seq<Vec<u8>>,
    host: Seq<char>,
    result: Result<ConnectingView, Error<H>>,
)
    requires
        proxy.fronting.front.host is Some ==> proxy.fronting.front.host->0 == host,
        proxy.fronting.front.host is None ==> host.len() == 0,
        ConnectingView::start(proxy, version, Some(offers_h2(protocols))).streams_open(result),
    ensures
        match result {
            Ok(after) => {
                &&& offers_h2(protocols) <==> version is Http2
                &&& server_name_of(host) == Some(after.server_name)
                &&& after.step == Step::Secure { stream: 0 }
                &&& after.proxy == proxy
                &&& after.version == version
            },
            Err(Error::MisconfiguredAlpn) => !(offers_h2(protocols) <==> version is Http2),
            Err(Error::Tls(TlsError::InvalidInput(message))) => {
                &&& offers_h2(protocols) <==> version is Http2
                &&& server_name_of(host) is None
                &&& message@ == "invalid hostname \""@ + host + "\""@
            },
            Err(_) => false,
        },
{
    if proxy.fronting.front.host is None {
        assert(host =~= Seq::empty());
    }
}

/// What is said of a connection in the making is said of its state.
pub proof fn law_connecting_view<H>(connecting: Connecting, error: Error<H>)
    ensures
        connecting_view::<H>(Ok(connecting)) == Ok::<ConnectingView, Error<H>>(connecting@),
        connecting_view::<H>(Err(error)) == Err::<ConnectingView, Error<H>>(error),
{
}

/// With `h2` anywhere in the list HTTP/2 goes on to TLS, and HTTP/1.1 is refused. Without it, it
/// is the other way round.
pub proof fn law_alpn<H>(
    proxy: ProxyConfigView,
    before: Seq<Vec<u8>>,
    h2: Vec<u8>,
    behind: Seq<Vec<u8>>,
    without: Seq<Vec<u8>>,
    with_http2: Result<ConnectingView, Error<H>>,
    with_http1_1: Result<ConnectingView, Error<H>>,
    without_http2: Result<ConnectingView, Error<H>>,
    without_http1_1: Result<ConnectingView, Error<H>>,
)
    requires
        h2@ == seq![104u8, 50u8],
        forall|i: int| 0 <= i < without.len() ==> (#[trigger] without[i])@ != seq![104u8, 50u8],
        ({
            let list = before.push(h2) + behind;
            &&& ConnectingView::start(proxy, Version::Http2, Some(offers_h2(list))).streams_open(
                with_http2,
            )
            &&& ConnectingView::start(proxy, Version::Http1_1, Some(offers_h2(list))).streams_open(
                with_http1_1,
            )
            &&& ConnectingView::start(
                proxy,
                Version::Http2,
                Some(offers_h2(without)),
            ).streams_open(without_http2)
            &&& ConnectingView::start(
                proxy,
                Version::Http1_1,
                Some(offers_h2(without)),
            ).streams_open(without_http1_1)
        }),
    ensures
        with_http2 != Err::<ConnectingView, Error<H>>(Error::MisconfiguredAlpn),
        with_http1_1 == Err::<ConnectingView, Error<H>>(Error::MisconfiguredAlpn),
        without_http2 == Err::<ConnectingView, Error<H>>(Error::MisconfiguredAlpn),
        without_http1_1 != Err::<ConnectingView, Error<H>>(Error::MisconfiguredAlpn),
{
    law_h2_anywhere(before, h2, behind);
}

/// Without TLS, open streams lead to the HTTP handshake, and nothing else changes.
pub proof fn law_no_tls<H>(before: ConnectingView, result: Result<ConnectingView, Error<H>>)
    requires
        before.offers_h2 is None,
        before.streams_open(result),
    ensures
        result is Ok,
        result->Ok_0.step == Step::Handshake,
        result->Ok_0.proxy == before.proxy,
        result->Ok_0.version == before.version,
        result->Ok_0.offers_h2 is None,
{
}

/// The message for a bad host name quotes the name.
pub proof fn law_invalid_hostname(domain: Seq<char>)
    ensures
        invalid_hostname_message(domain) == "invalid hostname \""@ + domain + "\""@,
{
}

// Addresses.
/// An address is made of its IP address and its port, and gives the IP address back.
pub proof fn law_socket_addr(ip: IpAddr, port: u16)
    ensures
        SocketAddr::of(ip, port).ip_part() == ip,
        ip is V4 ==> SocketAddr::of(ip, port) is V4 && SocketAddr::of(ip, port)->V4_port == port
            && SocketAddr::of(ip, port)->v4 == ip->V4_0,
        ip is V6 ==> SocketAddr::of(ip, port) is V6 && SocketAddr::of(ip, port)->V6_port == port
            && SocketAddr::of(ip, port)->v6 == ip->V6_0 && SocketAddr::of(ip, port)->flowinfo == 0
            && SocketAddr::of(ip, port)->scope_id == 0,
{
}

/// Every address of a lookup gives its IP address, in its place, whatever its port, flow
/// information and scope.
pub proof fn law_resolved(addrs: Seq<SocketAddr>, i: int)
    requires
        0 <= i < addrs.len(),
    ensures
        DefaultDnsResolver::ips(addrs).len() == addrs.len(),
        addrs[i] is V4 ==> DefaultDnsResolver::ips(addrs)[i] == IpAddr::V4(addrs[i]->v4),
        addrs[i] is V6 ==> DefaultDnsResolver::ips(addrs)[i] == IpAddr::V6(addrs[i]->v6),
{
}

// Buffers.
/// Buffers are merged in their order: what two lists merge to, one behind the other, is what they
/// merge to together, and a single buffer stays as it is.
pub proof fn law_merged(a: Seq<&[u8]>, b: Seq<&[u8]>, single: &[u8])
    ensures
        merged(a + b) == merged(a) + merged(b),
        merged(seq![single]) == single@,
        merged(Seq::<&[u8]>::empty()).len() == 0,
    decreases b.len(),
{
    assert(seq![single].drop_last() =~= Seq::<&[u8]>::empty());
    assert(merged(seq![single].drop_last()) =~= Seq::<u8>::empty());
    assert(merged(seq![single]) =~= single@);
    if b.len() == 0 {
        assert(a + b =~= a);
        assert(merged(a) + merged(b) =~= merged(a));
    } else {
        law_merged(a, b.drop_last(), single);
        assert((a + b).drop_last() =~= a + b.drop_last());
        assert((a + b).last() == b.last());
        assert(merged(a) + merged(b.drop_last()) + b.last()@ =~= merged(a) + (merged(
            b.drop_last(),
        ) + b.last()@));
    }
}

// The pumps of a connection.
/// A fresh connection has both its pumps under one session and one configuration. Nothing is
/// asked, sent or received yet, and the first write may open the session.
pub proof fn law_fresh_connection(
    connection: ProxyConnection,
    session_id: Uuid,
    fronting: FrontingView,
)
    requires
        connection.is_fresh(session_id, fronting),
    ensures
        connection.incoming@.fronting == fronting,
        connection.incoming@.session_id == session_id,
        connection.incoming@.state == IncomingState::Requesting,
        connection.incoming@.received.len() == 0,
        connection.outgoing@.fronting == fronting,
        connection.outgoing@.session_id == session_id,
        connection.outgoing@.state == OutgoingState::Ready,
        connection.outgoing@.first,
        connection.outgoing@.in_flight.len() == 0,
        connection.outgoing@.delivered.len() == 0,
{
}

/// Whether one of the steps is an acknowledgement.
pub open spec fn any_acknowledged(steps: Seq<PumpStep>) -> bool {
    exists|i: int| 0 <= i < steps.len() && (#[trigger] steps[i]) is Acknowledged
}

/// Nothing that happens to the pumps changes their session or their configuration. Only an
/// acknowledgement ends the time in which a write may open the session.
proof fn lemma_pumps_keep(incoming: IncomingView, outgoing: OutgoingView, steps: Seq<PumpStep>)
    ensures
        ({
            let (later_incoming, later_outgoing) = pumped(incoming, outgoing, steps);
            &&& later_incoming.session_id == incoming.session_id
            &&& later_incoming.fronting == incoming.fronting
            &&& later_outgoing.session_id == outgoing.session_id
            &&& later_outgoing.fronting == outgoing.fronting
            &&& later_outgoing.first <==> outgoing.first && !any_acknowledged(steps)
        }),
    decreases steps.len(),
{
    if steps.len() > 0 {
        let front = steps.drop_last();
        lemma_pumps_keep(incoming, outgoing, front);
        if any_acknowledged(front) {
            let i = choose|i: int| 0 <= i < front.len() && (#[trigger] front[i]) is Acknowledged;
            assert(steps[i] is Acknowledged);
        }
        if any_acknowledged(steps) {
            let i = choose|i: int| 0 <= i < steps.len() && (#[trigger] steps[i]) is Acknowledged;
            if i < front.len() {
                assert(front[i] is Acknowledged);
            }
        }
        if steps.last() is Acknowledged {
            assert(steps[steps.len() - 1] is Acknowledged);
        }
    }
}

/// The target of a request to the proxy of a configuration.
pub open spec fn proxy_target(fronting: FrontingView, path: Uuid) -> Seq<char> {
    (if fronting.front.scheme == Some("http"@) {
        "http"@
    } else {
        "https"@
    }) + "://"@ + fronting.proxy_host + "/"@ + uuid_text(path.bits)
}

/// A request goes to the proxy of a configuration, under a session: it has its host as first
/// `Host` header and in its target, and the session identifier as last value of the session
/// header. A proxy host of letters, digits, hyphens and dots stays in the target as it is written.
pub open spec fn goes_to_the_proxy(
    request: Request,
    fronting: FrontingView,
    session_id: Uuid,
    path: Uuid,
) -> bool {
    let headers = header_values(request.headers);
    let target = proxy_target(fronting, path);
    let key = lower(fronting.session_key);
    &&& headers.contains_key("host"@)
    &&& headers["host"@].len() > 0
    &&& headers["host"@][0] == encode_utf8(fronting.proxy_host)
    &&& headers.contains_key(key)
    &&& headers[key].len() > 0
    &&& headers[key].last() == encode_utf8(uuid_text(session_id.bits))
    &&& parsed_uri(target) is Some
    &&& request.uri@ == parsed_uri(target)->0.text
    &&& plain_host(fronting.proxy_host) && fronting.proxy_host.len() <= 65000 ==> request.uri@
        == target
}

/// Every write that a connection ever builds, whatever has happened to its pumps, goes to the
/// proxy of the configuration that the connection was started with, under its session, with the
/// chunk as body. It is a `POST` until the first acknowledgement, and a `PATCH` from then on.
pub proof fn law_writes_of_a_connection(
    connection: ProxyConnection,
    fronting: FrontingView,
    session_id: Uuid,
    steps: Seq<PumpStep>,
    path: Uuid,
    chunk: Seq<u8>,
    write: Request,
)
    requires
        connection.is_fresh(session_id, fronting),
        ({
            let outgoing = pumped(connection.incoming@, connection.outgoing@, steps).1;
            is_write_request(
                outgoing.fronting,
                outgoing.session_id,
                path,
                chunk,
                outgoing.first,
                Ok(write),
            )
        }),
    ensures
        goes_to_the_proxy(write, fronting, session_id, path),
        write.method == if any_acknowledged(steps) {
            Method::Patch
        } else {
            Method::Post
        },
        write.body@ == chunk,
        header_values(write.headers).contains_key("content-type"@),
        header_values(write.headers)["content-type"@][0] == encode_utf8(
            "application/octet-stream"@,
        ),
        forall|name: Seq<char>| #[trigger]
            header_values(write.headers).contains_key(name) ==> name == "host"@ || name
                == "content-type"@ || name == lower(fronting.session_key),
{
    lemma_pumps_keep(connection.incoming@, connection.outgoing@, steps);
    lemma_fixed_names();
    reveal_strlit("host");
    reveal_strlit("content-type");
    assert("host"@.len() != "content-type"@.len());
}

/// Every read that a connection ever builds, whatever has happened to its pumps, goes to the proxy
/// of the configuration that the connection was started with, under its session. It is a `GET`
/// without a body.
pub proof fn law_reads_of_a_connection(
    connection: ProxyConnection,
    fronting: FrontingView,
    session_id: Uuid,
    steps: Seq<PumpStep>,
    path: Uuid,
    read: Request,
)
    requires
        connection.is_fresh(session_id, fronting),
        ({
            let incoming = pumped(connection.incoming@, connection.outgoing@, steps).0;
            is_read_request(incoming.fronting, incoming.session_id, path, Ok(read))
        }),
    ensures
        goes_to_the_proxy(read, fronting, session_id, path),
        read.method == Method::Get,
        read.body@.len() == 0,
        header_values(read.headers).contains_key("accept"@),
        header_values(read.headers)["accept"@][0] == encode_utf8("*/*"@),
        forall|name: Seq<char>| #[trigger]
            header_values(read.headers).contains_key(name) ==> name == "host"@ || name
                == "accept"@ || name == lower(fronting.session_key),
{
    lemma_pumps_keep(connection.incoming@, connection.outgoing@, steps);
    lemma_fixed_names();
    reveal_strlit("host");
    reveal_strlit("accept");
    assert("host"@.len() != "accept"@.len());
}

/// A request can be built exactly where its target is a URI, the proxy host a header value and the
/// session key a header name, and the error says which of these fails first.
pub proof fn law_when_requests_are_built(
    fronting: FrontingView,
    session_id: Uuid,
    path: Uuid,
    body: Seq<u8>,
    first: bool,
    write: Result<Request, HttpError>,
    read: Result<Request, HttpError>,
)
    requires
        is_write_request(fronting, session_id, path, body, first, write),
        is_read_request(fronting, session_id, path, read),
    ensures
        ({
            let expected = if parsed_uri(proxy_target(fronting, path)) is None {
                Some(HttpError::InvalidUri)
            } else if !is_header_value(fronting.proxy_host) {
                Some(HttpError::InvalidHeaderValue)
            } else if !is_header_name(fronting.session_key) {
                Some(HttpError::InvalidHeaderName)
            } else {
                None
            };
            &&& expected is None <==> write is Ok
            &&& expected is None <==> read is Ok
            &&& write is Err ==> expected == Some(write->Err_0)
            &&& read is Err ==> expected == Some(read->Err_0)
        }),
        plain_host(fronting.proxy_host) && fronting.proxy_host.len() <= 65000 && is_header_name(
            fronting.session_key,
        ) ==> write is Ok && read is Ok,
{
}

/// A step of the outgoing pump touches its state and its data only: a chunk that is sent is what
/// is in flight, an acknowledgement delivers just that, and an end delivers nothing.
pub proof fn law_outgoing_steps(outgoing: OutgoingView, chunk: Seq<u8>)
    ensures
        outgoing.sent(chunk).in_flight == chunk,
        outgoing.sent(chunk).delivered == outgoing.delivered,
        outgoing.sent(chunk).first == outgoing.first,
        outgoing.sent(chunk).acknowledged().delivered == outgoing.delivered + chunk,
        outgoing.sent(chunk).acknowledged().in_flight.len() == 0,
        !outgoing.sent(chunk).acknowledged().first,
        outgoing.sent(chunk).ended().delivered == outgoing.delivered,
        outgoing.ended().first == outgoing.first,
        outgoing.ended().session_id == outgoing.session_id,
        outgoing.ended().fronting == outgoing.fronting,
{
}

/// A step of the incoming pump touches its state and its data only: data goes behind what there
/// was, and nothing else adds any.
pub proof fn law_incoming_steps(incoming: IncomingView, data: Seq<u8>)
    ensures
        incoming.asked().state == IncomingState::Waiting,
        incoming.asked().received == incoming.received,
        incoming.responded().state == IncomingState::Streaming,
        incoming.responded().received == incoming.received,
        incoming.got(data).state == incoming.state,
        incoming.got(data).received == incoming.received + data,
        incoming.ended().state == IncomingState::Ended,
        incoming.ended().received == incoming.received,
{
}

// Points in time.
/// A timeout runs out its own span after its start, if the clock gets there, and has run out from
/// then on. Without a timeout there is no deadline.
pub proof fn law_deadlines(span: Duration, start: Instant, now: Instant)
    ensures
        start.nanos + span.nanos <= u128::MAX ==> deadline_after(Some(span), start) is Some
            && deadline_after(Some(span), start)->0.nanos == start.nanos + span.nanos,
        start.nanos + span.nanos > u128::MAX ==> deadline_after(Some(span), start) is None,
        deadline_after(None, start) is None,
        start.spec_after(span) == deadline_after(Some(span), start),
        has_come(deadline_after(Some(span), start), now) <==> start.nanos + span.nanos
            <= now.nanos,
        has_come(Some(start), now) <==> start.nanos <= now.nanos,
        !has_come(None, now),
{
}

// Sessions.
/// What happens to a session.
pub ghost enum SessionStep {
    /// A sign of life.
    Pet { at: Instant },
    /// Bytes were written to upstream.
    Write { bytes: Seq<u8>, at: Instant },
    /// A read from upstream gave a frame, or none.
    Frame { frame: bool, at: Instant },
    /// A request took the read half.
    Read,
}

/// A session after several steps.
pub open spec fn lived<Rd, Wr>(
    session: SessionView<Rd, Wr>,
    steps: Seq<SessionStep>,
) -> SessionView<Rd, Wr>
    decreases steps.len(),
{
    if steps.len() == 0 {
        session
    } else {
        let before = lived(session, steps.drop_last());
        match steps.last() {
            SessionStep::Pet { at } => before.petted(at),
            SessionStep::Write { bytes, at } => before.wrote(bytes, at),
            SessionStep::Frame { frame, at } => before.streamed(frame, at),
            SessionStep::Read => before.read(),
        }
    }
}

/// The last sign of life: of the steps, or else the start.
pub open spec fn last_alive(start: Instant, steps: Seq<SessionStep>) -> Instant
    decreases steps.len(),
{
    if steps.len() == 0 {
        start
    } else {
        match steps.last() {
            SessionStep::Pet { at } => at,
            SessionStep::Write { at, .. } => at,
            SessionStep::Frame { frame: true, at } => at,
            _ => last_alive(start, steps.drop_last()),
        }
    }
}

/// Whether one of the steps is a read request.
pub open spec fn any_read(steps: Seq<SessionStep>) -> bool
    decreases steps.len(),
{
    steps.len() > 0 && (steps.last() is Read || any_read(steps.drop_last()))
}

/// All bytes that steps write, one behind the other.
pub open spec fn bytes_written(steps: Seq<SessionStep>) -> Seq<u8>
    decreases steps.len(),
{
    if steps.len() == 0 {
        Seq::empty()
    } else {
        match steps.last() {
            SessionStep::Write { bytes, .. } => bytes_written(steps.drop_last()) + bytes,
            _ => bytes_written(steps.drop_last()),
        }
    }
}

/// The whole life of a session, whatever happens to it in whatever order. Its identifier, its
/// write half, its idle timeout and its total deadline stay what it was started with. The first
/// read request gets the read half, however much was written before, and no other does. Upstream
/// gets all bytes in their order. The session has expired exactly when its idle timeout has passed
/// since the last sign of life, the start being the first, or when its total deadline has come,
/// and neither of the two makes the other void.
pub proof fn law_session_life<Rd, Wr>(
    args: SessionArgs,
    reader: Rd,
    writer: Wr,
    start: Instant,
    steps: Seq<SessionStep>,
    now: Instant,
)
    ensures
        ({
            let session = lived(SessionView::start(args, reader, writer, start), steps);
            let alive = last_alive(start, steps);
            &&& session.session_id == args.session_id
            &&& session.writer == writer
            &&& session.reader == if any_read(steps) {
                None
            } else {
                Some(reader)
            }
            &&& session.idle_timeout == args.idle_timeout
            &&& session.total_deadline == args.total_deadline
            &&& session.sent == bytes_written(steps)
            &&& session.idle_deadline is Some <==> args.idle_timeout is Some && alive.nanos
                + args.idle_timeout->0.nanos <= u128::MAX
            &&& session.idle_deadline is Some ==> session.idle_deadline->0.nanos == alive.nanos
                + args.idle_timeout->0.nanos
            &&& session.is_expired(now) <==> {
                ||| args.idle_timeout is Some && alive.nanos + args.idle_timeout->0.nanos
                    <= now.nanos
                ||| args.total_deadline is Some && args.total_deadline->0.nanos <= now.nanos
            }
        }),
    decreases steps.len(),
{
    if steps.len() > 0 {
        law_session_life(args, reader, writer, start, steps.drop_last(), now);
    }
}

/// A frame has all bytes that were read, and there is one exactly where at least one byte was.
pub proof fn law_frames(outcome: ReadOutcome)
    ensures
        frame_of(outcome) is Some <==> outcome is Data && outcome->Data_0@.len() > 0,
        frame_of(outcome) is Some ==> frame_of(outcome)->0@ == outcome->Data_0@,
{
}

/// A stream gives the bytes of its frames in their order, and keeps its read half.
pub proof fn law_stream<Rd>(reader: Rd, stream: StreamView<Rd>, bytes: Seq<u8>)
    ensures
        StreamView::start(reader).reader == reader,
        StreamView::start(reader).streamed.len() == 0,
        stream.sent(bytes).reader == stream.reader,
        stream.sent(bytes).streamed == stream.streamed + bytes,
{
}

// The server.
/// Methods are told apart by their names, and there are no others.
pub proof fn law_methods(name: Seq<char>, method: Method)
    ensures
        Method::named(name) == Some(method) <==> name == method.name(),
        Method::named(name) is None <==> name != "GET"@ && name != "POST"@ && name != "PATCH"@,
        Method::named("GET"@) == Some(Method::Get),
        Method::named("POST"@) == Some(Method::Post),
        Method::named("PATCH"@) == Some(Method::Patch),
{
    reveal_strlit("GET");
    reveal_strlit("POST");
    reveal_strlit("PATCH");
    assert("GET"@.len() == 3);
    assert("POST"@.len() == 4);
    assert("PATCH"@.len() == 5);
}

/// The session identifier is read from the first value under the session key, in any case of the
/// key, from there only, and only where that value is the text of an identifier. Every identifier
/// can be read.
pub proof fn law_session_ids(
    headers: Map<Seq<char>, Seq<Seq<u8>>>,
    session_key: Seq<char>,
    other_key: Seq<char>,
    id: Uuid,
)
    requires
        is_header_name(session_key),
        is_header_name(other_key),
    ensures
        !headers.contains_key(lower(session_key)) ==> session_id_of(headers, session_key) is None,
        headers.contains_key(lower(session_key)) ==> {
            let value = headers[lower(session_key)][0];
            &&& session_id_of(headers, session_key) == Some(id) <==> is_visible(value)
                && uuid_of_text(ascii_text(value)) == Some(id.bits)
            &&& value == uuid_text(id.bits).map_values(|c: char| c as u8) ==> session_id_of(
                headers,
                session_key,
            ) == Some(id)
        },
        lower(other_key) == lower(session_key) ==> session_id_of(headers, other_key)
            == session_id_of(headers, session_key),
{
    lemma_lookup_name(session_key);
    lemma_lookup_name(other_key);
    law_uuid_text_round_trip(id.bits);
    let text = uuid_text(id.bits);
    let value = text.map_values(|c: char| c as u8);
    assert forall|i: int| 0 <= i < text.len() implies ascii_text(value)[i] == text[i] by {
        assert('-' <= text[i] <= 'f');
    }
    assert(ascii_text(value) =~= text);
    assert(is_visible(value)) by {
        assert forall|i: int| 0 <= i < value.len() implies 32 <= (#[trigger] value[i]) < 127 by {
            assert('-' <= text[i] <= 'f');
        }
    }
}

/// A key under which nothing can be found, or that is no header name and not too long to be one,
/// gives no session identifier. Otherwise the first value decides, and it alone.
pub proof fn law_session_id_is_the_first_value(
    headers: Map<Seq<char>, Seq<Seq<u8>>>,
    session_key: Seq<char>,
)
    ensures
        encode_utf8(session_key).len() <= 64 && !is_header_name(session_key) ==> session_id_of(
            headers,
            session_key,
        ) is None,
        first_value(headers, session_key) is None ==> session_id_of(headers, session_key) is None,
        first_value(headers, session_key) is Some ==> {
            let value = first_value(headers, session_key)->0;
            let id = uuid_of_text(ascii_text(value));
            &&& !is_visible(value) || id is None ==> session_id_of(headers, session_key) is None
            &&& is_visible(value) && id is Some ==> session_id_of(headers, session_key) == Some(
                Uuid { bits: id->0 },
            )
        },
{
}

/// The session of a request that is let through is the one that was alive, and then nothing
/// changes, or one that was started for it alone, and then the table refers to it.
pub proof fn law_admitted<S, R, U: Fn(&R) -> Option<S>, F: FnOnce(SessionArgs) -> (S, R)>(
    before: ServerView<R>,
    after: ServerView<R>,
    head: RequestHead,
    now: Instant,
    upgrade: U,
    spawn: F,
    admitted: Admitted<S>,
)
    requires
        is_handling(before, after, head, now, upgrade, spawn, Ok(admitted)),
    ensures
        ({
            let bits = admitted.session_id.bits;
            ||| {
                &&& before.sessions.contains_key(bits)
                &&& upgrade.ensures((&before.sessions[bits],), Some(admitted.session))
                &&& after == before
            }
            ||| {
                &&& head.method@ == "GET"@ || head.method@ == "POST"@
                &&& before.sessions.contains_key(bits) ==> upgrade.ensures(
                    (&before.sessions[bits],),
                    None,
                )
                &&& after.sessions.contains_key(bits)
                &&& after.sessions == before.sessions.insert(bits, after.sessions[bits])
                &&& after.config == before.config
                &&& after.stats == before.stats
                &&& spawn.ensures(
                    (before.session_args(admitted.session_id, now),),
                    (admitted.session, after.sessions[bits]),
                )
            }
        }),
{
    law_methods(head.method@, Method::Get);
    law_methods(head.method@, Method::Post);
    law_methods(head.method@, Method::Patch);
}

/// A `GET` or a `POST` that names an unknown session opens it.
pub proof fn law_unknown_sessions_are_opened<S, R, U: Fn(&R) -> Option<S>>(
    before: ServerView<R>,
    head: RequestHead,
    upgrade: U,
    id: Uuid,
)
    requires
        head.method@ == "GET"@ || head.method@ == "POST"@,
        session_id_of(header_values(head.headers), before.config.session_key) == Some(id),
        !before.sessions.contains_key(id.bits),
    ensures
        is_opening(before, head, upgrade, id),
{
    law_methods(head.method@, Method::Get);
}

/// When a request is refused, and with which error. A `GET` or a `POST` with an identifier never
/// is.
pub proof fn law_refusals<S, R, U: Fn(&R) -> Option<S>, F: FnOnce(SessionArgs) -> (S, R)>(
    before: ServerView<R>,
    after: ServerView<R>,
    head: RequestHead,
    now: Instant,
    upgrade: U,
    spawn: F,
    result: Result<Admitted<S>, RequestError>,
)
    requires
        is_handling(before, after, head, now, upgrade, spawn, result),
    ensures
        ({
            let known = head.method@ == "GET"@ || head.method@ == "POST"@ || head.method@
                == "PATCH"@;
            let id = session_id_of(header_values(head.headers), before.config.session_key);
            &&& !known ==> result == Err::<Admitted<S>, RequestError>(
                RequestError::UnexpectedMethod(head.method),
            )
            &&& known && id is None ==> result == Err::<Admitted<S>, RequestError>(
                RequestError::InvalidSessionId,
            )
            &&& known && id is Some && head.method@ != "PATCH"@ ==> result is Ok
            &&& head.method@ == "PATCH"@ && id is Some && !before.sessions.contains_key(id->0.bits)
                ==> result == Err::<Admitted<S>, RequestError>(RequestError::NoSession)
            &&& head.method@ == "PATCH"@ && id is Some && before.sessions.contains_key(id->0.bits)
                && result is Err ==> {
                &&& result->Err_0 == RequestError::ExpiredSession
                &&& upgrade.ensures((&before.sessions[id->0.bits],), None)
            }
            &&& result is Ok ==> {
                &&& id == Some(result->Ok_0.session_id)
                &&& result->Ok_0.method.name() == head.method@
            }
        }),
{
    law_methods(head.method@, Method::Get);
    law_methods(head.method@, Method::Post);
    law_methods(head.method@, Method::Patch);
}

/// What an error says.
pub proof fn law_error_texts(error: RequestError)
    ensures
        error is UnexpectedMethod ==> error.text() == "Unexpected HTTP method: "@
            + error->UnexpectedMethod_0@,
        error is InvalidSessionId ==> error.text() == "Invalid/missing session ID"@,
        error is ExpiredSession ==> error.text() == "Expired session"@,
        error is NoSession ==> error.text() == "No session"@,
        error is Body ==> error.text() == error->Body_0@,
        error is NoReply ==> error.text() == error->NoReply_0@,
        error is MultipleReads ==> error.text() == "Multiple read requests are not allowed"@,
{
}

/// A configuration is known by its settings, each by its own value.
pub proof fn law_config(config: Config)
    ensures
        config@.upstream == config.upstream,
        config@.session_key == config.session_key@,
        config@.total_timeout == config.total_timeout,
        config@.idle_timeout == config.idle_timeout,
{
}

/// A new session is started for the identifier of the request, to the upstream of the server, with
/// its idle timeout, and ends at the latest when the total timeout has passed since the opening.
pub proof fn law_session_args<R>(server: ServerView<R>, id: Uuid, opened: Instant)
    ensures
        ({
            let args = server.session_args(id, opened);
            let total = server.config.total_timeout;
            &&& args.session_id == id
            &&& args.upstream == server.config.upstream
            &&& args.idle_timeout == server.config.idle_timeout
            &&& args.total_deadline is Some <==> total is Some && opened.nanos + total->0.nanos
                <= u128::MAX
            &&& args.total_deadline is Some ==> args.total_deadline->0.nanos == opened.nanos
                + total->0.nanos
        }),
{
}

/// A write request is answered `204` exactly where its body has a byte, in whatever pieces that
/// arrived, and `400` otherwise. Each piece goes to the session whole.
pub proof fn law_write_requests(write: WriteView, pieces: Seq<Piece>, piece: Seq<u8>)
    ensures
        took_pieces(WriteView::start(), pieces).offered == data_of(pieces),
        data_of(pieces).len() > 0 ==> took_pieces(WriteView::start(), pieces).status() == 204,
        data_of(pieces).len() == 0 ==> took_pieces(WriteView::start(), pieces).status() == 400,
        write.took(piece).in_flight == piece,
        write.took(piece).offered == write.offered + piece,
        write.replied().offered == write.offered,
        write.replied().in_flight.len() == 0,
    decreases pieces.len(),
{
    if pieces.len() == 0 {
        assert(WriteView::start().offered =~= data_of(pieces));
    } else {
        law_write_requests(write, pieces.drop_last(), piece);
    }
}

/// The response that streams has status `200` and just these three headers.
pub proof fn law_stream_response(response: Response)
    requires
        is_stream_response(response),
    ensures
        response.status == 200,
        ({
            let headers = header_values(response.headers);
            &&& headers.contains_key("content-type"@)
            &&& headers["content-type"@] == seq![encode_utf8("application/octet-stream"@)]
            &&& headers.contains_key("cache-control"@)
            &&& headers["cache-control"@] == seq![
                encode_utf8("no-cache, no-store, no-transform"@),
            ]
            &&& headers.contains_key("transfer-encoding"@)
            &&& headers["transfer-encoding"@] == seq![encode_utf8("chunked"@)]
            &&& forall|name: Seq<char>| #[trigger]
                headers.contains_key(name) ==> name == "content-type"@ || name == "cache-control"@
                    || name == "transfer-encoding"@
        }),
{
    lemma_fixed_names();
    reveal_strlit("content-type");
    reveal_strlit("cache-control");
    reveal_strlit("transfer-encoding");
    assert("content-type"@.len() == 12);
    assert("cache-control"@.len() == 13);
    assert("transfer-encoding"@.len() == 17);
    let headers = header_values(response.headers);
    assert(headers["content-type"@] =~= seq![encode_utf8("application/octet-stream"@)]);
    assert(headers["cache-control"@] =~= seq![encode_utf8("no-cache, no-store, no-transform"@)]);
    assert(headers["transfer-encoding"@] =~= seq![encode_utf8("chunked"@)]);
}

/// A response without headers has the status that it was made with, and no header of any name.
pub proof fn law_bare_response(response: Response, status: u16, name: Seq<char>)
    requires
        response.is_bare(status),
    ensures
        response.status == status,
        !header_values(response.headers).contains_key(name),
{
}

/// Counting adds, and wraps around at the end of the counter.
pub proof fn law_counted(count: u64, more: nat)
    ensures
        count + more <= u64::MAX ==> counted(count, more) == count + more,
        count + more > u64::MAX ==> exists|turns: nat| #[trigger]
            (turns * 0x1_0000_0000_0000_0000) + counted(count, more) == count + more && turns >= 1,
{
    let m: int = 0x1_0000_0000_0000_0000;
    let total: int = count + more;
    vstd::arithmetic::div_mod::lemma_fundamental_div_mod(total, m);
    vstd::arithmetic::div_mod::lemma_mod_bound(total, m);
    if total > u64::MAX {
        let turns = (total / m) as nat;
        assert(turns >= 1);
        assert((turns * 0x1_0000_0000_0000_0000) + counted(count, more) == count + more);
    } else {
        vstd::arithmetic::div_mod::lemma_small_mod(total as nat, m as nat);
    }
}

/// Nothing is counted where nothing is taken.
pub proof fn law_count_nothing(stats: Stats)
    ensures
        counted(stats.bytes_tx, 0) == stats.bytes_tx,
        counted(stats.bytes_rx, 0) == stats.bytes_rx,
{
    law_counted(stats.bytes_tx, 0);
    law_counted(stats.bytes_rx, 0);
}

// The programs.
/// A request names its URL and its host, each where it belongs, and ends with an empty line.
pub proof fn law_get_request(url: Seq<char>, host: Seq<char>)
    ensures
        get_request_text(url, host) == "GET "@ + url + " HTTP/1.1\r\nHost: "@ + host
            + "\r\nConnection: close\r\n\r\n"@,
{
}

/// The URL that is given is fetched, whatever the host, and without one the root of the host.
pub proof fn law_url(url: Option<String>, host: Seq<char>)
    ensures
        url is Some ==> url_or_root(url, host) == url->0@,
        url is None ==> url_or_root(url, host) == "https://"@ + host + "/"@,
{
}

/// The first report is due at once. After a report the next is due five seconds later, and not
/// before, however many connections there are.
pub proof fn law_reports(connections: u64, last: Instant, now: Instant)
    ensures
        (Reporter { connections, last: None }).is_due(now),
        (Reporter { connections, last: Some(last) }).is_due(now) <==> last.nanos + 5_000_000_000
            <= now.nanos,
{
}

} // verus!
