//! The requests that the client sends.

use vstd::prelude::*;

use crate::header::{
    build_request, header_fault, header_values, is_header_name, is_header_value,
    lemma_fixed_names, lemma_fixed_values, lemma_printable_value, three_headers, HeaderText,
    HttpError,
};
use crate::message::{Method, Request};
use crate::session_id::{is_random_uuid, law_uuid_text_round_trip, uuid_text, Uuid};
use crate::uri::{parsed_uri, plain_host, plain_parts, plain_uri};
use crate::{DomainFronting, FrontingView};

verus! {

/// The target of a request: the proxy host, with a path that no cache has seen.
pub open spec fn target(fronting: FrontingView, path: Uuid) -> Seq<char> {
    fronting.scheme() + "://"@ + fronting.proxy_host + "/"@ + uuid_text(path.bits)
}

/// The header that names the proxy host.
pub open spec fn host_header(fronting: FrontingView) -> HeaderText {
    ("host"@, fronting.proxy_host)
}

/// The header that carries the session identifier.
pub open spec fn session_header(fronting: FrontingView, session_id: Uuid) -> HeaderText {
    (fronting.session_key, uuid_text(session_id.bits))
}

/// What is wrong with the headers of a fronting configuration, if anything.
pub open spec fn fronting_fault(fronting: FrontingView) -> Option<HttpError> {
    if !is_header_value(fronting.proxy_host) {
        Some(HttpError::InvalidHeaderValue)
    } else if !is_header_name(fronting.session_key) {
        Some(HttpError::InvalidHeaderName)
    } else {
        None
    }
}

/// The fronting configuration gives requests that can be built, whatever their path.
pub open spec fn is_plain(fronting: FrontingView) -> bool {
    &&& plain_host(fronting.proxy_host)
    &&& fronting.proxy_host.len() <= 65000
    &&& is_header_name(fronting.session_key)
}

/// What the building of a request gives, for its method, its middle header and its body.
pub open spec fn is_request(
    fronting: FrontingView,
    session_id: Uuid,
    path: Uuid,
    method: Method,
    middle: HeaderText,
    body: Seq<u8>,
    result: Result<Request, HttpError>,
) -> bool {
    &&& match result {
        Ok(request) => {
            &&& parsed_uri(target(fronting, path)) is Some
            &&& fronting_fault(fronting) is None
            &&& request.method == method
            &&& request.uri@ == parsed_uri(target(fronting, path))->0.text
            &&& header_values(request.headers) == three_headers(
                host_header(fronting),
                middle,
                session_header(fronting, session_id),
            )
            &&& request.body@ == body
        },
        Err(HttpError::InvalidUri) => parsed_uri(target(fronting, path)) is None,
        Err(error) => {
            &&& parsed_uri(target(fronting, path)) is Some
            &&& fronting_fault(fronting) == Some(error)
        },
    }
    &&& is_plain(fronting) ==> result is Ok && result->Ok_0.uri@ == target(fronting, path)
}

/// What the building of a request that writes `body` to a session gives.
pub open spec fn is_write_request(
    fronting: FrontingView,
    session_id: Uuid,
    path: Uuid,
    body: Seq<u8>,
    can_create_session: bool,
    result: Result<Request, HttpError>,
) -> bool {
    is_request(
        fronting,
        session_id,
        path,
        if can_create_session {
            Method::Post
        } else {
            Method::Patch
        },
        ("content-type"@, "application/octet-stream"@),
        body,
        result,
    )
}

/// What the building of a request that reads from a session gives.
pub open spec fn is_read_request(
    fronting: FrontingView,
    session_id: Uuid,
    path: Uuid,
    result: Result<Request, HttpError>,
) -> bool {
    is_request(
        fronting,
        session_id,
        path,
        Method::Get,
        ("accept"@, "*/*"@),
        Seq::empty(),
        result,
    )
}

/// The text of an identifier is a header value.
pub proof fn lemma_uuid_value(bits: u128)
    ensures
        is_header_value(uuid_text(bits)),
        vstd::utf8::encode_utf8(uuid_text(bits)) == uuid_text(bits).map_values(|c: char| c as u8),
{
    law_uuid_text_round_trip(bits);
    assert forall|i: int| 0 <= i < uuid_text(bits).len() implies ' ' <= #[trigger] uuid_text(
        bits,
    )[i] <= '~' by {}
    lemma_printable_value(uuid_text(bits));
}

/// A plain proxy host is a header value, and makes a target of the plainest kind.
proof fn lemma_plain_fronting(fronting: FrontingView, path: Uuid)
    requires
        is_plain(fronting),
    ensures
        is_header_value(fronting.proxy_host),
        ({
            let segment = "/"@ + uuid_text(path.bits);
            let uri = target(fronting, path);
            &&& plain_uri(uri, Some(fronting.scheme()), fronting.proxy_host, segment)
            &&& plain_parts(uri, Some(fronting.scheme()), fronting.proxy_host, segment).text == uri
        }),
{
    let host = fronting.proxy_host;
    assert forall|i: int| 0 <= i < host.len() implies ' ' <= #[trigger] host[i] <= '~' by {}
    lemma_printable_value(host);
    law_uuid_text_round_trip(path.bits);
    reveal_strlit("/");
    reveal_strlit("://");
    reveal_strlit("http");
    reveal_strlit("https");
    let segment = "/"@ + uuid_text(path.bits);
    assert forall|i: int| 1 <= i < segment.len() implies crate::uri::plain_char(
        #[trigger] segment[i],
    ) by {
        assert(segment[i] == uuid_text(path.bits)[i - 1]);
    }
    assert(target(fronting, path) =~= fronting.scheme() + "://"@ + host + segment);
}

/// Builds a request, for its method, its middle header and its body.
fn assemble(
    config: &DomainFronting,
    session_id: Uuid,
    path: Uuid,
    method: Method,
    middle: (&str, &str),
    body: Vec<u8>,
) -> (result: Result<Request, HttpError>)
    requires
        header_fault(middle.0@, middle.1@) is None,
    ensures
        is_request(config@, session_id, path, method, (middle.0@, middle.1@), body@, result),
{
    let mut uri = config.scheme().to_owned();
    uri.append("://");
    uri.append(config.proxy_host());
    uri.append("/");
    uri.append(path.to_text().as_str());
    let session = session_id.to_text();
    proof {
        lemma_fixed_names();
        lemma_uuid_value(session_id.bits);
        if is_plain(config@) {
            lemma_plain_fronting(config@, path);
        }
    }
    let built = build_request(
        method.as_str(),
        uri.as_str(),
        ("host", config.proxy_host()),
        middle,
        (config.session_key(), session.as_str()),
    );
    match built {
        Ok((_, uri, headers)) => Ok(Request { method, uri, headers, body }),
        Err(error) => Err(error),
    }
}

/// Builds the request that writes `body` to a session, under the given path.
pub fn write_request(
    config: &DomainFronting,
    session_id: Uuid,
    path: Uuid,
    body: Vec<u8>,
    can_create_session: bool,
) -> (result: Result<Request, HttpError>)
    ensures
        is_write_request(config@, session_id, path, body@, can_create_session, result),
{
    let method = if can_create_session {
        Method::Post
    } else {
        Method::Patch
    };
    proof {
        lemma_fixed_names();
        lemma_fixed_values();
    }
    assemble(
        config,
        session_id,
        path,
        method,
        ("content-type", "application/octet-stream"),
        body,
    )
}

/// Builds the request that reads from a session, under the given path.
pub fn read_request(config: &DomainFronting, session_id: Uuid, path: Uuid) -> (result: Result<
    Request,
    HttpError,
>)
    ensures
        is_read_request(config@, session_id, path, result),
{
    proof {
        lemma_fixed_names();
        lemma_fixed_values();
    }
    assemble(config, session_id, path, Method::Get, ("accept", "*/*"), Vec::new())
}

/// Builds the request that writes `body` to a session.
///
/// The path is random, to discourage proxies from caching the request.
pub fn create_write_request(
    config: &DomainFronting,
    session_id: Uuid,
    body: Vec<u8>,
    can_create_session: bool,
) -> (result: Result<Request, HttpError>)
    ensures
        exists|path: Uuid|
            is_random_uuid(path.bits) && #[trigger] is_write_request(
                config@,
                session_id,
                path,
                body@,
                can_create_session,
                result,
            ),
{
    let path = Uuid::new_v4();
    write_request(config, session_id, path, body, can_create_session)
}

/// Builds the request that reads from a session.
///
/// The path is random, to discourage proxies from caching the request.
pub fn create_read_request(config: &DomainFronting, session_id: Uuid) -> (result: Result<
    Request,
    HttpError,
>)
    ensures
        exists|path: Uuid|
            is_random_uuid(path.bits) && #[trigger] is_read_request(
                config@,
                session_id,
                path,
                result,
            ),
{
    let path = Uuid::new_v4();
    read_request(config, session_id, path)
}

} // verus!
