//! HTTP headers, and the building of HTTP messages.

use vstd::prelude::*;
use vstd::utf8::encode_utf8;

use crate::text::{lower, lower_char};
use crate::uri::{parsed_uri, plain_parts, plain_uri};

verus! {

/// A multimap from header names to values.
#[verifier::external_type_specification]
#[verifier::external_body]
#[verifier::reject_recursive_types(T)]
pub struct ExHeaderMap<T>(http::HeaderMap<T>);

/// The value of a header.
#[verifier::external_type_specification]
#[verifier::external_body]
pub struct ExHeaderValue(http::HeaderValue);

/// What a header map holds: for each name that occurs in it, as the map keeps it, the values in
/// the order in which they were added. Names are kept in lowercase.
pub uninterp spec fn header_values(
    headers: http::HeaderMap<http::HeaderValue>,
) -> Map<Seq<char>, Seq<Seq<u8>>>;

/// A character may stand in a header name.
pub open spec fn header_name_char(c: char) -> bool {
    'a' <= c <= 'z' || 'A' <= c <= 'Z' || '0' <= c <= '9' || c == '!' || c == '#' || c == '$' || c
        == '%' || c == '&' || c == '\'' || c == '*' || c == '+' || c == '-' || c == '.' || c == '^'
        || c == '_' || c == '`' || c == '|' || c == '~'
}

/// A text is a header name.
pub open spec fn is_header_name(name: Seq<char>) -> bool {
    &&& 1 <= name.len() <= 65535
    &&& forall|i: int| 0 <= i < name.len() ==> header_name_char(#[trigger] name[i])
}

/// A byte may stand in a header value.
pub open spec fn header_value_byte(b: u8) -> bool {
    b >= 32 && b != 127 || b == 9
}

/// A text is a header value.
pub open spec fn is_header_value(value: Seq<char>) -> bool {
    forall|i: int|
        0 <= i < encode_utf8(value).len() ==> header_value_byte(#[trigger] encode_utf8(value)[i])
}

/// Headers, with one more value behind those that its name has.
pub open spec fn appended(
    headers: Map<Seq<char>, Seq<Seq<u8>>>,
    name: Seq<char>,
    value: Seq<char>,
) -> Map<Seq<char>, Seq<Seq<u8>>> {
    let before = if headers.contains_key(lower(name)) {
        headers[lower(name)]
    } else {
        Seq::empty()
    };
    headers.insert(lower(name), before.push(encode_utf8(value)))
}

/// A byte of a header name as a map keeps it: a letter in lowercase, and zero for a byte that may
/// not stand in a name.
pub open spec fn folded_byte(b: u8) -> char {
    if header_name_char(b as char) {
        lower_char(b as char)
    } else {
        '\0'
    }
}

/// A text as a header map looks it up.
pub open spec fn folded(name: Seq<char>) -> Seq<char> {
    encode_utf8(name).map_values(|b: u8| folded_byte(b))
}

/// A text can be looked up in a header map: it is a header name, or it is a text of more than 64
/// bytes, which a lookup takes for a name without looking at its characters.
pub open spec fn is_lookup_name(name: Seq<char>) -> bool {
    let length = encode_utf8(name).len();
    &&& 1 <= length <= 65535
    &&& length <= 64 ==> is_header_name(name)
}

/// The first value under a name, whatever the case of its letters.
pub open spec fn first_value(
    headers: Map<Seq<char>, Seq<Seq<u8>>>,
    name: Seq<char>,
) -> Option<Seq<u8>> {
    if is_lookup_name(name) && headers.contains_key(folded(name)) {
        Some(headers[folded(name)][0])
    } else {
        None
    }
}

/// Looks a header up, through `http::HeaderMap::get`.
///
/// The claim is that it finds the first value that was added under the name, in any case of its
/// letters, and nothing where the name does not occur. A text of up to 64 bytes that is no header
/// name finds nothing. A longer one is not checked: it is looked up with a zero in place of each
/// byte that may not stand in a name, as a map keeps it that was filled under such a text.
#[verifier::external_body]
pub(crate) fn get_header(headers: &http::HeaderMap<http::HeaderValue>, name: &str) -> (value:
    Option<Vec<u8>>)
    ensures
        match value {
            Some(value) => first_value(header_values(*headers), name@) == Some(value@),
            None => first_value(header_values(*headers), name@) is None,
        },
{
    headers.get(name).map(|value| value.as_bytes().to_vec())
}

/// All bytes of a header value are visible ASCII characters or tabs.
pub open spec fn is_visible(value: Seq<u8>) -> bool {
    forall|i: int| 0 <= i < value.len() ==> 32 <= (#[trigger] value[i]) < 127 || value[i] == 9
}

/// The characters of ASCII bytes.
pub open spec fn ascii_text(value: Seq<u8>) -> Seq<char> {
    value.map_values(|b: u8| b as char)
}

/// Reads a header value as text, through `http::HeaderValue::to_str`.
///
/// The claim is that it accepts the values of visible ASCII characters and tabs and nothing
/// else, and keeps the characters.
#[verifier::external_body]
pub(crate) fn value_text(value: &Vec<u8>) -> (text: Option<String>)
    ensures
        match text {
            Some(text) => is_visible(value@) && text@ == ascii_text(value@),
            None => !is_visible(value@),
        },
{
    http::HeaderValue::from_bytes(value).ok()?.to_str().ok().map(str::to_owned)
}

/// Why a request cannot be built.
#[derive(Clone, Copy, Debug, PartialEq, Eq, Structural)]
pub enum HttpError {
    /// The target is no URI.
    InvalidUri,
    /// The name of a header is none.
    InvalidHeaderName,
    /// The value of a header is none.
    InvalidHeaderValue,
}

/// What is wrong with a header, if anything.
pub open spec fn header_fault(name: Seq<char>, value: Seq<char>) -> Option<HttpError> {
    if !is_header_name(name) {
        Some(HttpError::InvalidHeaderName)
    } else if !is_header_value(value) {
        Some(HttpError::InvalidHeaderValue)
    } else {
        None
    }
}

/// The name and the value of a header, by their characters.
pub type HeaderText = (Seq<char>, Seq<char>);

/// The text of a header.
pub open spec fn header_text(header: (&str, &str)) -> HeaderText {
    (header.0@, header.1@)
}

/// The first thing that is wrong with three headers, if anything.
pub open spec fn headers_fault(
    first: HeaderText,
    second: HeaderText,
    third: HeaderText,
) -> Option<HttpError> {
    if header_fault(first.0, first.1) is Some {
        header_fault(first.0, first.1)
    } else if header_fault(second.0, second.1) is Some {
        header_fault(second.0, second.1)
    } else {
        header_fault(third.0, third.1)
    }
}

/// What a map holds to which three headers were added.
pub open spec fn three_headers(
    first: HeaderText,
    second: HeaderText,
    third: HeaderText,
) -> Map<Seq<char>, Seq<Seq<u8>>> {
    appended(
        appended(appended(Map::empty(), first.0, first.1), second.0, second.1),
        third.0,
        third.1,
    )
}

/// Builds the head of a request with three headers, through `http::request::Builder`.
///
/// The claim is that it fails at the first fault, of the target or of the headers in turn, and
/// that it otherwise holds the method, the URI as that was read, and the headers in the order
/// given. A target of the plainest kind is a URI, and stays as it is written.
#[verifier::external_body]
pub(crate) fn build_request(
    method: &str,
    uri: &str,
    first: (&str, &str),
    second: (&str, &str),
    third: (&str, &str),
) -> (head: Result<(String, String, http::HeaderMap<http::HeaderValue>), HttpError>)
    requires
        method@ == "GET"@ || method@ == "POST"@ || method@ == "PATCH"@,
    ensures
        match head {
            Ok((built_method, built_uri, headers)) => {
                &&& built_method@ == method@
                &&& parsed_uri(uri@) is Some
                &&& built_uri@ == parsed_uri(uri@)->0.text
                &&& headers_fault(
                    header_text(first),
                    header_text(second),
                    header_text(third),
                ) is None
                &&& header_values(headers) == three_headers(
                    header_text(first),
                    header_text(second),
                    header_text(third),
                )
            },
            Err(HttpError::InvalidUri) => parsed_uri(uri@) is None,
            Err(error) => {
                &&& parsed_uri(uri@) is Some
                &&& headers_fault(
                    header_text(first),
                    header_text(second),
                    header_text(third),
                ) == Some(error)
            },
        },
        forall|scheme: Seq<char>, host: Seq<char>, path: Seq<char>|
            #[trigger] plain_uri(uri@, Some(scheme), host, path) ==> match head {
                Ok((_, built_uri, _)) => built_uri@ == plain_parts(
                    uri@,
                    Some(scheme),
                    host,
                    path,
                ).text,
                Err(error) => error != HttpError::InvalidUri,
            },
{
    let builder = http::Request::builder().method(method).uri(uri);
    let builder = builder.header(first.0, first.1).header(second.0, second.1);
    match builder.header(third.0, third.1).body(()).map(|request| request.into_parts().0) {
        Ok(head) => Ok((head.method.as_str().to_owned(), head.uri.to_string(), head.headers)),
        Err(error) if error.is::<http::uri::InvalidUri>() => Err(HttpError::InvalidUri),
        Err(error) if error.is::<http::header::InvalidHeaderName>() => {
            Err(HttpError::InvalidHeaderName)
        },
        Err(_) => Err(HttpError::InvalidHeaderValue),
    }
}

/// Builds the head of a response without headers, through `http::response::Builder`.
///
/// The claim is that it succeeds exactly where the status is a number of three digits.
#[verifier::external_body]
pub(crate) fn build_bare_response(status: u16) -> (head: Option<
    (u16, http::HeaderMap<http::HeaderValue>),
>)
    ensures
        match head {
            Some((built_status, headers)) => {
                &&& 100 <= status <= 999
                &&& built_status == status
                &&& header_values(headers) == Map::<Seq<char>, Seq<Seq<u8>>>::empty()
            },
            None => !(100 <= status <= 999),
        },
{
    let (head, ()) = http::Response::builder().status(status).body(()).ok()?.into_parts();
    Some((head.status.as_u16(), head.headers))
}

/// Builds the head of a response with three headers, through `http::response::Builder`.
///
/// The claim is that it succeeds exactly where the status is a number of three digits and the
/// headers are without fault, and that it then holds the headers in the order given.
#[verifier::external_body]
pub(crate) fn build_response(
    status: u16,
    first: (&str, &str),
    second: (&str, &str),
    third: (&str, &str),
) -> (head: Option<(u16, http::HeaderMap<http::HeaderValue>)>)
    ensures
        match head {
            Some((built_status, headers)) => {
                &&& 100 <= status <= 999
                &&& built_status == status
                &&& headers_fault(
                    header_text(first),
                    header_text(second),
                    header_text(third),
                ) is None
                &&& header_values(headers) == three_headers(
                    header_text(first),
                    header_text(second),
                    header_text(third),
                )
            },
            None => !(100 <= status <= 999) || headers_fault(
                    header_text(first),
                    header_text(second),
                    header_text(third),
                ) is Some,
        },
{
    let builder = http::Response::builder().status(status);
    let builder = builder.header(first.0, first.1).header(second.0, second.1);
    let (head, ()) = builder.header(third.0, third.1).body(()).ok()?.into_parts();
    Some((head.status.as_u16(), head.headers))
}

/// A text of printable ASCII characters is a header value, and its bytes are its characters.
pub proof fn lemma_printable_value(text: Seq<char>)
    requires
        forall|i: int| 0 <= i < text.len() ==> ' ' <= #[trigger] text[i] <= '~',
    ensures
        is_header_value(text),
        encode_utf8(text) == text.map_values(|c: char| c as u8),
{
    assert(vstd::utf8::is_ascii_chars(text)) by {
        assert forall|i: int| 0 <= i < text.len() implies 0 <= #[trigger] text[i] < 128 by {}
    }
    vstd::utf8::is_ascii_chars_encode_utf8(text);
    assert(encode_utf8(text) =~= text.map_values(|c: char| c as u8));
}

/// A header name is looked up in its lowercase form.
pub proof fn lemma_lookup_name(name: Seq<char>)
    requires
        is_header_name(name),
    ensures
        is_lookup_name(name),
        folded(name) == lower(name),
{
    assert forall|i: int| 0 <= i < name.len() implies ' ' <= #[trigger] name[i] <= '~' by {
        assert(header_name_char(name[i]));
    }
    lemma_printable_value(name);
    assert(folded(name) =~= lower(name)) by {
        assert forall|i: int| 0 <= i < name.len() implies folded(name)[i] == lower(name)[i] by {
            assert(header_name_char(name[i]));
            assert(encode_utf8(name)[i] == name[i] as u8);
        }
    }
}

/// The fixed header names of the tunnel are names, in lowercase, and differ from each other.
pub proof fn lemma_fixed_names()
    ensures
        is_header_name("host"@),
        is_header_name("accept"@),
        is_header_name("content-type"@),
        is_header_name("cache-control"@),
        is_header_name("transfer-encoding"@),
        lower("host"@) == "host"@,
        lower("accept"@) == "accept"@,
        lower("content-type"@) == "content-type"@,
        lower("cache-control"@) == "cache-control"@,
        lower("transfer-encoding"@) == "transfer-encoding"@,
{
    reveal_strlit("host");
    reveal_strlit("accept");
    reveal_strlit("content-type");
    reveal_strlit("cache-control");
    reveal_strlit("transfer-encoding");
    assert(lower("host"@) =~= "host"@);
    assert(lower("accept"@) =~= "accept"@);
    assert(lower("content-type"@) =~= "content-type"@);
    assert(lower("cache-control"@) =~= "cache-control"@);
    assert(lower("transfer-encoding"@) =~= "transfer-encoding"@);
}

/// The fixed header values of the tunnel are values.
pub proof fn lemma_fixed_values()
    ensures
        is_header_value("*/*"@),
        is_header_value("application/octet-stream"@),
        is_header_value("no-cache, no-store, no-transform"@),
        is_header_value("chunked"@),
{
    reveal_strlit("*/*");
    reveal_strlit("application/octet-stream");
    reveal_strlit("no-cache, no-store, no-transform");
    reveal_strlit("chunked");
    lemma_printable_value("*/*"@);
    lemma_printable_value("application/octet-stream"@);
    lemma_printable_value("no-cache, no-store, no-transform"@);
    lemma_printable_value("chunked"@);
}

} // verus!
