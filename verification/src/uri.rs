//! URIs, by the parts that the library reads.

use vstd::prelude::*;

use crate::text::{lower, same_text};

verus! {

/// The error of a text that is no URI.
#[verifier::external_type_specification]
#[verifier::external_body]
pub struct ExInvalidUri(http::uri::InvalidUri);

/// The parts of a URI.
pub ghost struct UriParts {
    /// The scheme, in lowercase where it is `http` or `https`.
    pub scheme: Option<Seq<char>>,
    /// The authority: user information, host and port, as they are written.
    pub authority: Option<Seq<char>>,
    /// The host, without user information and port.
    pub host: Option<Seq<char>>,
    /// The port, where one is written.
    pub port: Option<u16>,
    /// The path. Behind a scheme there always is one.
    pub path: Seq<char>,
    /// The query.
    pub query: Option<Seq<char>>,
    /// The whole URI, written out again.
    pub text: Seq<char>,
}

/// Two optional texts are the same, whatever the case of their letters.
pub open spec fn same_optional(a: Option<Seq<char>>, b: Option<Seq<char>>) -> bool {
    match (a, b) {
        (Some(a), Some(b)) => lower(a) == lower(b),
        (None, None) => true,
        _ => false,
    }
}

impl UriParts {
    /// Two URIs are the same: in path and query to the letter, in scheme and authority whatever
    /// the case.
    pub open spec fn same(self, other: UriParts) -> bool {
        &&& same_optional(self.scheme, other.scheme)
        &&& same_optional(self.authority, other.authority)
        &&& self.path == other.path
        &&& self.query == other.query
    }

    /// The connection to the host is secured, unless plain HTTP is asked for.
    pub open spec fn wants_tls(self) -> bool {
        self.scheme != Some("http"@)
    }

    /// The host, empty where there is none.
    pub open spec fn host_name(self) -> Seq<char> {
        match self.host {
            Some(host) => host,
            None => Seq::empty(),
        }
    }

    /// The port that is written, or that of the scheme.
    pub open spec fn port_number(self) -> u16 {
        match self.port {
            Some(port) => port,
            None => if self.wants_tls() {
                443
            } else {
                80
            },
        }
    }
}

/// The parts of the URI that `http::Uri::from_str` reads from a text, or `None` where it
/// refuses the text.
pub uninterp spec fn parsed_uri(text: Seq<char>) -> Option<UriParts>;

/// A letter, a digit or a hyphen.
pub open spec fn plain_char(c: char) -> bool {
    'a' <= c <= 'z' || 'A' <= c <= 'Z' || '0' <= c <= '9' || c == '-'
}

/// A host name of letters, digits, hyphens and dots.
pub open spec fn plain_host(host: Seq<char>) -> bool {
    &&& host.len() > 0
    &&& forall|i: int| 0 <= i < host.len() ==> plain_char(#[trigger] host[i]) || host[i] == '.'
}

/// No path, or a slash and one segment of letters, digits and hyphens.
pub open spec fn plain_path(path: Seq<char>) -> bool {
    path.len() > 0 ==> path[0] == '/' && forall|i: int|
        1 <= i < path.len() ==> plain_char(#[trigger] path[i])
}

/// A text is a URI of the plainest kind: a bare host, or `http` or `https`, a host and a path.
pub open spec fn plain_uri(
    text: Seq<char>,
    scheme: Option<Seq<char>>,
    host: Seq<char>,
    path: Seq<char>,
) -> bool {
    &&& text.len() <= 65534
    &&& plain_host(host)
    &&& match scheme {
        Some(scheme) => {
            &&& scheme == "http"@ || scheme == "https"@
            &&& plain_path(path)
            &&& text == scheme + "://"@ + host + path
        },
        None => path.len() == 0 && text == host,
    }
}

/// The parts of a URI of the plainest kind. A path that is left out after a scheme is `/`.
pub open spec fn plain_parts(
    text: Seq<char>,
    scheme: Option<Seq<char>>,
    host: Seq<char>,
    path: Seq<char>,
) -> UriParts {
    UriParts {
        scheme,
        authority: Some(host),
        host: Some(host),
        port: None,
        path: if scheme is Some && path.len() == 0 {
            "/"@
        } else {
            path
        },
        query: None,
        text: if scheme is Some && path.len() == 0 {
            text.push('/')
        } else {
            text
        },
    }
}

/// The view of an optional text.
pub open spec fn optional_text(text: Option<String>) -> Option<Seq<char>> {
    match text {
        Some(text) => Some(text@),
        None => None,
    }
}

/// Copies an optional text.
fn clone_text(text: &Option<String>) -> (copy: Option<String>)
    ensures
        optional_text(copy) == optional_text(*text),
{
    match text {
        Some(text) => Some(text.clone()),
        None => None,
    }
}

/// Compares two optional texts, whatever the case of their letters.
fn same_optional_text(a: &Option<String>, b: &Option<String>) -> (same: bool)
    ensures
        same == same_optional(optional_text(*a), optional_text(*b)),
{
    match (a, b) {
        (Some(a), Some(b)) => same_text(a.as_str(), b.as_str()),
        (None, None) => true,
        _ => false,
    }
}

/// Reads a URI, through the `FromStr` of `http::Uri`.
///
/// What counts as a URI and how it falls into parts is what that function says: the result is
/// named [`parsed_uri`]. Beside the name stands only that a URI of the plainest kind is accepted,
/// with the parts that it shows.
#[verifier::external_body]
fn read_uri(text: &str) -> (uri: Result<Uri, http::uri::InvalidUri>)
    ensures
        match uri {
            Ok(uri) => parsed_uri(text@) == Some(uri@),
            Err(_) => parsed_uri(text@) is None,
        },
        forall|scheme: Option<Seq<char>>, host: Seq<char>, path: Seq<char>|
            #[trigger] plain_uri(text@, scheme, host, path) ==> match uri {
                Ok(uri) => uri@ == plain_parts(text@, scheme, host, path),
                Err(_) => false,
            },
{
    let uri: http::Uri = text.parse()?;
    Ok(
        Uri {
            scheme: uri.scheme_str().map(str::to_owned),
            authority: uri.authority().map(|authority| authority.as_str().to_owned()),
            host: uri.host().map(str::to_owned),
            port: uri.port_u16(),
            path: uri.path().to_owned(),
            query: uri.query().map(str::to_owned),
            text: uri.to_string(),
        },
    )
}

/// A URI, held as the parts that the library reads.
#[derive(Debug)]
pub struct Uri {
    pub scheme: Option<String>,
    pub authority: Option<String>,
    pub host: Option<String>,
    pub port: Option<u16>,
    pub path: String,
    pub query: Option<String>,
    pub text: String,
}

impl View for Uri {
    type V = UriParts;

    open spec fn view(&self) -> UriParts {
        UriParts {
            scheme: optional_text(self.scheme),
            authority: optional_text(self.authority),
            host: optional_text(self.host),
            port: self.port,
            path: self.path@,
            query: optional_text(self.query),
            text: self.text@,
        }
    }
}

impl Uri {
    /// Reads a URI from its text.
    pub fn parse(text: &str) -> (uri: Result<Uri, http::uri::InvalidUri>)
        ensures
            match uri {
                Ok(uri) => parsed_uri(text@) == Some(uri@),
                Err(_) => parsed_uri(text@) is None,
            },
            forall|scheme: Option<Seq<char>>, host: Seq<char>, path: Seq<char>|
                #[trigger] plain_uri(text@, scheme, host, path) ==> match uri {
                    Ok(uri) => uri@ == plain_parts(text@, scheme, host, path),
                    Err(_) => false,
                },
    {
        read_uri(text)
    }

    /// Whether the connection to the host is secured. It is, unless plain HTTP is asked for.
    pub fn tls(&self) -> (tls: bool)
        ensures
            tls == self@.wants_tls(),
            tls <==> (self.scheme is Some ==> self.scheme->0@ != "http"@),
    {
        match &self.scheme {
            Some(scheme) => {
                let http = "http".to_owned();
                !(*scheme == http)
            },
            None => true,
        }
    }

    /// The host, empty where there is none.
    pub fn host_or_empty(&self) -> (host: &str)
        ensures
            host@ == self@.host_name(),
            self.host is Some ==> host@ == self.host->0@,
            self.host is None ==> host@.len() == 0,
    {
        match &self.host {
            Some(host) => host.as_str(),
            None => {
                let none = "";
                proof {
                    reveal_strlit("");
                    assert(none@ =~= Seq::empty());
                }
                none
            },
        }
    }

    /// The port that is written, or that of the scheme.
    pub fn port_or_default(&self) -> (port: u16)
        ensures
            port == self@.port_number(),
            self.port is Some ==> port == self.port->0,
    {
        match self.port {
            Some(port) => port,
            None => if self.tls() {
                443
            } else {
                80
            },
        }
    }
}

impl PartialEq for Uri {
    fn eq(&self, other: &Uri) -> (same: bool) {
        let same_query = match (&self.query, &other.query) {
            (Some(a), Some(b)) => *a == *b,
            (None, None) => true,
            _ => false,
        };
        same_optional_text(&self.scheme, &other.scheme) && same_optional_text(
            &self.authority,
            &other.authority,
        ) && self.path == other.path && same_query
    }
}

impl vstd::std_specs::cmp::PartialEqSpecImpl for Uri {
    open spec fn obeys_eq_spec() -> bool {
        true
    }

    open spec fn eq_spec(&self, other: &Uri) -> bool {
        self@.same(other@)
    }
}

impl Clone for Uri {
    fn clone(&self) -> (copy: Uri)
        ensures
            copy@ == self@,
    {
        Uri {
            scheme: clone_text(&self.scheme),
            authority: clone_text(&self.authority),
            host: clone_text(&self.host),
            port: self.port,
            path: self.path.clone(),
            query: clone_text(&self.query),
            text: self.text.clone(),
        }
    }
}

} // verus!
