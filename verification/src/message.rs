//! The HTTP messages of the tunnel.

use vstd::prelude::*;

use crate::header::header_values;

verus! {

/// The methods that the tunnel uses.
#[derive(Clone, Copy, Debug, PartialEq, Eq, Structural)]
pub enum Method {
    /// Reads from a session, and may open it.
    Get,
    /// Writes to a session, and may open it.
    Post,
    /// Writes to a session that is open.
    Patch,
}

impl Method {
    /// The name of a method.
    pub open spec fn name(self) -> Seq<char> {
        match self {
            Method::Get => "GET"@,
            Method::Post => "POST"@,
            Method::Patch => "PATCH"@,
        }
    }

    /// The method of a name, or `None` for a method that the tunnel does not use.
    pub open spec fn named(name: Seq<char>) -> Option<Method> {
        if name == "GET"@ {
            Some(Method::Get)
        } else if name == "POST"@ {
            Some(Method::Post)
        } else if name == "PATCH"@ {
            Some(Method::Patch)
        } else {
            None
        }
    }

    /// The name of the method.
    pub fn as_str(&self) -> (name: &'static str)
        ensures
            name@ == self.name(),
    {
        match self {
            Method::Get => "GET",
            Method::Post => "POST",
            Method::Patch => "PATCH",
        }
    }

    /// Finds a method by its name. Names are case sensitive.
    pub fn from_name(name: &str) -> (method: Option<Method>)
        ensures
            method == Method::named(name@),
    {
        let name = name.to_owned();
        if name == "GET".to_owned() {
            Some(Method::Get)
        } else if name == "POST".to_owned() {
            Some(Method::Post)
        } else if name == "PATCH".to_owned() {
            Some(Method::Patch)
        } else {
            None
        }
    }
}

/// A method is found by its own name.
pub proof fn law_method_names(method: Method)
    ensures
        Method::named(method.name()) == Some(method),
{
    reveal_strlit("GET");
    reveal_strlit("POST");
    reveal_strlit("PATCH");
    assert("GET"@.len() == 3);
    assert("POST"@.len() == 4);
    assert("PATCH"@.len() == 5);
}

/// A request of the client.
#[derive(Debug)]
pub struct Request {
    pub method: Method,
    pub uri: String,
    pub headers: http::HeaderMap<http::HeaderValue>,
    pub body: Vec<u8>,
}

/// What the server reads of a request before its body.
#[derive(Debug)]
pub struct RequestHead {
    pub method: String,
    pub headers: http::HeaderMap<http::HeaderValue>,
}

/// A response of the server, without its body.
#[derive(Debug)]
pub struct Response {
    pub status: u16,
    pub headers: http::HeaderMap<http::HeaderValue>,
}

impl Response {
    /// A response with a status and without headers.
    pub open spec fn is_bare(self, status: u16) -> bool {
        &&& self.status == status
        &&& header_values(self.headers) == Map::<Seq<char>, Seq<Seq<u8>>>::empty()
    }
}

} // verus!
