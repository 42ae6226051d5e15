//! The decisions of a TLS handshake: the server name and the application protocols.

use vstd::prelude::*;

verus! {

/// The error of a text that is no server name.
#[verifier::external_type_specification]
#[verifier::external_body]
pub struct ExInvalidDnsNameError(rustls_pki_types::InvalidDnsNameError);

/// The error of an operating system call.
#[verifier::external_type_specification]
#[verifier::external_body]
pub struct ExIoError(std::io::Error);

/// The server name that the `TryFrom<String>` of `rustls_pki_types::ServerName` reads from a
/// text, written out again, or `None` where it refuses the text.
pub uninterp spec fn server_name_of(domain: Seq<char>) -> Option<Seq<char>>;

/// Why no TLS connection was made.
#[derive(Debug)]
pub enum TlsError {
    /// The server name is no host name. Holds the message.
    InvalidInput(String),
    /// The handshake failed.
    Io(std::io::Error),
}

/// Reads a server name, through the `TryFrom<String>` of `rustls_pki_types::ServerName`.
///
/// What counts as a server name is what that function says: the result is named
/// [`server_name_of`].
#[verifier::external_body]
fn read_server_name(domain: String) -> (name: Result<
    String,
    rustls_pki_types::InvalidDnsNameError,
>)
    ensures
        match name {
            Ok(name) => server_name_of(domain@) == Some(name@),
            Err(_) => server_name_of(domain@) is None,
        },
{
    let name = rustls_pki_types::ServerName::try_from(domain)?;
    Ok(name.to_str().into_owned())
}

/// The message for a text that is no server name.
pub open spec fn invalid_hostname_message(domain: Seq<char>) -> Seq<char> {
    "invalid hostname \""@ + domain + "\""@
}

/// A transport and the server name to ask for when it is secured.
#[derive(Debug)]
pub struct TlsStream<S> {
    pub stream: S,
    pub server_name: String,
}

impl<S> TlsStream<S> {
    /// Prepares the handshake over `stream`, by what the reading of `domain` as a server name gave.
    pub fn with_server_name(
        stream: S,
        domain: &str,
        name: Result<String, rustls_pki_types::InvalidDnsNameError>,
    ) -> (result: Result<TlsStream<S>, TlsError>)
        ensures
            match (name, result) {
                (Ok(name), Ok(tls)) => tls.stream == stream && tls.server_name@ == name@,
                (Err(_), Err(TlsError::InvalidInput(message))) => message@
                    == invalid_hostname_message(domain@),
                _ => false,
            },
    {
        match name {
            Ok(name) => Ok(TlsStream { stream, server_name: name }),
            Err(_) => {
                let mut message = "invalid hostname \"".to_owned();
                message.append(domain);
                message.append("\"");
                Err(TlsError::InvalidInput(message))
            },
        }
    }

    /// Prepares the handshake with `domain` over `stream`.
    pub fn connect_with_config(stream: S, domain: &str) -> (result: Result<TlsStream<S>, TlsError>)
        ensures
            match (server_name_of(domain@), result) {
                (Some(name), Ok(tls)) => tls.stream == stream && tls.server_name@ == name,
                (None, Err(TlsError::InvalidInput(message))) => message@
                    == invalid_hostname_message(domain@),
                _ => false,
            },
    {
        let name = read_server_name(domain.to_owned());
        TlsStream::with_server_name(stream, domain, name)
    }
}

/// The protocols offer HTTP/2.
pub open spec fn offers_h2(protocols: Seq<Vec<u8>>) -> bool {
    exists|i: int| 0 <= i < protocols.len() && (#[trigger] protocols[i])@ == seq![104u8, 50u8]
}

/// Tests whether the application protocols offer HTTP/2.
pub fn has_h2(protocols: &Vec<Vec<u8>>) -> (found: bool)
    ensures
        found == offers_h2(protocols@),
        found <==> exists|i: int|
            0 <= i < protocols@.len() && (#[trigger] protocols@[i])@ == seq![104u8, 50u8],
{
    let mut i: usize = 0;
    while i < protocols.len()
        invariant
            i <= protocols.len(),
            forall|j: int| 0 <= j < i ==> (#[trigger] protocols[j])@ != seq![104u8, 50u8],
        decreases protocols.len() - i,
    {
        let protocol = &protocols[i];
        if protocol.len() == 2 && protocol[0] == 104 && protocol[1] == 50 {
            assert(protocols[i as int]@ =~= seq![104u8, 50u8]);
            return true;
        }
        assert(protocols[i as int]@ != seq![104u8, 50u8]) by {
            if protocols[i as int]@ == seq![104u8, 50u8] {
                assert(protocol@[0] == 104 && protocol@[1] == 50);
            }
        }
        i = i + 1;
    }
    false
}

} // verus!
