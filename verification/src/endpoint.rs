//! The target address of a connection and the transport that it selects.

use vstd::prelude::*;

verus! {

/// The parts of a target address that the connector reads.
#[derive(Clone, Debug, PartialEq, Eq)]
pub struct UriParts {
    pub scheme: Option<String>,
    pub host: Option<String>,
    pub port: Option<u16>,
}

/// `UriParts` with its texts as character sequences.
pub struct UriPartsView {
    pub scheme: Option<Seq<char>>,
    pub host: Option<Seq<char>>,
    pub port: Option<u16>,
}

/// The view of an optional text.
pub open spec fn text_view(text: Option<String>) -> Option<Seq<char>> {
    match text {
        Some(t) => Some(t@),
        None => None,
    }
}

impl View for UriParts {
    type V = UriPartsView;

    open spec fn view(&self) -> UriPartsView {
        UriPartsView {
            scheme: text_view(self.scheme),
            host: text_view(self.host),
            port: self.port,
        }
    }
}

/// What `http::Uri` makes of an address: its scheme, host and port, or
/// `None` where the address is no URI.
pub uninterp spec fn uri_parts(address: Seq<char>) -> Option<UriPartsView>;

/// Whether `rustls::pki_types::ServerName` accepts `host` as a DNS name or
/// an IP address.
pub uninterp spec fn server_name_accepted(host: Seq<char>) -> bool;

/// Parses `address` with `http::Uri` and reads the scheme, the host and
/// the port of the result. Nothing is claimed of the parts but that they
/// depend on the address alone.
#[verifier::external_body]
fn split_uri(address: &str) -> (r: Option<UriParts>)
    ensures
        match r {
            Some(parts) => uri_parts(address@) == Some(parts@),
            None => uri_parts(address@) is None,
        },
{
    match address.parse::<http::Uri>() {
        Ok(uri) => Some(
            UriParts {
                scheme: uri.scheme_str().map(String::from),
                host: uri.host().map(String::from),
                port: uri.port_u16(),
            },
        ),
        Err(_) => None,
    }
}

/// Asks `rustls::pki_types::ServerName::try_from` whether `host` can name
/// the server in a handshake. The answer depends on `host` alone.
#[verifier::external_body]
fn check_server_name(host: &str) -> (r: bool)
    ensures
        r == server_name_accepted(host@),
{
    rustls::pki_types::ServerName::try_from(host).is_ok()
}

/// Why no stream could be planned for an address.
#[derive(Clone, Copy, Debug, PartialEq, Eq, Structural)]
pub enum ConnectError {
    /// The address is no URI.
    InvalidUri,
    /// The address asks for an encrypted stream and names no host.
    MissingHost,
    /// The host cannot name the server in a handshake.
    InvalidServerName,
}

/// The stream that an address selects. It is settled once, when the
/// connection is made; what uses the stream afterwards does not ask again.
#[derive(Clone, Debug, PartialEq, Eq)]
pub enum Transport {
    /// The network stream as it is.
    Plaintext,
    /// The network stream under an encrypted handshake with the server
    /// named here.
    Encrypted { server_name: String },
}

/// `Transport` with its text as a character sequence.
pub enum TransportView {
    Plaintext,
    Encrypted { server_name: Seq<char> },
}

impl View for Transport {
    type V = TransportView;

    open spec fn view(&self) -> TransportView {
        match self {
            Transport::Plaintext => TransportView::Plaintext,
            Transport::Encrypted { server_name } => TransportView::Encrypted {
                server_name: server_name@,
            },
        }
    }
}

/// The scheme that asks for an encrypted stream.
pub open spec fn encrypted_scheme() -> Seq<char> {
    seq!['h', 't', 't', 'p', 's']
}

/// The transport for the given scheme and host: encrypted for the scheme
/// `https`, which needs a host that can name the server; plaintext for
/// every other scheme and for none.
pub open spec fn transport_of(
    scheme: Option<Seq<char>>,
    host: Option<Seq<char>>,
    host_accepted: bool,
) -> Result<TransportView, ConnectError> {
    if scheme == Some(encrypted_scheme()) {
        match host {
            None => Err(ConnectError::MissingHost),
            Some(name) => if host_accepted {
                Ok(TransportView::Encrypted { server_name: name })
            } else {
                Err(ConnectError::InvalidServerName)
            },
        }
    } else {
        Ok(TransportView::Plaintext)
    }
}

/// The transport that an address selects: that of its scheme and host,
/// where it is a URI.
pub open spec fn transport_for_address(address: Seq<char>) -> Result<TransportView, ConnectError> {
    match uri_parts(address) {
        None => Err(ConnectError::InvalidUri),
        Some(parts) => transport_of(
            parts.scheme,
            parts.host,
            match parts.host {
                Some(name) => server_name_accepted(name),
                None => false,
            },
        ),
    }
}

/// Whether `scheme` is `https`.
pub fn is_encrypted_scheme(scheme: &Option<String>) -> (r: bool)
    ensures
        r == (text_view(*scheme) == Some(encrypted_scheme())),
{
    match scheme {
        Some(text) => {
            proof {
                reveal_strlit("https");
            }
            assert("https"@ =~= encrypted_scheme());
            let https = "https".to_owned();
            text.eq(&https)
        },
        None => false,
    }
}

/// The transport for the parts of an address, given whether its host can
/// name the server. `host_accepted` is read only for the scheme `https`.
pub fn choose_transport(parts: UriParts, host_accepted: bool) -> (r: Result<
    Transport,
    ConnectError,
>)
    ensures
        match r {
            Ok(t) => transport_of(parts@.scheme, parts@.host, host_accepted) == Ok::<
                TransportView,
                ConnectError,
            >(t@),
            Err(e) => transport_of(parts@.scheme, parts@.host, host_accepted) == Err::<
                TransportView,
                ConnectError,
            >(e),
        },
{
    if is_encrypted_scheme(&parts.scheme) {
        match parts.host {
            None => Err(ConnectError::MissingHost),
            Some(name) => if host_accepted {
                Ok(Transport::Encrypted { server_name: name })
            } else {
                Err(ConnectError::InvalidServerName)
            },
        }
    } else {
        Ok(Transport::Plaintext)
    }
}

/// The transport that `address` selects.
///
/// An address that is no URI is an error. The scheme `https` selects the
/// encrypted stream and needs a host that can name the server; any other
/// scheme selects the plain stream.
pub fn transport_for(address: &str) -> (r: Result<Transport, ConnectError>)
    ensures
        match r {
            Ok(t) => transport_for_address(address@) == Ok::<TransportView, ConnectError>(t@),
            Err(e) => transport_for_address(address@) == Err::<TransportView, ConnectError>(e),
        },
{
    match split_uri(address) {
        None => Err(ConnectError::InvalidUri),
        Some(parts) => {
            let accepted = match &parts.host {
                Some(name) => check_server_name(name.as_str()),
                None => false,
            };
            choose_transport(parts, accepted)
        },
    }
}

} // verus!
