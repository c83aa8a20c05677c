//! The blocking request client: which server it trusts, and how it connects.
//!
//! Once a server certificate is known (after pairing) every HTTPS request is pinned to it:
//! the TLS handshake only succeeds when the server presents exactly that leaf certificate.
//! Host names are not checked, because GameStream hosts use self-signed certificates whose
//! subject never matches the address they are reached at.

use crate::http::endpoint::TextResponse;
use crate::http::error::{ParseError, UreqError, UreqFailure};
use crate::http::identity;
use crate::http::identity::pem_to_string;
use crate::text;
use crate::text::trim_brackets;
use pem::Pem;
use rustls::pki_types::{PrivateKeyDer, ServerName};
use vstd::prelude::*;
use vstd::slice::slice_to_vec;

verus! {

/// Which of the two time limits a request has.
#[derive(Debug, Clone, Copy, PartialEq, Eq, Structural)]
pub enum RequestTimeout {
    Default,
    Long,
}

/// What the client proves itself with: its certificate and its private key, both DER.
#[derive(Clone)]
pub struct ClientIdentity {
    pub certificate: Vec<u8>,
    pub private_key: Vec<u8>,
}

/// A request client.
#[derive(Clone)]
pub struct UreqClient {
    pub timeout: RequestTimeout,
    pub identity: Option<ClientIdentity>,
    /// The one server certificate to accept, DER.
    pub pinned: Option<Vec<u8>>,
}

/// The DER form of the first private key in a PEM text, or how reading it fails and what is
/// said of that.
pub uninterp spec fn private_key_of_pem(text: Seq<char>) -> Result<
    Seq<u8>,
    (UreqFailure, Seq<char>),
>;

/// `ureq::tls::PrivateKey::from_pem`, and the DER form of what it found. Which section counts
/// as a key, how its text is decoded, and what an error says has only a name here.
#[verifier::external_body]
fn private_key_from_pem(text: &str) -> (r: Result<Vec<u8>, (UreqFailure, String)>)
    ensures
        match r {
            Ok(der) => private_key_of_pem(text@) matches Ok(key) && key == der@,
            Err(failed) => private_key_of_pem(text@) matches Err(named) && named.0 == failed.0
                && named.1 == failed.1@,
        },
{
    let error = match ureq::tls::PrivateKey::from_pem(text.as_bytes()) {
        Ok(key) => return Ok(key.der().to_vec()),
        Err(error) => error,
    };
    let said = error.to_string();
    match error {
        ureq::Error::HostNotFound => Err((UreqFailure::HostNotFound, said)),
        ureq::Error::ConnectionFailed => Err((UreqFailure::ConnectionFailed, said)),
        ureq::Error::Io(_) => Err((UreqFailure::Io, said)),
        ureq::Error::Tls(_) => Err((UreqFailure::Tls, said)),
        _ => Err((UreqFailure::Other, said)),
    }
}

/// How the connections of a client are made.
pub enum ConnectorPlan {
    /// TLS that accepts exactly one server certificate.
    Pinned(PinnedTlsConnector),
    /// The regular verification of certificate chains.
    Regular,
}

impl ConnectorPlan {
    /// Whether a server with that certificate is accepted, where the plan itself decides that.
    pub open spec fn accepts(&self, certificate: Seq<u8>) -> Option<bool> {
        match self {
            ConnectorPlan::Pinned(connector) => Some(certificate == connector.pinned@),
            ConnectorPlan::Regular => None,
        }
    }
}

impl UreqClient {
    /// Whether a server with that certificate is accepted, where the client itself decides
    /// that. Otherwise the regular verification of certificate chains does.
    pub open spec fn accepts(&self, certificate: Seq<u8>) -> Option<bool> {
        match self.pinned {
            Some(pinned) => Some(certificate == pinned@),
            None => None,
        }
    }

    /// A client that knows no certificates yet.
    pub fn with_defaults() -> (r: Result<Self, UreqError>)
        ensures
            r matches Ok(client) && client.timeout == RequestTimeout::Default && client.identity
                is None && client.pinned is None,
    {
        Ok(UreqClient { timeout: RequestTimeout::Default, identity: None, pinned: None })
    }

    /// A client that knows no certificates yet, for requests that take longer.
    pub fn with_defaults_long_timeout() -> (r: Result<Self, UreqError>)
        ensures
            r matches Ok(client) && client.timeout == RequestTimeout::Long && client.identity
                is None && client.pinned is None,
    {
        Ok(UreqClient { timeout: RequestTimeout::Long, identity: None, pinned: None })
    }

    /// A client out of the certificates and the private key, all DER.
    pub fn from_parts(
        private_key: Result<Vec<u8>, (UreqFailure, String)>,
        client_certificate: &[u8],
        server_certificate: &[u8],
    ) -> (r: Result<Self, UreqError>)
        ensures
            match private_key {
                Ok(key) => {
                    &&& r matches Ok(client)
                    &&& client.timeout == RequestTimeout::Default
                    &&& client.identity matches Some(identity)
                    &&& identity.certificate@ == client_certificate@
                    &&& identity.private_key@ == key@
                    &&& client.pinned matches Some(pinned)
                    &&& pinned@ == server_certificate@
                },
                Err((failure, said)) => r == Err::<UreqClient, UreqError>(
                    UreqError::Ureq(failure, said),
                ),
            },
    {
        match private_key {
            Ok(key) => Ok(
                UreqClient {
                    timeout: RequestTimeout::Default,
                    identity: Some(
                        ClientIdentity {
                            certificate: slice_to_vec(client_certificate),
                            private_key: key,
                        },
                    ),
                    pinned: Some(slice_to_vec(server_certificate)),
                },
            ),
            Err((failure, said)) => Err(UreqError::Ureq(failure, said)),
        }
    }

    /// A client that proves itself with a certificate and is pinned to one server.
    pub fn with_certificates(
        client_private_key: &Pem,
        client_certificate: &Pem,
        server_certificate: &Pem,
    ) -> (r: Result<Self, UreqError>)
        ensures
            match private_key_of_pem(identity::pem_text(*client_private_key)) {
                Ok(key) => {
                    &&& r matches Ok(client)
                    &&& client.timeout == RequestTimeout::Default
                    &&& client.identity matches Some(identity)
                    &&& identity.certificate@ == identity::pem_contents(*client_certificate)
                    &&& identity.private_key@ == key
                    &&& client.pinned matches Some(pinned)
                    &&& pinned@ == identity::pem_contents(*server_certificate)
                },
                Err((failure, said)) => {
                    &&& r matches Err(error)
                    &&& error matches UreqError::Ureq(kind, text)
                    &&& kind == failure
                    &&& text@ == said
                },
            },
    {
        let text = pem_to_string(client_private_key);
        let key = private_key_from_pem(text.as_str());
        UreqClient::from_parts(key, client_certificate.contents(), server_certificate.contents())
    }

    /// Pinned connections where a server certificate is known, and the regular verification
    /// where none is. There is no third way.
    pub fn connector(&self) -> (r: ConnectorPlan)
        ensures
            match r {
                ConnectorPlan::Pinned(connector) => self.pinned matches Some(pinned)
                    && connector.pinned@ == pinned@,
                ConnectorPlan::Regular => self.pinned is None,
            },
            forall|certificate: Seq<u8>| #[trigger]
                r.accepts(certificate) == self.accepts(certificate),
    {
        match &self.pinned {
            Some(pinned) => ConnectorPlan::Pinned(
                PinnedTlsConnector { pinned: slice_to_vec(pinned.as_slice()) },
            ),
            None => ConnectorPlan::Regular,
        }
    }
}

/// What can go wrong while the encrypted channel is set up.
#[derive(Debug, Clone, Copy, PartialEq, Eq, Structural)]
pub enum TlsFailure {
    ProtocolVersions,
    InvalidClientKey,
    InvalidClientCertificate,
    InvalidDnsName,
    ClientConnection,
    Handshake,
}

/// The message of a [`TlsFailure`].
pub open spec fn tls_failure_text(failure: TlsFailure) -> Seq<char> {
    match failure {
        TlsFailure::ProtocolVersions => "Rustls protocol versions error"@,
        TlsFailure::InvalidClientKey => "Rustls invalid client key"@,
        TlsFailure::InvalidClientCertificate => "Rustls invalid client certificate"@,
        TlsFailure::InvalidDnsName => "Rustls invalid dns name error"@,
        TlsFailure::ClientConnection => "Rustls client connection error"@,
        TlsFailure::Handshake => "Rustls handshake error"@,
    }
}

impl TlsFailure {
    /// The failure in words.
    pub fn message(&self) -> (r: &'static str)
        ensures
            r@ == tls_failure_text(*self),
    {
        match self {
            TlsFailure::ProtocolVersions => "Rustls protocol versions error",
            TlsFailure::InvalidClientKey => "Rustls invalid client key",
            TlsFailure::InvalidClientCertificate => "Rustls invalid client certificate",
            TlsFailure::InvalidDnsName => "Rustls invalid dns name error",
            TlsFailure::ClientConnection => "Rustls client connection error",
            TlsFailure::Handshake => "Rustls handshake error",
        }
    }
}

/// The outside type of a server name.
#[verifier::external_type_specification]
#[verifier::external_body]
pub struct ExServerName<'a>(rustls::pki_types::ServerName<'a>);

/// The outside error for a text that is no server name.
#[verifier::external_type_specification]
#[verifier::external_body]
pub struct ExInvalidDnsNameError(rustls::pki_types::InvalidDnsNameError);

/// The server name that a text stands for, where it is a DNS name or an IP address.
pub uninterp spec fn server_name_of(name: Seq<char>) -> Option<ServerName<'static>>;

/// `rustls::pki_types::ServerName::try_from` on a string: a DNS name or an IP address. Which
/// texts are such names has only a name here.
#[verifier::external_body]
fn parse_server_name(name: String) -> (r: Result<
    ServerName<'static>,
    rustls::pki_types::InvalidDnsNameError,
>)
    ensures
        r matches Ok(server_name) ==> server_name_of(name@) == Some(server_name),
        r is Err ==> server_name_of(name@) is None,
{
    ServerName::try_from(name)
}

/// The outside type of a private key in one of the formats that TLS can use.
#[verifier::external_type_specification]
#[verifier::external_body]
pub struct ExPrivateKeyDer<'a>(rustls::pki_types::PrivateKeyDer<'a>);

/// The private key that DER bytes stand for, where they are in a format that TLS can use.
pub uninterp spec fn private_key_der_of(der: Seq<u8>) -> Option<PrivateKeyDer<'static>>;

/// `rustls::pki_types::PrivateKeyDer::try_from` on bytes: a key whose format is recognised by
/// its first bytes. Which bytes are such keys has only a name here; what is wrong with others
/// is left open.
#[verifier::external_body]
fn parse_private_key(der: Vec<u8>) -> (r: Result<PrivateKeyDer<'static>, &'static str>)
    ensures
        r matches Ok(key) ==> private_key_der_of(der@) == Some(key),
        r is Err ==> private_key_der_of(der@) is None,
{
    PrivateKeyDer::try_from(der)
}

/// What the client proves itself with, as TLS takes it: its certificate, DER, and its key.
pub fn client_key(identity: ClientIdentity) -> (r: Result<
    (Vec<u8>, PrivateKeyDer<'static>),
    TlsFailure,
>)
    ensures
        match private_key_der_of(identity.private_key@) {
            Some(key) => r == Ok::<(Vec<u8>, PrivateKeyDer<'static>), TlsFailure>(
                (identity.certificate, key),
            ),
            None => r == Err::<(Vec<u8>, PrivateKeyDer<'static>), TlsFailure>(
                TlsFailure::InvalidClientKey,
            ),
        },
{
    match parse_private_key(identity.private_key) {
        Ok(key) => Ok((identity.certificate, key)),
        Err(_) => Err(TlsFailure::InvalidClientKey),
    }
}

/// The settings of one encrypted channel.
pub struct TlsSettings {
    /// The one server certificate to accept, DER.
    pub pinned: Vec<u8>,
    /// What the client proves itself with, if it does.
    pub client_auth: Option<ClientIdentity>,
    pub enable_sni: bool,
    /// GameStream hosts (Sunshine) cannot resume sessions.
    pub resumption: bool,
}

/// The host that a connection goes to: none counts as the empty text.
pub open spec fn host_text(host: Option<&str>) -> Seq<char> {
    match host {
        Some(text) => text@,
        None => Seq::empty(),
    }
}

/// TLS that accepts exactly one server certificate.
#[derive(Clone)]
pub struct PinnedTlsConnector {
    pub pinned: Vec<u8>,
}

impl PinnedTlsConnector {
    /// Whether a connection is still to be encrypted: it has to be, and is not yet.
    pub fn needs_handshake(needs_tls: bool, transport_is_tls: bool) -> (r: bool)
        ensures
            r == (needs_tls && !transport_is_tls),
    {
        !(!needs_tls || transport_is_tls)
    }

    /// The name that the handshake asks for. It only feeds SNI and is never verified; an IP
    /// literal is fine, with or without its brackets.
    pub fn server_name(host: Option<&str>) -> (r: Result<ServerName<'static>, TlsFailure>)
        ensures
            match server_name_of(text::without_brackets(host_text(host))) {
                Some(name) => r == Ok::<ServerName<'static>, TlsFailure>(name),
                None => r == Err::<ServerName<'static>, TlsFailure>(TlsFailure::InvalidDnsName),
            },
    {
        let name = match host {
            Some(text) => trim_brackets(text).to_owned(),
            None => String::new(),
        };
        match parse_server_name(name) {
            Ok(server_name) => Ok(server_name),
            Err(_) => Err(TlsFailure::InvalidDnsName),
        }
    }

    /// The settings of the channel: the pinned certificate decides over the server, the
    /// client proves itself where it has an identity, and sessions are never resumed.
    pub fn tls_settings(&self, client: Option<ClientIdentity>, use_sni: bool) -> (r: TlsSettings)
        ensures
            r.pinned@ == self.pinned@,
            r.client_auth == client,
            r.enable_sni == use_sni,
            !r.resumption,
    {
        TlsSettings {
            pinned: slice_to_vec(self.pinned.as_slice()),
            client_auth: client,
            enable_sni: use_sni,
            resumption: false,
        }
    }
}

/// Verifies a certificate that was exchanged during pairing: the leaf must be byte for byte
/// the pinned one. Nothing else about the chain matters.
pub fn verify_server_cert(pinned: &[u8], end_entity: &[u8]) -> (r: bool)
    ensures
        r == (end_entity@ == pinned@),
{
    if end_entity.len() != pinned.len() {
        return false;
    }
    let mut i: usize = 0;
    while i < pinned.len()
        invariant
            i <= pinned@.len(),
            pinned@.len() == end_entity@.len(),
            forall|j: int| 0 <= j < i ==> #[trigger] end_entity@[j] == pinned@[j],
        decreases pinned@.len() - i,
    {
        if end_entity[i] != pinned[i] {
            return false;
        }
        i = i + 1;
    }
    assert(end_entity@ =~= pinned@);
    true
}

/// The response in the body of an answer, or why it could not be read.
pub fn text_response<R: TextResponse>(body: &str) -> (r: Result<R, UreqError>)
    ensures
        exists|read: Result<R, ParseError>| #[trigger]
            call_ensures(R::from_str, (body,), read) && r == (match read {
                Ok(response) => Ok(response),
                Err(error) => Err(UreqError::Parse(error)),
            }),
{
    match R::from_str(body) {
        Ok(response) => Ok(response),
        Err(error) => Err(UreqError::Parse(error)),
    }
}

/// A client accepts at most one certificate by its own decision, and none where it is not
/// pinned: there is no client that trusts anything.
pub proof fn lemma_pinning_is_exact(client: UreqClient, one: Seq<u8>, other: Seq<u8>)
    requires
        client.accepts(one) == Some(true),
    ensures
        client.pinned is Some,
        client.accepts(other) == Some(other == one),
{
}

/// An address literal connects by the same name with and without its brackets.
pub proof fn lemma_brackets_do_not_count(host: &str, literal: &str)
    requires
        host@.len() > 0,
        !text::is_bracket(host@[0]),
        !text::is_bracket(host@.last()),
        literal@ == seq!['['] + host@ + seq![']'],
    ensures
        text::without_brackets(host_text(Some(literal))) == host@,
        text::without_brackets(host_text(Some(host))) == host@,
{
    let inner = host@ + seq![']'];
    reveal_with_fuel(text::trim_start, 2);
    reveal_with_fuel(text::trim_end, 2);
    assert(literal@.skip(1) =~= inner);
    assert(inner[0] == host@[0]);
    assert(inner.drop_last() =~= host@);
}

/// A pinned client accepts the pinned certificate and refuses every other; one that is not
/// pinned decides nothing. The plan of its connections decides alike.
pub proof fn lemma_pinned_certificate(
    client: UreqClient,
    connector: PinnedTlsConnector,
    certificate: Seq<u8>,
)
    ensures
        client.pinned is None ==> client.accepts(certificate) is None,
        client.pinned matches Some(pinned) ==> client.accepts(pinned@) == Some(true) && (certificate
            != pinned@ ==> client.accepts(certificate) == Some(false)),
        ConnectorPlan::Regular.accepts(certificate) is None,
        ConnectorPlan::Pinned(connector).accepts(connector.pinned@) == Some(true),
        certificate != connector.pinned@ ==> ConnectorPlan::Pinned(connector).accepts(certificate)
            == Some(false),
{
}

/// A missing host counts as the empty text, any other as it is.
pub proof fn lemma_host_text(host: &str)
    ensures
        host_text(Some(host)) == host@,
        host_text(None).len() == 0,
{
}

} // verus!
