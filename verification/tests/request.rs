//! The address of a request, the answer to it, and the client that sends it.

use moonlight_common::http::client::{
    client_key, text_response, verify_server_cert, ClientIdentity, ConnectorPlan, PinnedTlsConnector, RequestTimeout,
    TlsFailure, UreqClient,
};
use moonlight_common::http::client_info::{ClientInfo, Request, Uuid};
use moonlight_common::http::endpoint::{
    build_url, url_for, Endpoint, TextResponse, DEFAULT_HTTPS_PORT, DEFAULT_HTTP_PORT,
};
use moonlight_common::http::error::{ParseError, UreqError, UreqFailure};
use moonlight_common::http::identity::{ClientIdentifier, ClientSecret, ServerIdentifier};
use moonlight_common::http::query::{
    FromQueryError, QueryBuilder, QueryBuilderError, QueryMap, QueryParam,
};
use pem::Pem;

struct AppId(u32);

impl Request for AppId {
    fn append_query_params<B: QueryBuilder>(&self, builder: &mut B) -> Result<(), QueryBuilderError> {
        if self.0 == 0 {
            return Err(QueryBuilderError::BufferFull);
        }
        let text = self.0.to_string();
        builder.append(QueryParam {
            key: "appid",
            value: &text,
        })
    }

    fn from_query_params<Q: QueryMap>(map: &Q) -> Result<Self, FromQueryError> {
        let text = map.get("appid")?;
        match text.parse::<u32>() {
            Ok(id) => Ok(AppId(id)),
            Err(error) => Err(FromQueryError::Int(error)),
        }
    }
}

#[derive(Debug, PartialEq)]
struct Greeting(String);

impl TextResponse for Greeting {
    fn from_str(text: &str) -> Result<Self, ParseError> {
        if text.is_empty() {
            Err(ParseError::XmlRootNotFound)
        } else {
            Ok(Greeting(text.to_string()))
        }
    }

    fn serialize_into(&self, writer: &mut String) -> Result<(), std::fmt::Error> {
        writer.push_str(&self.0);
        Ok(())
    }
}

struct Launch;

impl Endpoint for Launch {
    type Request = AppId;
    type Response = Greeting;

    fn path() -> &'static str {
        "/launch"
    }

    fn https_required() -> bool {
        true
    }
}

fn client() -> ClientInfo {
    ClientInfo {
        unique_id: String::from("a b"),
        uuid: Uuid { bytes: [0x1f; 16] },
    }
}

const QUERY: &str = "uniqueid=a%20b&uuid=1f1f1f1f-1f1f-1f1f-1f1f-1f1f1f1f1f1f&appid=7";

#[test]
fn an_address_carries_the_client_then_the_request() {
    let url = build_url::<Launch>(true, &client(), "host:47984", &AppId(7)).unwrap();
    assert_eq!(url, format!("https://host:47984/launch?{QUERY}"));
    let url = build_url::<Launch>(false, &client(), "host:47989", &AppId(7)).unwrap();
    assert_eq!(url, format!("http://host:47989/launch?{QUERY}"));
    assert_eq!((DEFAULT_HTTP_PORT, DEFAULT_HTTPS_PORT), (47989, 47984));
}

#[test]
fn a_request_that_refuses_gives_no_address() {
    assert_eq!(
        build_url::<Launch>(true, &client(), "host", &AppId(0)),
        Err(QueryBuilderError::BufferFull)
    );
}

#[test]
fn an_address_keeps_its_parts_as_they_are() {
    assert_eq!(url_for(true, "h", "/p", "q=1"), "https://h/p?q=1");
    assert_eq!(url_for(false, "[::1]:80", "/", ""), "http://[::1]:80/?");
}

#[test]
fn a_body_is_read_or_its_error_reported() {
    assert_eq!(text_response("hi"), Ok(Greeting(String::from("hi"))));
    assert_eq!(
        text_response::<Greeting>(""),
        Err(UreqError::Parse(ParseError::XmlRootNotFound))
    );
}

fn failed(failure: UreqFailure) -> UreqError {
    UreqError::Ureq(failure, String::from("why"))
}

#[test]
fn request_errors_say_what_is_wrong() {
    assert_eq!(failed(UreqFailure::Io).message(), "ureq: why");
    assert_eq!(
        UreqError::Parse(ParseError::DetailNotFound("state")).message(),
        "parse: detail was not found: state"
    );
    assert_eq!(
        UreqError::Http(String::from("invalid uri")).message(),
        "http: invalid uri"
    );
}

#[test]
fn connection_failures_are_told_from_encryption_failures() {
    let connect = [
        UreqFailure::HostNotFound,
        UreqFailure::ConnectionFailed,
        UreqFailure::Io,
    ];
    for failure in connect {
        assert!(failed(failure).is_connect());
        assert!(!failed(failure).is_encryption());
    }
    assert!(failed(UreqFailure::Tls).is_encryption());
    assert!(!failed(UreqFailure::Tls).is_connect());
    let others = [
        failed(UreqFailure::Other),
        UreqError::Parse(ParseError::XmlRootNotFound),
        UreqError::Http(String::from("invalid uri")),
    ];
    for error in others {
        assert!(!error.is_connect());
        assert!(!error.is_encryption());
    }
}

#[test]
fn a_parse_error_comes_out_of_a_failed_request() {
    let error = UreqError::Parse(ParseError::DetailNotFound("state"));
    assert_eq!(error.try_into(), Ok(ParseError::DetailNotFound("state")));
    assert_eq!(
        failed(UreqFailure::Io).try_into(),
        Err(failed(UreqFailure::Io))
    );
}

#[test]
fn parse_errors_say_what_is_wrong() {
    let cause = || String::from("cause");
    let cases = [
        (ParseError::ParseXmlError(cause()), "the response is invalid xml"),
        (
            ParseError::InvalidXmlStatusCode {
                message: Some(cause()),
            },
            "the returned xml doc has a non 200 status code",
        ),
        (
            ParseError::XmlRootNotFound,
            "the returned xml doc doesn't have the root node",
        ),
        (
            ParseError::XmlTextNotFound("hostname"),
            "the text contents of an xml node aren't present: hostname",
        ),
        (
            ParseError::DetailNotFound("state"),
            "detail was not found: state",
        ),
        (ParseError::ParseServerStateError(cause()), "cause"),
        (ParseError::ParseServerVersionError(cause()), "cause"),
        (
            ParseError::ParseServerCodecModeSupport,
            "parsing server codec mode support",
        ),
        (ParseError::ParseMacError(cause()), "mac: cause"),
        (ParseError::ParseIntError(cause()), "int: cause"),
        (ParseError::ParseUuidError(cause()), "uuid: cause"),
        (ParseError::ParseHexError(cause()), "hex: cause"),
        (ParseError::ParseAddrError(cause()), "addr: cause"),
        (ParseError::ParsePem(cause()), "pem: cause"),
        (ParseError::Utf8Error(cause()), "utf-8: cause"),
    ];
    for (error, message) in cases {
        assert_eq!(error.message(), message);
    }
}

#[test]
fn identifiers_give_back_their_section() {
    let section = Pem::new("CERTIFICATE", vec![1, 2, 3]);
    let server = ServerIdentifier::from_pem(section.clone());
    assert_eq!(server.to_pem(), section);
    assert_eq!(server.clone(), server);
    let client = ClientIdentifier::from_pem(section.clone());
    assert_eq!(client.to_pem(), section);
    let secret = ClientSecret::from_pem(section.clone());
    assert_eq!(secret.to_pem(), section);
    assert_eq!(secret.debug_text(), "[ClientSecret]");
}

#[test]
fn a_new_client_is_not_pinned() {
    let client = UreqClient::with_defaults().unwrap();
    assert_eq!(client.timeout, RequestTimeout::Default);
    assert!(client.identity.is_none());
    assert!(client.pinned.is_none());
    assert!(matches!(client.connector(), ConnectorPlan::Regular));
    let client = UreqClient::with_defaults_long_timeout().unwrap();
    assert_eq!(client.timeout, RequestTimeout::Long);
    assert!(client.identity.is_none());
    assert!(matches!(client.connector(), ConnectorPlan::Regular));
}

#[test]
fn a_client_with_certificates_is_pinned_to_the_server() {
    let key = Pem::new("PRIVATE KEY", vec![0x30, 0x03, 0x02, 0x01, 0x00]);
    let own = Pem::new("CERTIFICATE", vec![10, 11]);
    let server = Pem::new("CERTIFICATE", vec![20, 21, 22]);
    let client = match UreqClient::with_certificates(&key, &own, &server) {
        Ok(client) => client,
        Err(_) => panic!("the key can be read"),
    };
    assert_eq!(client.timeout, RequestTimeout::Default);
    let identity = client.identity.clone().unwrap();
    assert_eq!(identity.certificate, [10, 11]);
    assert_eq!(identity.private_key, [0x30, 0x03, 0x02, 0x01, 0x00]);
    match client.connector() {
        ConnectorPlan::Pinned(connector) => {
            assert!(verify_server_cert(&connector.pinned, &[20, 21, 22]));
            assert!(!verify_server_cert(&connector.pinned, &[20, 21, 23]));
            assert!(!verify_server_cert(&connector.pinned, &[10, 11]));
        }
        ConnectorPlan::Regular => panic!("the client is pinned"),
    }
}

#[test]
fn a_section_without_a_key_gives_no_client() {
    let section = Pem::new("CERTIFICATE", vec![1, 2, 3]);
    match UreqClient::with_certificates(&section, &section, &section) {
        Err(error) => {
            assert_eq!(error.message(), "ureq: No pem encoded private key found");
            assert!(error.is_encryption());
        }
        Ok(_) => panic!("there is no key"),
    }
}

#[test]
fn a_failed_key_is_reported_as_it_came() {
    assert!(matches!(
        UreqClient::from_parts(Err((UreqFailure::Tls, String::from("why"))), &[1], &[2]),
        Err(UreqError::Ureq(UreqFailure::Tls, said)) if said == "why"
    ));
    let client = match UreqClient::from_parts(Ok(vec![9]), &[1], &[2]) {
        Ok(client) => client,
        Err(_) => panic!("there is a key"),
    };
    assert_eq!(client.pinned, Some(vec![2]));
}

#[test]
fn only_the_pinned_certificate_is_accepted() {
    assert!(verify_server_cert(&[1, 2, 3], &[1, 2, 3]));
    assert!(!verify_server_cert(&[1, 2, 3], &[1, 2]));
    assert!(!verify_server_cert(&[1, 2], &[1, 2, 3]));
    assert!(!verify_server_cert(&[1, 2, 3], &[1, 2, 4]));
    assert!(!verify_server_cert(&[1, 2, 3], &[]));
}

#[test]
fn only_an_open_connection_is_encrypted() {
    assert!(PinnedTlsConnector::needs_handshake(true, false));
    assert!(!PinnedTlsConnector::needs_handshake(true, true));
    assert!(!PinnedTlsConnector::needs_handshake(false, false));
    assert!(!PinnedTlsConnector::needs_handshake(false, true));
}

#[test]
fn a_server_is_asked_for_by_name_or_address() {
    assert_eq!(
        PinnedTlsConnector::server_name(Some("example.org"))
            .unwrap()
            .to_str(),
        "example.org"
    );
    assert_eq!(
        PinnedTlsConnector::server_name(Some("192.168.1.2"))
            .unwrap()
            .to_str(),
        "192.168.1.2"
    );
    assert_eq!(
        PinnedTlsConnector::server_name(Some("[fe80::1]")),
        PinnedTlsConnector::server_name(Some("fe80::1"))
    );
    assert_eq!(
        PinnedTlsConnector::server_name(Some("[fe80::1]"))
            .unwrap()
            .to_str(),
        "fe80::1"
    );
}

#[test]
fn a_text_that_is_no_server_name_is_refused() {
    for host in [None, Some(""), Some("[]"), Some("a b")] {
        assert_eq!(
            PinnedTlsConnector::server_name(host),
            Err(TlsFailure::InvalidDnsName)
        );
    }
}

#[test]
fn a_client_key_is_recognised_by_its_format() {
    let der = vec![0x30, 0x05, 0x02, 0x01, 0x00, 0x30, 0x00];
    let identity = ClientIdentity {
        certificate: vec![1, 2],
        private_key: der.clone(),
    };
    let (certificate, key) = client_key(identity).unwrap();
    assert_eq!(certificate, [1, 2]);
    assert_eq!(key.secret_der(), der);
    for bytes in [vec![], vec![0x30], vec![1, 2, 3]] {
        let identity = ClientIdentity {
            certificate: vec![1, 2],
            private_key: bytes,
        };
        assert_eq!(client_key(identity), Err(TlsFailure::InvalidClientKey));
    }
}

#[test]
fn sessions_are_never_resumed() {
    let connector = PinnedTlsConnector { pinned: vec![1, 2] };
    let settings = connector.tls_settings(None, true);
    assert_eq!(settings.pinned, [1, 2]);
    assert!(settings.client_auth.is_none());
    assert!(settings.enable_sni);
    assert!(!settings.resumption);
    assert!(!connector.tls_settings(None, false).enable_sni);
}

#[test]
fn tls_failures_say_what_is_wrong() {
    let cases = [
        (TlsFailure::ProtocolVersions, "Rustls protocol versions error"),
        (TlsFailure::InvalidClientKey, "Rustls invalid client key"),
        (
            TlsFailure::InvalidClientCertificate,
            "Rustls invalid client certificate",
        ),
        (TlsFailure::InvalidDnsName, "Rustls invalid dns name error"),
        (TlsFailure::ClientConnection, "Rustls client connection error"),
        (TlsFailure::Handshake, "Rustls handshake error"),
    ];
    for (failure, message) in cases {
        assert_eq!(failure.message(), message);
    }
}
