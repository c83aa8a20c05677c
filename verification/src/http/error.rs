//! What can go wrong with a request and with its response.

use vstd::prelude::*;

verus! {

/// Why a response could not be read. Where another parser failed, the text is what it says.
#[derive(Debug, Clone, PartialEq)]
pub enum ParseError {
    ParseXmlError(String),
    InvalidXmlStatusCode { message: Option<String> },
    XmlRootNotFound,
    XmlTextNotFound(&'static str),
    DetailNotFound(&'static str),
    ParseServerStateError(String),
    ParseServerVersionError(String),
    ParseServerCodecModeSupport,
    ParseMacError(String),
    ParseIntError(String),
    ParseUuidError(String),
    ParseHexError(String),
    ParseAddrError(String),
    ParsePem(String),
    Utf8Error(String),
}

/// The message of a [`ParseError`].
pub open spec fn parse_error_text(error: ParseError) -> Seq<char> {
    match error {
        ParseError::ParseXmlError(_) => "the response is invalid xml"@,
        ParseError::InvalidXmlStatusCode { message: _ } =>
            "the returned xml doc has a non 200 status code"@,
        ParseError::XmlRootNotFound => "the returned xml doc doesn't have the root node"@,
        ParseError::XmlTextNotFound(node) =>
            "the text contents of an xml node aren't present: "@ + node@,
        ParseError::DetailNotFound(detail) => "detail was not found: "@ + detail@,
        ParseError::ParseServerStateError(cause) => cause@,
        ParseError::ParseServerVersionError(cause) => cause@,
        ParseError::ParseServerCodecModeSupport => "parsing server codec mode support"@,
        ParseError::ParseMacError(cause) => "mac: "@ + cause@,
        ParseError::ParseIntError(cause) => "int: "@ + cause@,
        ParseError::ParseUuidError(cause) => "uuid: "@ + cause@,
        ParseError::ParseHexError(cause) => "hex: "@ + cause@,
        ParseError::ParseAddrError(cause) => "addr: "@ + cause@,
        ParseError::ParsePem(cause) => "pem: "@ + cause@,
        ParseError::Utf8Error(cause) => "utf-8: "@ + cause@,
    }
}

/// One text behind the other.
fn joined(label: &str, cause: &str) -> (r: String)
    ensures
        r@ == label@ + cause@,
{
    let mut text = label.to_owned();
    text.append(cause);
    text
}

impl ParseError {
    /// The error in words.
    pub fn message(&self) -> (r: String)
        ensures
            r@ == parse_error_text(*self),
    {
        match self {
            ParseError::ParseXmlError(_) => "the response is invalid xml".to_owned(),
            ParseError::InvalidXmlStatusCode { message: _ } =>
                "the returned xml doc has a non 200 status code".to_owned(),
            ParseError::XmlRootNotFound =>
                "the returned xml doc doesn't have the root node".to_owned(),
            ParseError::XmlTextNotFound(node) =>
                joined("the text contents of an xml node aren't present: ", node),
            ParseError::DetailNotFound(detail) => joined("detail was not found: ", detail),
            ParseError::ParseServerStateError(cause) => cause.clone(),
            ParseError::ParseServerVersionError(cause) => cause.clone(),
            ParseError::ParseServerCodecModeSupport =>
                "parsing server codec mode support".to_owned(),
            ParseError::ParseMacError(cause) => joined("mac: ", cause.as_str()),
            ParseError::ParseIntError(cause) => joined("int: ", cause.as_str()),
            ParseError::ParseUuidError(cause) => joined("uuid: ", cause.as_str()),
            ParseError::ParseHexError(cause) => joined("hex: ", cause.as_str()),
            ParseError::ParseAddrError(cause) => joined("addr: ", cause.as_str()),
            ParseError::ParsePem(cause) => joined("pem: ", cause.as_str()),
            ParseError::Utf8Error(cause) => joined("utf-8: ", cause.as_str()),
        }
    }
}

/// What the transport reports, as far as callers tell failures apart.
#[derive(Debug, Clone, Copy, PartialEq, Eq, Structural)]
pub enum UreqFailure {
    HostNotFound,
    ConnectionFailed,
    Io,
    Tls,
    Other,
}

/// Why a request failed.
#[derive(Debug, Clone, PartialEq)]
pub enum UreqError {
    /// The transport failed; the text is what it says.
    Ureq(UreqFailure, String),
    Parse(ParseError),
    /// The request could not be put together; the text is what the HTTP types say.
    Http(String),
}

/// The message of a [`UreqError`].
pub open spec fn ureq_error_text(error: UreqError) -> Seq<char> {
    match error {
        UreqError::Ureq(_, said) => "ureq: "@ + said@,
        UreqError::Parse(cause) => "parse: "@ + parse_error_text(cause),
        UreqError::Http(said) => "http: "@ + said@,
    }
}

/// Whether a failure is one of reaching the server.
pub open spec fn is_connect_failure(error: UreqError) -> bool {
    error matches UreqError::Ureq(failure, _) && (failure == UreqFailure::HostNotFound || failure
        == UreqFailure::ConnectionFailed || failure == UreqFailure::Io)
}

/// Whether a failure is one of setting up the encrypted channel.
pub open spec fn is_encryption_failure(error: UreqError) -> bool {
    error matches UreqError::Ureq(failure, _) && failure == UreqFailure::Tls
}

impl UreqError {
    /// The error in words.
    pub fn message(&self) -> (r: String)
        ensures
            r@ == ureq_error_text(*self),
    {
        match self {
            UreqError::Ureq(_, said) => joined("ureq: ", said.as_str()),
            UreqError::Parse(cause) => joined("parse: ", cause.message().as_str()),
            UreqError::Http(said) => joined("http: ", said.as_str()),
        }
    }

    /// Whether the server could not be reached.
    pub fn is_connect(&self) -> (r: bool)
        ensures
            r == is_connect_failure(*self),
    {
        match self {
            UreqError::Ureq(UreqFailure::HostNotFound, _) => true,
            UreqError::Ureq(UreqFailure::ConnectionFailed, _) => true,
            UreqError::Ureq(UreqFailure::Io, _) => true,
            _ => false,
        }
    }

    /// Whether the encrypted channel could not be set up.
    pub fn is_encryption(&self) -> (r: bool)
        ensures
            r == is_encryption_failure(*self),
    {
        match self {
            UreqError::Ureq(UreqFailure::Tls, _) => true,
            _ => false,
        }
    }

    /// The parse error behind a failure, or the failure itself where it is none.
    pub fn try_into(self) -> (r: Result<ParseError, UreqError>)
        ensures
            r == (match self {
                UreqError::Parse(error) => Ok(error),
                _ => Err(self),
            }),
    {
        match self {
            UreqError::Parse(error) => Ok(error),
            _ => Err(self),
        }
    }
}

/// No failure is both a matter of reaching the server and one of encryption.
pub proof fn lemma_failure_kinds_are_disjoint(error: UreqError)
    ensures
        !(is_connect_failure(error) && is_encryption_failure(error)),
{
}

/// What the message of an error ends in: the whole of what the parser or the caller said,
/// behind a label that is the same for every error of the kind.
pub proof fn lemma_messages_end_in_the_cause(cause: String, name: &'static str)
    ensures
        parse_error_text(ParseError::ParseServerStateError(cause)) == cause@,
        parse_error_text(ParseError::ParseServerVersionError(cause)) == cause@,
        parse_error_text(ParseError::ParseMacError(cause)) == seq!['m', 'a', 'c', ':', ' '] + cause@,
        parse_error_text(ParseError::ParseIntError(cause)) == seq!['i', 'n', 't', ':', ' '] + cause@,
        parse_error_text(ParseError::ParseUuidError(cause)) == seq!['u', 'u', 'i', 'd', ':', ' ']
            + cause@,
        parse_error_text(ParseError::ParseHexError(cause)) == seq!['h', 'e', 'x', ':', ' '] + cause@,
        parse_error_text(ParseError::ParseAddrError(cause)) == seq!['a', 'd', 'd', 'r', ':', ' ']
            + cause@,
        parse_error_text(ParseError::ParsePem(cause)) == seq!['p', 'e', 'm', ':', ' '] + cause@,
        parse_error_text(ParseError::Utf8Error(cause)) == seq!['u', 't', 'f', '-', '8', ':', ' ']
            + cause@,
        parse_error_text(ParseError::DetailNotFound(name)).len() == 22 + name@.len(),
        parse_error_text(ParseError::DetailNotFound(name)).skip(22) == name@,
        parse_error_text(ParseError::XmlTextNotFound(name)).len() == 49 + name@.len(),
        parse_error_text(ParseError::XmlTextNotFound(name)).skip(49) == name@,
        ureq_error_text(UreqError::Http(cause)) == seq!['h', 't', 't', 'p', ':', ' '] + cause@,
{
    reveal_strlit("mac: ");
    reveal_strlit("int: ");
    reveal_strlit("uuid: ");
    reveal_strlit("hex: ");
    reveal_strlit("addr: ");
    reveal_strlit("pem: ");
    reveal_strlit("utf-8: ");
    reveal_strlit("http: ");
    reveal_strlit("detail was not found: ");
    reveal_strlit("the text contents of an xml node aren't present: ");
    assert("mac: "@ =~= seq!['m', 'a', 'c', ':', ' ']);
    assert("int: "@ =~= seq!['i', 'n', 't', ':', ' ']);
    assert("uuid: "@ =~= seq!['u', 'u', 'i', 'd', ':', ' ']);
    assert("hex: "@ =~= seq!['h', 'e', 'x', ':', ' ']);
    assert("addr: "@ =~= seq!['a', 'd', 'd', 'r', ':', ' ']);
    assert("pem: "@ =~= seq!['p', 'e', 'm', ':', ' ']);
    assert("utf-8: "@ =~= seq!['u', 't', 'f', '-', '8', ':', ' ']);
    assert("http: "@ =~= seq!['h', 't', 't', 'p', ':', ' ']);
    assert(parse_error_text(ParseError::DetailNotFound(name)).skip(22) =~= name@);
    assert(parse_error_text(ParseError::XmlTextNotFound(name)).skip(49) =~= name@);
}

/// What the message of a failed request ends in: the whole of what the transport said, or the
/// whole message of the parse error.
pub proof fn lemma_request_messages(failure: UreqFailure, said: String, error: ParseError)
    ensures
        ureq_error_text(UreqError::Ureq(failure, said)) == seq!['u', 'r', 'e', 'q', ':', ' '] + said@,
        ureq_error_text(UreqError::Parse(error)) == seq!['p', 'a', 'r', 's', 'e', ':', ' ']
            + parse_error_text(error),
{
    reveal_strlit("ureq: ");
    reveal_strlit("parse: ");
    assert("ureq: "@ =~= seq!['u', 'r', 'e', 'q', ':', ' ']);
    assert("parse: "@ =~= seq!['p', 'a', 'r', 's', 'e', ':', ' ']);
}

/// Every failure of the transport is one of reaching the server, one of encryption, or neither,
/// by its kind alone; an error of parsing or of putting the request together is neither.
pub proof fn lemma_failures_by_kind(
    failure: UreqFailure,
    said: String,
    other: String,
    error: ParseError,
)
    ensures
        is_connect_failure(UreqError::Ureq(failure, said)) <==> failure !is Tls && failure !is Other,
        is_encryption_failure(UreqError::Ureq(failure, said)) <==> failure is Tls,
        is_connect_failure(UreqError::Ureq(failure, said)) == is_connect_failure(
            UreqError::Ureq(failure, other),
        ),
        !is_connect_failure(UreqError::Parse(error)),
        !is_connect_failure(UreqError::Http(said)),
        !is_encryption_failure(UreqError::Parse(error)),
        !is_encryption_failure(UreqError::Http(said)),
{
}

/// What a message does not show: neither what the XML parser said nor the message of a status
/// code. Where it shows a name, the words before the name are always the same.
pub proof fn lemma_fixed_words(
    cause: String,
    message: Option<String>,
    node: &'static str,
    detail: &'static str,
)
    ensures
        parse_error_text(ParseError::ParseXmlError(cause)) == "the response is invalid xml"@,
        parse_error_text(ParseError::InvalidXmlStatusCode { message })
            == "the returned xml doc has a non 200 status code"@,
        parse_error_text(ParseError::XmlTextNotFound(node)).take(49)
            == "the text contents of an xml node aren't present: "@,
        parse_error_text(ParseError::DetailNotFound(detail)).take(22) == "detail was not found: "@,
{
    reveal_strlit("detail was not found: ");
    reveal_strlit("the text contents of an xml node aren't present: ");
    assert(parse_error_text(ParseError::XmlTextNotFound(node)).take(49)
        =~= "the text contents of an xml node aren't present: "@);
    assert(parse_error_text(ParseError::DetailNotFound(detail)).take(22)
        =~= "detail was not found: "@);
}

} // verus!
