//! Endpoints of the server, and the address of a request to one.

use crate::http::client_info::{ClientInfo, Request};
use crate::http::error::ParseError;
#[allow(unused_imports)]
use crate::http::query::{QueryBuilder, QueryBuilderError};
use std::fmt::Debug;
use vstd::prelude::*;

verus! {

pub const DEFAULT_HTTP_PORT: u16 = 47989;

pub const DEFAULT_HTTPS_PORT: u16 = 47984;

/// This represents an endpoint on the http or https server that a client can query for
/// information or initiate a stream with.
pub trait Endpoint {
    type Request: Request;

    type Response;

    /// The path of this endpoint. Always begins with a `/`.
    fn path() -> (r: &'static str)
        ensures
            r@.len() > 0,
            r@[0] == '/',
    ;

    /// If this endpoint requires https / authentication
    ///
    /// If this returns false an authenticated response could still return a different result
    /// than an unauthenticated response.
    fn https_required() -> bool;
}

/// The error of the text writers of std.
#[verifier::external_type_specification]
#[verifier::external_body]
pub struct ExFmtError(std::fmt::Error);

/// A response that travels as text.
pub trait TextResponse: Sized + Debug {
    /// Reads a response.
    fn from_str(text: &str) -> (r: Result<Self, ParseError>);

    /// Writes the response behind the text that is there.
    fn serialize_into(&self, body_writer: &mut String) -> Result<(), std::fmt::Error>;
}

/// The address of a request: scheme, host and port, path, and the parameters behind a `?`.
pub open spec fn url_of(
    use_https: bool,
    hostport: Seq<char>,
    path: Seq<char>,
    query: Seq<char>,
) -> Seq<char> {
    (if use_https {
        "https://"@
    } else {
        "http://"@
    }) + hostport + path + "?"@ + query
}

/// The address of a request with that query.
pub fn url_for(use_https: bool, hostport: &str, path: &str, query: &str) -> (r: String)
    ensures
        r@ == url_of(use_https, hostport@, path@, query@),
{
    let scheme = if use_https {
        "https://".to_owned()
    } else {
        "http://".to_owned()
    };
    scheme.concat(hostport).concat(path).concat("?").concat(query)
}

/// Puts the address of a request together. The query carries the parameters of the client,
/// then those of the request. It fails exactly where the request refuses a builder that
/// always has room.
pub fn build_url<E: Endpoint>(
    use_https: bool,
    client_info: &ClientInfo,
    hostport: &str,
    request: &E::Request,
) -> (r: Result<String, QueryBuilderError>)
    ensures
        r is Ok <==> request.fits(|more: Seq<(Seq<char>, Seq<char>)>| true),
        r matches Ok(url) ==> exists|path: &'static str, query: String|
            {
                &&& #[trigger] call_ensures(E::path, (), path)
                &&& path@.len() > 0 && path@[0] == '/'
                &&& url@ == #[trigger] url_of(use_https, hostport@, path@, query@)
                &&& query.params() == client_info.query_params() + request.query_params()
            },
{
    let mut query = String::new();
    client_info.append_query_params(&mut query)?;
    assert((|more: Seq<(Seq<char>, Seq<char>)>| query.room(more)) =~= (|
        more: Seq<(Seq<char>, Seq<char>)>,
    | true));
    request.append_query_params(&mut query)?;
    let path = E::path();
    assert(query.params() =~= client_info.query_params() + request.query_params());
    Ok(url_for(use_https, hostport, path, query.as_str()))
}

/// An address is made of its parts, one behind the other and each as it is: `https://` or
/// `http://`, the host and port, the path, a `?` and the query.
pub proof fn lemma_url_parts(
    use_https: bool,
    hostport: Seq<char>,
    path: Seq<char>,
    query: Seq<char>,
)
    ensures
        ({
            let url = url_of(use_https, hostport, path, query);
            let scheme = if use_https {
                seq!['h', 't', 't', 'p', 's', ':', '/', '/']
            } else {
                seq!['h', 't', 't', 'p', ':', '/', '/']
            };
            let host_end = scheme.len() + hostport.len();
            let path_end = host_end + path.len();
            &&& url.len() == path_end + 1 + query.len()
            &&& url.subrange(0, scheme.len() as int) == scheme
            &&& url.subrange(scheme.len() as int, host_end as int) == hostport
            &&& url.subrange(host_end as int, path_end as int) == path
            &&& url[path_end as int] == '?'
            &&& url.skip((path_end + 1) as int) == query
        }),
{
    reveal_strlit("https://");
    reveal_strlit("http://");
    reveal_strlit("?");
    let url = url_of(use_https, hostport, path, query);
    let scheme = if use_https {
        seq!['h', 't', 't', 'p', 's', ':', '/', '/']
    } else {
        seq!['h', 't', 't', 'p', ':', '/', '/']
    };
    let host_end = scheme.len() + hostport.len();
    let path_end = host_end + path.len();
    assert(url =~= scheme + hostport + path + seq!['?'] + query);
    assert(url.subrange(0, scheme.len() as int) =~= scheme);
    assert(url.subrange(scheme.len() as int, host_end as int) =~= hostport);
    assert(url.subrange(host_end as int, path_end as int) =~= path);
    assert(url.skip((path_end + 1) as int) =~= query);
}

} // verus!
