//! The HTTP side of the client: URL assembly through the `url` crate and the
//! blocking GET through `ureq`.

use vstd::prelude::*;

verus! {

#[verifier::external_type_specification]
#[verifier::external_body]
pub struct ExRequest(ureq::Request);

#[verifier::external_type_specification]
#[verifier::external_body]
pub struct ExResponse(ureq::Response);

#[verifier::external_type_specification]
#[verifier::external_body]
pub struct ExUreqError(ureq::Error);

#[verifier::external_type_specification]
#[verifier::external_body]
pub struct ExIoError(std::io::Error);

/// The fixed base of every request URL.
pub open spec fn spec_base_url() -> Seq<char> {
    "https://newsapi.org/v2"@
}

/// Hands out the fixed base of every request URL.
pub(crate) fn base_url() -> (r: &'static str)
    ensures
        r@ == spec_base_url(),
{
    "https://newsapi.org/v2"
}

/// The string the `url` crate serializes an absolute base URL to after one
/// path segment is appended and a query string is attached. It depends on the
/// three arguments alone.
pub uninterp spec fn url_of(base: Seq<char>, segment: Seq<char>, query: Seq<char>) -> Seq<char>;

/// Relies on `url::Url::parse`, `Url::path_segments_mut`,
/// `PathSegmentsMut::push`, `Url::set_query` and `Url`'s serialization: the
/// base is parsed as an absolute URL, the segment is appended to its path,
/// the query string is attached after `?`, and the whole is written back out;
/// the result is a function of the three arguments alone. Every step succeeds
/// on the one base this crate uses: it is a valid absolute URL with a host,
/// so `parse` accepts it, and it is not cannot-be-a-base, so
/// `path_segments_mut` accepts it too.
#[verifier::external_body]
pub(crate) fn assemble_url(base: &str, segment: &str, query: &str) -> (r: String)
    requires
        base@ == spec_base_url(),
    ensures
        r@ == url_of(base@, segment@, query@),
{
    let mut url = url::Url::parse(base).expect("the base URL is a valid absolute URL");
    url.path_segments_mut().expect("the base URL can be a base").push(segment);
    url.set_query(Some(query));
    url.to_string()
}

/// Relies on `ureq::get`: builds a GET request for the given URL.
#[verifier::external_body]
pub(crate) fn http_get(url: &str) -> ureq::Request {
    ureq::get(url)
}

/// Relies on `ureq::Request::set`: adds the one header to the request.
#[verifier::external_body]
pub(crate) fn with_header(req: ureq::Request, name: &str, value: &str) -> ureq::Request {
    req.set(name, value)
}

/// Relies on `ureq::Request::call`: one blocking HTTP round trip; the outcome
/// depends on the network.
#[verifier::external_body]
pub(crate) fn send(req: ureq::Request) -> Result<ureq::Response, ureq::Error> {
    req.call()
}

/// Relies on `ureq::Response::into_string`: reads the response body to
/// completion; the outcome depends on the network.
#[verifier::external_body]
pub(crate) fn read_body(resp: ureq::Response) -> Result<String, std::io::Error> {
    resp.into_string()
}

} // verus!
