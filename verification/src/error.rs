//! The closed error taxonomy of the client.

use vstd::prelude::*;

verus! {

/// Everything that can go wrong while fetching articles: a transport failure,
/// a failure to read the response body, a JSON decode failure, a failure to
/// build the request URL, or a semantic validation failure carrying a fixed
/// explanatory message.
#[derive(Clone, Copy, Debug, PartialEq, Eq)]
pub enum NewsApiError {
    /// The HTTP layer could not complete the request.
    RequestFailed,
    /// The response body could not be read to completion.
    FailedResponseToString,
    /// The body was not valid JSON of the expected envelope shape.
    ArticleParseFailed,
    /// The request URL could not be built from the base URL.
    UrlParsing,
    /// A semantic validation failure, with a fixed explanatory message.
    BadRequest(&'static str),
}

impl NewsApiError {
    /// The human-readable message of this error.
    pub open spec fn spec_message(self) -> Seq<char> {
        match self {
            NewsApiError::RequestFailed => "Failed fetching articles"@,
            NewsApiError::FailedResponseToString => "Failed converting response to string"@,
            NewsApiError::ArticleParseFailed => "Article Parsing failed"@,
            NewsApiError::UrlParsing => "Url parsing failed"@,
            NewsApiError::BadRequest(m) => "Request failed: "@ + m@,
        }
    }

    /// Renders the error as a human-readable message.
    pub fn message(&self) -> (r: String)
        ensures
            r@ == self.spec_message(),
    {
        match self {
            NewsApiError::RequestFailed => "Failed fetching articles".to_owned(),
            NewsApiError::FailedResponseToString => "Failed converting response to string".to_owned(),
            NewsApiError::ArticleParseFailed => "Article Parsing failed".to_owned(),
            NewsApiError::UrlParsing => "Url parsing failed".to_owned(),
            NewsApiError::BadRequest(m) => "Request failed: ".to_owned().concat(m),
        }
    }
}

} // verus!
