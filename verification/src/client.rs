//! The API client: configuration, request building, and the blocking fetch.

use vstd::prelude::*;

use crate::domain::Country;
use crate::domain::Endpoint;
use crate::domain::spec_country_str;
use crate::domain::spec_endpoint_str;
use crate::error::NewsApiError;
use crate::response::NewsAPIResponse;
use crate::web::assemble_url;
use crate::web::base_url;
use crate::web::http_get;
use crate::web::read_body;
use crate::web::send;
use crate::web::spec_base_url;
use crate::web::url_of;
use crate::web::with_header;

verus! {

/// The client: the API key and the request configuration. Defaults to the
/// top-headlines endpoint over the United States with no search query;
/// validation of the configuration happens when the URL is built, not when a
/// field is set.
#[derive(Clone, Debug)]
pub struct NewsAPI {
    api_key: String,
    endpoint: Endpoint,
    country: Country,
    query: Option<String>,
}

impl NewsAPI {
    /// The configured API key, as a sequence of characters.
    pub closed spec fn spec_api_key(&self) -> Seq<char> {
        self.api_key@
    }

    /// The configured endpoint.
    pub closed spec fn spec_endpoint(&self) -> Endpoint {
        self.endpoint
    }

    /// The configured country.
    pub closed spec fn spec_country(&self) -> Country {
        self.country
    }

    /// The configured search query, as a sequence of characters.
    pub closed spec fn spec_query(&self) -> Option<Seq<char>> {
        self.query.deep_view()
    }

    /// Whether the configuration can be turned into a request URL: only the
    /// full-text search without a query cannot.
    pub open spec fn spec_config_valid(&self) -> bool {
        !(self.spec_endpoint() == Endpoint::Everything && self.spec_query() is None)
    }

    /// The query string of the request URL: the country parameter for top
    /// headlines, the search parameter for the full-text search. Meaningful
    /// only for a valid configuration.
    pub open spec fn spec_params(&self) -> Seq<char> {
        match self.spec_endpoint() {
            Endpoint::TopHeadlines => "country="@ + spec_country_str(self.spec_country()),
            Endpoint::Everything => match self.spec_query() {
                Some(q) => "q="@ + q,
                None => Seq::empty(),
            },
        }
    }

    /// Builds a client with the given API key and the default configuration.
    pub fn new(api_key: &str) -> (r: NewsAPI)
        ensures
            r.spec_api_key() == api_key@,
            r.spec_endpoint() == Endpoint::TopHeadlines,
            r.spec_country() == Country::Us,
            r.spec_query() is None,
    {
        NewsAPI {
            api_key: api_key.to_owned(),
            endpoint: Endpoint::TopHeadlines,
            country: Country::Us,
            query: None,
        }
    }

    /// Sets the endpoint; the rest of the configuration is unchanged.
    pub fn endpoint(&mut self, endpoint: Endpoint)
        ensures
            final(self).spec_endpoint() == endpoint,
            final(self).spec_api_key() == old(self).spec_api_key(),
            final(self).spec_country() == old(self).spec_country(),
            final(self).spec_query() == old(self).spec_query(),
    {
        self.endpoint = endpoint;
    }

    /// Sets the country; the rest of the configuration is unchanged.
    pub fn country(&mut self, country: Country)
        ensures
            final(self).spec_country() == country,
            final(self).spec_api_key() == old(self).spec_api_key(),
            final(self).spec_endpoint() == old(self).spec_endpoint(),
            final(self).spec_query() == old(self).spec_query(),
    {
        self.country = country;
    }

    /// Sets the search query; the rest of the configuration is unchanged.
    pub fn query(&mut self, query: &str)
        ensures
            final(self).spec_query() matches Some(q) && q == query@,
            final(self).spec_api_key() == old(self).spec_api_key(),
            final(self).spec_endpoint() == old(self).spec_endpoint(),
            final(self).spec_country() == old(self).spec_country(),
    {
        self.query = Some(query.to_owned());
    }

    /// Builds the request URL for the configuration: the endpoint's canonical
    /// string becomes the path segment and the endpoint's parameters become
    /// the query string. Exactly the full-text search without a query is
    /// rejected; every other configuration gets its URL. The query value is
    /// handed to the URL serializer as it was given, not percent-encoded
    /// beforehand. The result depends only on the endpoint, the country and
    /// the query; the API key plays no part in it.
    pub fn prepare_url(&self) -> (r: Result<String, NewsApiError>)
        ensures
            !self.spec_config_valid() ==> (r matches Err(e)
                && e matches NewsApiError::BadRequest(m)
                && m@ == "Query is required for 'everything' endpoint"@),
            self.spec_config_valid() ==> (r matches Ok(u) && u@ == url_of(
                spec_base_url(),
                spec_endpoint_str(self.spec_endpoint()),
                self.spec_params(),
            )),
    {
        let segment = self.endpoint.to_string();
        let params: String = match self.endpoint {
            Endpoint::TopHeadlines => {
                let country = self.country.to_string();
                "country=".to_owned().concat(country.as_str())
            },
            Endpoint::Everything => {
                match &self.query {
                    Some(q) => "q=".to_owned().concat(q.as_str()),
                    None => {
                        return Err(NewsApiError::BadRequest(
                            "Query is required for 'everything' endpoint",
                        ));
                    },
                }
            },
        };
        Ok(assemble_url(base_url(), segment.as_str(), params.as_str()))
    }

    /// Performs one blocking fetch: builds the URL, issues the GET with the
    /// API key as the `Authorization` header, decodes the envelope and
    /// interprets its status. Exactly the full-text search without a query is
    /// rejected before anything is sent; a successful result always reports
    /// status `"ok"`; every failure is one of the taxonomy's kinds, never a
    /// URL-building error.
    pub fn fetch(&self) -> (r: Result<NewsAPIResponse, NewsApiError>)
        ensures
            (r matches Err(e) && e matches NewsApiError::BadRequest(m)
                && m@ == "Query is required for 'everything' endpoint"@)
                <==> !self.spec_config_valid(),
            r matches Ok(resp) ==> resp.spec_status() == "ok"@,
            r matches Err(e) ==> (e matches NewsApiError::BadRequest(_)
                || e == NewsApiError::RequestFailed
                || e == NewsApiError::FailedResponseToString
                || e == NewsApiError::ArticleParseFailed),
    {
        proof {
            reveal_strlit("Query is required for 'everything' endpoint");
            reveal_strlit("Your API key has been disabled");
            reveal_strlit("Unknown error");
            assert("Query is required for 'everything' endpoint"@.len() == 43);
            assert("Your API key has been disabled"@.len() == 30);
            assert("Unknown error"@.len() == 13);
        }
        let url = match self.prepare_url() {
            Ok(u) => u,
            Err(e) => return Err(e),
        };
        let req = http_get(url.as_str());
        let req = with_header(req, "Authorization", self.api_key.as_str());
        let resp = match send(req) {
            Ok(x) => x,
            Err(_) => return Err(NewsApiError::RequestFailed),
        };
        let body = match read_body(resp) {
            Ok(b) => b,
            Err(_) => return Err(NewsApiError::FailedResponseToString),
        };
        NewsAPIResponse::from_body(body.as_str())
    }
}

} // verus!
