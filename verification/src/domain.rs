//! The two request endpoints and the supported countries, each with a
//! canonical string encoding and its decoding.

use vstd::prelude::*;

use crate::error::NewsApiError;
use crate::stdx::str_eq;

verus! {

/// The two operations the remote API offers: the top-headlines listing and the
/// full-text search over everything.
#[derive(Clone, Copy, Debug, PartialEq, Eq, Structural)]
pub enum Endpoint {
    TopHeadlines,
    Everything,
}

/// The supported ISO 3166-1 alpha-2 country codes.
#[derive(Clone, Copy, Debug, PartialEq, Eq, Structural)]
pub enum Country {
    Us,
    Gb,
    Ca,
    Au,
    In,
    Jp,
    Cn,
    De,
    Fr,
}

/// The canonical string form of an endpoint, used both as the URL path segment
/// and as the CLI spelling.
pub open spec fn spec_endpoint_str(e: Endpoint) -> Seq<char> {
    match e {
        Endpoint::TopHeadlines => "top-headlines"@,
        Endpoint::Everything => "everything"@,
    }
}

/// Decoding of an endpoint from its canonical string: exactly the two
/// canonical spellings are accepted, nothing else.
pub open spec fn spec_parse_endpoint(s: Seq<char>) -> Option<Endpoint> {
    if s == "top-headlines"@ {
        Some(Endpoint::TopHeadlines)
    } else if s == "everything"@ {
        Some(Endpoint::Everything)
    } else {
        None
    }
}

impl Endpoint {
    /// Encodes the endpoint as its canonical string.
    pub fn to_string(&self) -> (r: String)
        ensures
            r@ == spec_endpoint_str(*self),
    {
        match self {
            Endpoint::TopHeadlines => "top-headlines".to_owned(),
            Endpoint::Everything => "everything".to_owned(),
        }
    }

    /// Decodes an endpoint from its canonical string; any other string is
    /// rejected with a bad-request error.
    pub fn from_str(s: &str) -> (r: Result<Endpoint, NewsApiError>)
        ensures
            match spec_parse_endpoint(s@) {
                Some(e) => r == Ok::<Endpoint, NewsApiError>(e),
                None => (r matches Err(err) && err matches NewsApiError::BadRequest(m)
                    && m@ == "Invalid endpoint"@),
            },
    {
        if str_eq(s, "top-headlines") {
            Ok(Endpoint::TopHeadlines)
        } else if str_eq(s, "everything") {
            Ok(Endpoint::Everything)
        } else {
            Err(NewsApiError::BadRequest("Invalid endpoint"))
        }
    }
}

/// The canonical lowercase two-letter code of a country.
pub open spec fn spec_country_str(c: Country) -> Seq<char> {
    match c {
        Country::Us => "us"@,
        Country::Gb => "gb"@,
        Country::Ca => "ca"@,
        Country::Au => "au"@,
        Country::In => "in"@,
        Country::Jp => "jp"@,
        Country::Cn => "cn"@,
        Country::De => "de"@,
        Country::Fr => "fr"@,
    }
}

/// Decoding of a country from its canonical code: exactly the nine canonical
/// codes are accepted, nothing else.
pub open spec fn spec_parse_country(s: Seq<char>) -> Option<Country> {
    if s == "us"@ {
        Some(Country::Us)
    } else if s == "gb"@ {
        Some(Country::Gb)
    } else if s == "ca"@ {
        Some(Country::Ca)
    } else if s == "au"@ {
        Some(Country::Au)
    } else if s == "in"@ {
        Some(Country::In)
    } else if s == "jp"@ {
        Some(Country::Jp)
    } else if s == "cn"@ {
        Some(Country::Cn)
    } else if s == "de"@ {
        Some(Country::De)
    } else if s == "fr"@ {
        Some(Country::Fr)
    } else {
        None
    }
}

impl Country {
    /// Encodes the country as its canonical two-letter code.
    pub fn to_string(&self) -> (r: String)
        ensures
            r@ == spec_country_str(*self),
    {
        match self {
            Country::Us => "us".to_owned(),
            Country::Gb => "gb".to_owned(),
            Country::Ca => "ca".to_owned(),
            Country::Au => "au".to_owned(),
            Country::In => "in".to_owned(),
            Country::Jp => "jp".to_owned(),
            Country::Cn => "cn".to_owned(),
            Country::De => "de".to_owned(),
            Country::Fr => "fr".to_owned(),
        }
    }

    /// Decodes a country from its canonical code; any other string is rejected
    /// with a bad-request error.
    pub fn from_str(s: &str) -> (r: Result<Country, NewsApiError>)
        ensures
            match spec_parse_country(s@) {
                Some(c) => r == Ok::<Country, NewsApiError>(c),
                None => (r matches Err(err) && err matches NewsApiError::BadRequest(m)
                    && m@ == "Invalid country"@),
            },
    {
        if str_eq(s, "us") {
            Ok(Country::Us)
        } else if str_eq(s, "gb") {
            Ok(Country::Gb)
        } else if str_eq(s, "ca") {
            Ok(Country::Ca)
        } else if str_eq(s, "au") {
            Ok(Country::Au)
        } else if str_eq(s, "in") {
            Ok(Country::In)
        } else if str_eq(s, "jp") {
            Ok(Country::Jp)
        } else if str_eq(s, "cn") {
            Ok(Country::Cn)
        } else if str_eq(s, "de") {
            Ok(Country::De)
        } else if str_eq(s, "fr") {
            Ok(Country::Fr)
        } else {
            Err(NewsApiError::BadRequest("Invalid country"))
        }
    }
}

/// Encoding and decoding of an endpoint round-trip: decoding the canonical
/// string of any endpoint gives that endpoint back.
pub proof fn lemma_endpoint_round_trip(e: Endpoint)
    ensures
        spec_parse_endpoint(spec_endpoint_str(e)) == Some(e),
{
    reveal_strlit("top-headlines");
    reveal_strlit("everything");
    assert("top-headlines"@.len() == 13);
    assert("everything"@.len() == 10);
    assert("everything"@ != "top-headlines"@);
}

/// Encoding and decoding of a country round-trip: decoding the canonical code
/// of any country gives that country back.
pub proof fn lemma_country_round_trip(c: Country)
    ensures
        spec_parse_country(spec_country_str(c)) == Some(c),
{
    reveal_strlit("us");
    reveal_strlit("gb");
    reveal_strlit("ca");
    reveal_strlit("au");
    reveal_strlit("in");
    reveal_strlit("jp");
    reveal_strlit("cn");
    reveal_strlit("de");
    reveal_strlit("fr");
    assert("us"@[0] == 'u' && "gb"@[0] == 'g' && "ca"@[0] == 'c' && "au"@[0] == 'a'
        && "in"@[0] == 'i' && "jp"@[0] == 'j' && "cn"@[0] == 'c' && "de"@[0] == 'd'
        && "fr"@[0] == 'f');
    assert("ca"@[1] == 'a' && "cn"@[1] == 'n');
}

} // verus!
