//! The response envelope `{status, articles[], code}` and its decoding.

use vstd::prelude::*;

use crate::error::NewsApiError;
use crate::json::SpecJson;
use crate::json::json_array;
use crate::json::json_get;
use crate::json::json_is_null;
use crate::json::json_model;
use crate::json::json_parses;
use crate::json::json_str;
use crate::json::parse_json;
use crate::json::spec_json_of;
use crate::stdx::str_eq;

verus! {

/// One article of a response: a title and the URL of the full story, both
/// taken from the wire unmodified.
#[derive(Clone, Debug, PartialEq, Eq)]
pub struct Article {
    title: String,
    url: String,
}

impl Article {
    /// The article's title, as a sequence of characters.
    pub closed spec fn spec_title(&self) -> Seq<char> {
        self.title@
    }

    /// The URL of the full story, as a sequence of characters.
    pub closed spec fn spec_url(&self) -> Seq<char> {
        self.url@
    }

    /// Builds an article from its two fields.
    pub fn new(title: String, url: String) -> (r: Article)
        ensures
            r.spec_title() == title@,
            r.spec_url() == url@,
    {
        Article { title, url }
    }

    /// The article's title.
    pub fn title(&self) -> (r: &str)
        ensures
            r@ == self.spec_title(),
    {
        self.title.as_str()
    }

    /// The URL of the full story.
    pub fn url(&self) -> (r: &str)
        ensures
            r@ == self.spec_url(),
    {
        self.url.as_str()
    }
}

/// The decoded wire envelope: the reported status, the articles in server
/// order, and the optional machine-readable error code.
#[derive(Clone, Debug, PartialEq, Eq)]
pub struct NewsAPIResponse {
    status: String,
    articles: Vec<Article>,
    code: Option<String>,
}

/// What a well-shaped envelope holds, read off the JSON model: the status
/// string, the articles as (title, url) pairs in wire order, and the optional
/// error code.
pub struct SpecEnvelope {
    pub status: Seq<char>,
    pub articles: Seq<(Seq<char>, Seq<char>)>,
    pub code: Option<Seq<char>>,
}

/// One member of a JSON object: the value under the key, when the tree is an
/// object that has it.
pub open spec fn spec_member(j: SpecJson, key: Seq<char>) -> Option<SpecJson> {
    match j {
        SpecJson::Obj(o) => if o.contains_key(key) {
            Some(o[key])
        } else {
            None
        },
        _ => None,
    }
}

/// A string-valued member of a JSON object.
pub open spec fn spec_str_member(j: SpecJson, key: Seq<char>) -> Option<Seq<char>> {
    match spec_member(j, key) {
        Some(SpecJson::Str(s)) => Some(s),
        _ => None,
    }
}

/// Whether one element of the articles array has the expected shape: an
/// object with string members `title` and `url`.
pub open spec fn spec_article_ok(j: SpecJson) -> bool {
    spec_str_member(j, "title"@) is Some && spec_str_member(j, "url"@) is Some
}

/// The title and URL of a well-shaped article element.
pub open spec fn spec_article(j: SpecJson) -> (Seq<char>, Seq<char>) {
    (
        match spec_str_member(j, "title"@) {
            Some(t) => t,
            None => Seq::empty(),
        },
        match spec_str_member(j, "url"@) {
            Some(u) => u,
            None => Seq::empty(),
        },
    )
}

/// The `code` member as the envelope carries it: an absent or null member is
/// no code, a string member is that code, any other member is not the
/// envelope shape.
pub open spec fn spec_code_member(j: SpecJson) -> Option<Option<Seq<char>>> {
    match spec_member(j, "code"@) {
        None => Some(None),
        Some(SpecJson::Null) => Some(None),
        Some(SpecJson::Str(c)) => Some(Some(c)),
        Some(_) => None,
    }
}

/// The envelope a JSON tree decodes to: an object whose `status` member is a
/// string, whose `articles` member is an array of well-shaped articles, and
/// whose `code` member is absent, null or a string; any other tree is not an
/// envelope. Unknown members are ignored.
pub open spec fn spec_envelope_of(j: SpecJson) -> Option<SpecEnvelope> {
    match (spec_str_member(j, "status"@), spec_code_member(j), spec_member(j, "articles"@)) {
        (Some(status), Some(code), Some(SpecJson::Arr(elems))) => {
            if forall|i: int| 0 <= i < elems.len() ==> spec_article_ok(#[trigger] elems[i]) {
                Some(SpecEnvelope {
                    status,
                    articles: Seq::new(elems.len(), |i: int| spec_article(elems[i])),
                    code,
                })
            } else {
                None
            }
        },
        _ => None,
    }
}

/// The message of the error that a failure status maps to: the one known
/// error code has its own message, every other code and an absent code map to
/// the generic one.
pub open spec fn spec_response_err_msg(code: Option<Seq<char>>) -> Seq<char> {
    match code {
        Some(c) => if c == "apiKeyDisabled"@ {
            "Your API key has been disabled"@
        } else {
            "Unknown error"@
        },
        None => "Unknown error"@,
    }
}

/// Maps the application-level error code of a failure response to the error
/// taxonomy.
pub fn map_response_err(code: Option<String>) -> (r: NewsApiError)
    ensures
        r matches NewsApiError::BadRequest(m) && m@ == spec_response_err_msg(code.deep_view()),
{
    match code {
        Some(c) => {
            if str_eq(c.as_str(), "apiKeyDisabled") {
                NewsApiError::BadRequest("Your API key has been disabled")
            } else {
                NewsApiError::BadRequest("Unknown error")
            }
        },
        None => NewsApiError::BadRequest("Unknown error"),
    }
}

impl NewsAPIResponse {
    /// The reported status, as a sequence of characters.
    pub closed spec fn spec_status(&self) -> Seq<char> {
        self.status@
    }

    /// The optional machine-readable error code, as a sequence of characters.
    pub closed spec fn spec_code(&self) -> Option<Seq<char>> {
        self.code.deep_view()
    }

    /// The articles of the response, in server order.
    pub closed spec fn spec_articles(&self) -> Seq<Article> {
        self.articles@
    }

    /// Whether this response carries exactly what the envelope model holds:
    /// same status, same code, and the same articles in the same order.
    pub open spec fn matches_envelope(&self, env: SpecEnvelope) -> bool {
        &&& self.spec_status() == env.status
        &&& self.spec_code() == env.code
        &&& self.spec_articles().len() == env.articles.len()
        &&& forall|i: int|
            0 <= i < env.articles.len() ==> {
                &&& (#[trigger] self.spec_articles()[i]).spec_title() == env.articles[i].0
                &&& self.spec_articles()[i].spec_url() == env.articles[i].1
            }
    }

    /// Builds an envelope from its three fields.
    pub fn new(status: String, articles: Vec<Article>, code: Option<String>) -> (r: NewsAPIResponse)
        ensures
            r.spec_status() == status@,
            r.spec_articles() == articles@,
            r.spec_code() == code.deep_view(),
    {
        NewsAPIResponse { status, articles, code }
    }

    /// The articles of the response, in the order the server sent them.
    pub fn articles(&self) -> (r: &Vec<Article>)
        ensures
            r@ == self.spec_articles(),
    {
        &self.articles
    }

    /// The reported status of the response.
    pub fn status(&self) -> (r: &str)
        ensures
            r@ == self.spec_status(),
    {
        self.status.as_str()
    }

    /// Interprets the reported status: a response whose status is `"ok"` is
    /// handed back whole, any other status is mapped to the error its code
    /// stands for.
    pub fn into_result(self) -> (r: Result<NewsAPIResponse, NewsApiError>)
        ensures
            self.spec_status() == "ok"@ ==> (r matches Ok(out) && out == self),
            self.spec_status() != "ok"@ ==> (r matches Err(e)
                && e matches NewsApiError::BadRequest(m)
                && m@ == spec_response_err_msg(self.spec_code())),
    {
        if str_eq(self.status.as_str(), "ok") {
            Ok(self)
        } else {
            Err(map_response_err(self.code))
        }
    }

    /// Decodes a response body and interprets its status: a body that is not
    /// valid JSON of the envelope shape gives a decode error; a well-shaped
    /// envelope with status `"ok"` gives that envelope whole, and one with any
    /// other status gives the error its code stands for.
    pub fn from_body(body: &str) -> (r: Result<NewsAPIResponse, NewsApiError>)
        ensures
            !json_parses(body@) ==> (r matches Err(e) && e == NewsApiError::ArticleParseFailed),
            json_parses(body@) ==> match spec_envelope_of(spec_json_of(body@)) {
                Some(env) => {
                    &&& (env.status == "ok"@ ==> (r matches Ok(out) && out.matches_envelope(env)))
                    &&& (env.status != "ok"@ ==> (r matches Err(e)
                        && e matches NewsApiError::BadRequest(m)
                        && m@ == spec_response_err_msg(env.code)))
                },
                None => r matches Err(e) && e == NewsApiError::ArticleParseFailed,
            },
            r matches Ok(out) ==> out.spec_status() == "ok"@,
            r matches Err(e) ==> (e == NewsApiError::ArticleParseFailed
                || e matches NewsApiError::BadRequest(_)),
    {
        match parse_envelope(body) {
            Ok(envelope) => envelope.into_result(),
            Err(e) => Err(e),
        }
    }
}

/// A tree whose articles array holds one ill-shaped element decodes to no
/// envelope, whatever its other members hold.
proof fn lemma_envelope_none_of_bad_article(j: SpecJson, elems: Seq<SpecJson>, i: int)
    requires
        spec_member(j, "articles"@) == Some(SpecJson::Arr(elems)),
        0 <= i < elems.len(),
        !spec_article_ok(elems[i]),
    ensures
        spec_envelope_of(j) is None,
{
    assert(!(forall|k: int| 0 <= k < elems.len() ==> spec_article_ok(#[trigger] elems[k]))) by {
        assert(0 <= i < elems.len() && !spec_article_ok(elems[i]));
    }
}

/// Decodes the envelope shape out of a response body, exactly as
/// `spec_envelope_of` reads it off the body's JSON model; anything else is a
/// decode error.
fn parse_envelope(body: &str) -> (r: Result<NewsAPIResponse, NewsApiError>)
    ensures
        !json_parses(body@) ==> (r matches Err(e) && e == NewsApiError::ArticleParseFailed),
        json_parses(body@) ==> match spec_envelope_of(spec_json_of(body@)) {
            Some(env) => r matches Ok(resp) && resp.matches_envelope(env),
            None => r matches Err(e) && e == NewsApiError::ArticleParseFailed,
        },
{
    let ghost model = spec_json_of(body@);
    let root = match parse_json(body) {
        Ok(v) => v,
        Err(_) => return Err(NewsApiError::ArticleParseFailed),
    };
    let status = match json_get(&root, "status") {
        Some(sv) => match json_str(&sv) {
            Some(s) => s,
            None => return Err(NewsApiError::ArticleParseFailed),
        },
        None => return Err(NewsApiError::ArticleParseFailed),
    };
    let code = match json_get(&root, "code") {
        Some(cv) => {
            if json_is_null(&cv) {
                None
            } else {
                match json_str(&cv) {
                    Some(c) => Some(c),
                    None => return Err(NewsApiError::ArticleParseFailed),
                }
            }
        },
        None => None,
    };
    let entries = match json_get(&root, "articles") {
        Some(av) => match json_array(&av) {
            Some(a) => a,
            None => return Err(NewsApiError::ArticleParseFailed),
        },
        None => return Err(NewsApiError::ArticleParseFailed),
    };
    let ghost elems = match spec_member(model, "articles"@) {
        Some(SpecJson::Arr(e)) => e,
        _ => Seq::empty(),
    };
    let mut articles: Vec<Article> = Vec::new();
    let mut i: usize = 0;
    while i < entries.len()
        invariant
            i <= entries@.len(),
            entries@.len() == elems.len(),
            forall|k: int| 0 <= k < entries@.len() ==> json_model(#[trigger] entries@[k]) == elems[k],
            articles@.len() == i,
            forall|k: int| 0 <= k < i ==> spec_article_ok(#[trigger] elems[k]),
            forall|k: int|
                0 <= k < i ==> ((#[trigger] articles@[k]).spec_title() == spec_article(elems[k]).0
                    && articles@[k].spec_url() == spec_article(elems[k]).1),
            json_parses(body@),
            model == spec_json_of(body@),
            spec_str_member(model, "status"@) == Some(status@),
            spec_code_member(model) == Some(code.deep_view()),
            spec_member(model, "articles"@) == Some(SpecJson::Arr(elems)),
        decreases entries@.len() - i,
    {
        let entry = &entries[i];
        let title = match json_get(entry, "title") {
            Some(tv) => match json_str(&tv) {
                Some(t) => t,
                None => {
                    proof {
                        assert(!spec_article_ok(elems[i as int]));
                        lemma_envelope_none_of_bad_article(model, elems, i as int);
                    }
                    return Err(NewsApiError::ArticleParseFailed);
                },
            },
            None => {
                proof {
                    assert(!spec_article_ok(elems[i as int]));
                    lemma_envelope_none_of_bad_article(model, elems, i as int);
                }
                return Err(NewsApiError::ArticleParseFailed);
            },
        };
        let url = match json_get(entry, "url") {
            Some(uv) => match json_str(&uv) {
                Some(u) => u,
                None => {
                    proof {
                        assert(!spec_article_ok(elems[i as int]));
                        lemma_envelope_none_of_bad_article(model, elems, i as int);
                    }
                    return Err(NewsApiError::ArticleParseFailed);
                },
            },
            None => {
                proof {
                    assert(!spec_article_ok(elems[i as int]));
                    lemma_envelope_none_of_bad_article(model, elems, i as int);
                }
                return Err(NewsApiError::ArticleParseFailed);
            },
        };
        articles.push(Article { title, url });
        i += 1;
    }
    let resp = NewsAPIResponse { status, articles, code };
    proof {
        let env = spec_envelope_of(model);
        assert(env matches Some(e) && resp.matches_envelope(e));
    }
    Ok(resp)
}

/// Picks the article a one-based choice refers to and hands back its URL;
/// a choice outside the list gives nothing.
pub fn select_article(articles: &Vec<Article>, choice: usize) -> (r: Option<String>)
    ensures
        1 <= choice <= articles@.len() ==> (r matches Some(u)
            && u@ == articles@[choice - 1].spec_url()),
        !(1 <= choice <= articles@.len()) ==> r is None,
{
    if 1 <= choice && choice <= articles.len() {
        Some(articles[choice - 1].url.clone())
    } else {
        None
    }
}

} // verus!
