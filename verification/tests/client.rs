use newsapi::Article;
use newsapi::Country;
use newsapi::Endpoint;
use newsapi::NewsAPI;
use newsapi::NewsAPIResponse;
use newsapi::NewsApiError;
use newsapi::map_response_err;
use newsapi::select_article;

#[test]
fn endpoint_round_trip() {
    for e in [Endpoint::TopHeadlines, Endpoint::Everything] {
        assert_eq!(Endpoint::from_str(&e.to_string()), Ok(e));
    }
}

#[test]
fn country_round_trip() {
    for c in [
        Country::Us,
        Country::Gb,
        Country::Ca,
        Country::Au,
        Country::In,
        Country::Jp,
        Country::Cn,
        Country::De,
        Country::Fr,
    ] {
        assert_eq!(Country::from_str(&c.to_string()), Ok(c));
    }
}

#[test]
fn endpoint_canonical_strings() {
    assert_eq!(Endpoint::TopHeadlines.to_string(), "top-headlines");
    assert_eq!(Endpoint::Everything.to_string(), "everything");
}

#[test]
fn country_canonical_strings() {
    assert_eq!(Country::Us.to_string(), "us");
    assert_eq!(Country::Gb.to_string(), "gb");
    assert_eq!(Country::Ca.to_string(), "ca");
    assert_eq!(Country::Au.to_string(), "au");
    assert_eq!(Country::In.to_string(), "in");
    assert_eq!(Country::Jp.to_string(), "jp");
    assert_eq!(Country::Cn.to_string(), "cn");
    assert_eq!(Country::De.to_string(), "de");
    assert_eq!(Country::Fr.to_string(), "fr");
}

#[test]
fn endpoint_rejects_non_canonical_strings() {
    for s in ["TopHeadlines", "top_headlines", "", "everything ", "news"] {
        assert_eq!(
            Endpoint::from_str(s),
            Err(NewsApiError::BadRequest("Invalid endpoint"))
        );
    }
}

#[test]
fn country_rejects_non_canonical_strings() {
    for s in ["US", "usa", "", "u", "zz"] {
        assert_eq!(
            Country::from_str(s),
            Err(NewsApiError::BadRequest("Invalid country"))
        );
    }
}

#[test]
fn prepare_url_top_headlines_gb() {
    let mut client = NewsAPI::new("test-key");
    client.country(Country::Gb);
    let url = client.prepare_url().unwrap();
    assert!(url.ends_with("/top-headlines?country=gb"));
    assert_eq!(url, "https://newsapi.org/v2/top-headlines?country=gb");
}

#[test]
fn prepare_url_defaults_to_us_headlines() {
    let client = NewsAPI::new("test-key");
    let url = client.prepare_url().unwrap();
    assert_eq!(url, "https://newsapi.org/v2/top-headlines?country=us");
}

#[test]
fn prepare_url_everything_with_query() {
    let mut client = NewsAPI::new("test-key");
    client.endpoint(Endpoint::Everything);
    client.query("rust");
    let url = client.prepare_url().unwrap();
    assert!(url.ends_with("/everything?q=rust"));
    assert_eq!(url, "https://newsapi.org/v2/everything?q=rust");
}

#[test]
fn prepare_url_everything_without_query() {
    let mut client = NewsAPI::new("test-key");
    client.endpoint(Endpoint::Everything);
    assert_eq!(
        client.prepare_url(),
        Err(NewsApiError::BadRequest(
            "Query is required for 'everything' endpoint"
        ))
    );
}

#[test]
fn fetch_everything_without_query_fails_before_sending() {
    let mut client = NewsAPI::new("test-key");
    client.endpoint(Endpoint::Everything);
    let err = client.fetch().unwrap_err();
    assert_eq!(
        err,
        NewsApiError::BadRequest("Query is required for 'everything' endpoint")
    );
}

#[test]
fn setting_country_leaves_endpoint_alone() {
    let mut client = NewsAPI::new("test-key");
    client.endpoint(Endpoint::Everything);
    client.country(Country::Fr);
    client.query("ada");
    let url = client.prepare_url().unwrap();
    assert_eq!(url, "https://newsapi.org/v2/everything?q=ada");
}

#[test]
fn from_body_ok_envelope() {
    let body = r#"{"status":"ok","articles":[{"title":"A","url":"http://x"}],"code":null}"#;
    let response = NewsAPIResponse::from_body(body).unwrap();
    assert_eq!(response.status(), "ok");
    assert_eq!(response.articles().len(), 1);
    assert_eq!(response.articles()[0].title(), "A");
    assert_eq!(response.articles()[0].url(), "http://x");
}

#[test]
fn from_body_keeps_server_order() {
    let body = r#"{"status":"ok","articles":[
        {"title":"first","url":"http://a"},
        {"title":"second","url":"http://b"},
        {"title":"third","url":"http://c"}]}"#;
    let response = NewsAPIResponse::from_body(body).unwrap();
    let titles: Vec<&str> = response.articles().iter().map(|a| a.title()).collect();
    assert_eq!(titles, ["first", "second", "third"]);
}

#[test]
fn from_body_api_key_disabled() {
    let body = r#"{"status":"error","articles":[],"code":"apiKeyDisabled"}"#;
    assert_eq!(
        NewsAPIResponse::from_body(body),
        Err(NewsApiError::BadRequest("Your API key has been disabled"))
    );
}

#[test]
fn from_body_unknown_code() {
    let body = r#"{"status":"error","articles":[],"code":"rateLimited"}"#;
    assert_eq!(
        NewsAPIResponse::from_body(body),
        Err(NewsApiError::BadRequest("Unknown error"))
    );
}

#[test]
fn from_body_failure_status_without_code() {
    let body = r#"{"status":"error","articles":[]}"#;
    assert_eq!(
        NewsAPIResponse::from_body(body),
        Err(NewsApiError::BadRequest("Unknown error"))
    );
}

#[test]
fn from_body_malformed_json() {
    for body in ["", "not json", "{\"status\":", "[1,2", "{\"status\" \"ok\"}"] {
        assert_eq!(
            NewsAPIResponse::from_body(body),
            Err(NewsApiError::ArticleParseFailed)
        );
    }
}

#[test]
fn from_body_wrong_envelope_shape() {
    for body in [
        r#"{"articles":[]}"#,
        r#"{"status":5,"articles":[]}"#,
        r#"{"status":"ok"}"#,
        r#"{"status":"ok","articles":{}}"#,
        r#"{"status":"ok","articles":[],"code":7}"#,
        r#"{"status":"ok","articles":[{"url":"http://x"}]}"#,
        r#"{"status":"ok","articles":[{"title":"A"}]}"#,
        r#"{"status":"ok","articles":[{"title":1,"url":"http://x"}]}"#,
        r#"[]"#,
    ] {
        assert_eq!(
            NewsAPIResponse::from_body(body),
            Err(NewsApiError::ArticleParseFailed)
        );
    }
}

#[test]
fn from_body_ignores_unknown_fields() {
    let body = r#"{"status":"ok","totalResults":1,
        "articles":[{"title":"A","url":"http://x","author":"B","content":"C"}]}"#;
    let response = NewsAPIResponse::from_body(body).unwrap();
    assert_eq!(response.articles().len(), 1);
    assert_eq!(response.articles()[0].title(), "A");
}

#[test]
fn map_response_err_table() {
    assert_eq!(
        map_response_err(Some("apiKeyDisabled".to_string())),
        NewsApiError::BadRequest("Your API key has been disabled")
    );
    assert_eq!(
        map_response_err(Some("somethingElse".to_string())),
        NewsApiError::BadRequest("Unknown error")
    );
    assert_eq!(
        map_response_err(None),
        NewsApiError::BadRequest("Unknown error")
    );
}

#[test]
fn into_result_passes_ok_through() {
    let articles = vec![Article::new("A".to_string(), "http://x".to_string())];
    let response = NewsAPIResponse::new("ok".to_string(), articles, None);
    let out = response.into_result().unwrap();
    assert_eq!(out.articles().len(), 1);
}

#[test]
fn into_result_maps_failure_status() {
    let response = NewsAPIResponse::new(
        "error".to_string(),
        Vec::new(),
        Some("apiKeyDisabled".to_string()),
    );
    assert_eq!(
        response.into_result(),
        Err(NewsApiError::BadRequest("Your API key has been disabled"))
    );
}

#[test]
fn select_article_picks_by_one_based_index() {
    let articles = vec![
        Article::new("A".to_string(), "http://a".to_string()),
        Article::new("B".to_string(), "http://b".to_string()),
    ];
    assert_eq!(select_article(&articles, 0), None);
    assert_eq!(select_article(&articles, 1), Some("http://a".to_string()));
    assert_eq!(select_article(&articles, 2), Some("http://b".to_string()));
    assert_eq!(select_article(&articles, 3), None);
}

#[test]
fn article_accessors() {
    let article = Article::new("Title".to_string(), "http://example".to_string());
    assert_eq!(article.title(), "Title");
    assert_eq!(article.url(), "http://example");
}

#[test]
fn error_messages() {
    assert_eq!(
        NewsApiError::RequestFailed.message(),
        "Failed fetching articles"
    );
    assert_eq!(
        NewsApiError::FailedResponseToString.message(),
        "Failed converting response to string"
    );
    assert_eq!(
        NewsApiError::ArticleParseFailed.message(),
        "Article Parsing failed"
    );
    assert_eq!(NewsApiError::UrlParsing.message(), "Url parsing failed");
    assert_eq!(
        NewsApiError::BadRequest("oh no").message(),
        "Request failed: oh no"
    );
}
