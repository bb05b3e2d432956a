use url::Url;
use golem_websearch::request::url_or_error;
use golem_websearch::google::{
    GoogleComponent, GoogleQueries, GoogleQuery, GoogleSearchApi, GoogleSearchInformation, GoogleSearchItem,
    GoogleSearchResponse, GoogleSearchSession, BASE_URL,
};
use golem_websearch::session::SearchSessionState;
use golem_websearch::types::{SafeSearchLevel, SearchError, SearchParams, TimeRange};

fn params(query: &str) -> SearchParams {
    SearchParams {
        query: query.to_string(),
        safe_search: None,
        language: None,
        region: None,
        max_results: None,
        time_range: None,
        include_domains: None,
        exclude_domains: None,
        include_images: None,
        include_html: None,
        advanced_answer: None,
    }
}

fn item(n: u32) -> GoogleSearchItem {
    GoogleSearchItem {
        kind: "customsearch#result".to_string(),
        title: format!("Title {}", n),
        html_title: format!("<b>Title</b> {}", n),
        link: format!("https://example.com/{}", n),
        display_link: "example.com".to_string(),
        snippet: format!("Snippet {}", n),
        html_snippet: format!("<b>Snippet</b> {}", n),
        cache_id: None,
        formatted_url: None,
        html_formatted_url: None,
    }
}

fn query_at(start: u32) -> GoogleQuery {
    GoogleQuery {
        title: "Google Custom Search".to_string(),
        total_results: "1200".to_string(),
        search_terms: "rust".to_string(),
        count: Some(10),
        start_index: Some(start),
        input_encoding: None,
        output_encoding: None,
        safe: None,
        cx: None,
    }
}

fn response(items: Vec<GoogleSearchItem>, next_start: Option<u32>) -> GoogleSearchResponse<f64> {
    GoogleSearchResponse {
        kind: "customsearch#search".to_string(),
        url: None,
        queries: Some(GoogleQueries {
            request: Some(vec![query_at(1)]),
            next_page: next_start.map(|s| vec![query_at(s)]),
        }),
        context: None,
        search_information: Some(GoogleSearchInformation {
            search_time: 0.25,
            formatted_search_time: "0.25".to_string(),
            total_results: "1200".to_string(),
            formatted_total_results: "1,200".to_string(),
        }),
        items: Some(items),
        error: None,
    }
}

#[test]
fn test_url_construction() {

    let mut url = Url::parse("https://www.googleapis.com/customsearch/v1").unwrap();
    {
        let mut query_pairs = url.query_pairs_mut();
        query_pairs.append_pair("key", "test_key");
        query_pairs.append_pair("cx", "test_cx");
        query_pairs.append_pair("q", "test query");
    }

    let url_str = url.to_string();
    assert!(url_str.contains("key=test_key"));
    assert!(url_str.contains("cx=test_cx"));
    assert!(url_str.contains("q=test+query"));

    let api = GoogleSearchApi::new("test_key".to_string(), "test_cx".to_string());
    let built = api.request_url(&params("test query"), None).unwrap();
    assert!(built.contains("key=test_key"));
    assert!(built.contains("cx=test_cx"));
    assert!(built.contains("q=test+query"));
    assert_eq!(built, url_str);
}

#[test]
fn test_safe_search_level_conversion() {
    let moderate = SafeSearchLevel::Medium;
    let strict = SafeSearchLevel::High;
    let off = SafeSearchLevel::Off;

    assert!(matches!(moderate, SafeSearchLevel::Medium));
    assert!(matches!(strict, SafeSearchLevel::High));
    assert!(matches!(off, SafeSearchLevel::Off));
}

#[test]
fn test_time_range_conversion() {
    let day = TimeRange::Day;
    let week = TimeRange::Week;
    let month = TimeRange::Month;
    let year = TimeRange::Year;

    assert!(matches!(day, TimeRange::Day));
    assert!(matches!(week, TimeRange::Week));
    assert!(matches!(month, TimeRange::Month));
    assert!(matches!(year, TimeRange::Year));
}

#[test]
fn google_request_url_starts_with_endpoint() {
    let api = GoogleSearchApi::new("k".to_string(), "c".to_string());
    let built = api.request_url(&params("rust"), Some(11)).unwrap();
    assert!(built.starts_with(BASE_URL));
    assert_eq!(built, "https://www.googleapis.com/customsearch/v1?key=k&cx=c&q=rust&start=11");
}

#[test]
fn google_query_pairs_full() {
    let api = GoogleSearchApi::new("k".to_string(), "c".to_string());
    let mut p = params("rust");
    p.max_results = Some(25);
    p.language = Some("en".to_string());
    p.region = Some("US".to_string());
    p.safe_search = Some(SafeSearchLevel::High);
    p.time_range = Some(TimeRange::Week);
    p.include_domains = Some(vec!["a.com".to_string(), "b.org".to_string()]);
    let pairs = api.query_pairs(&p, Some(21));
    let expected: Vec<(String, String)> = vec![
        ("key", "k"),
        ("cx", "c"),
        ("q", "rust (site:a.com OR site:b.org)"),
        ("start", "21"),
        ("num", "10"),
        ("lr", "lang_en"),
        ("gl", "US"),
        ("safe", "high"),
        ("sort", "date:r:604800"),
    ]
    .into_iter()
    .map(|(a, b)| (a.to_string(), b.to_string()))
    .collect();
    assert_eq!(pairs, expected);
}

#[test]
fn google_num_below_cap_is_kept() {
    let api = GoogleSearchApi::new("k".to_string(), "c".to_string());
    let mut p = params("rust");
    p.max_results = Some(7);
    p.safe_search = Some(SafeSearchLevel::Medium);
    p.include_domains = Some(vec![]);
    let pairs = api.query_pairs(&p, None);
    assert!(pairs.contains(&("num".to_string(), "7".to_string())));
    assert!(pairs.contains(&("safe".to_string(), "medium".to_string())));
    assert!(pairs.contains(&("q".to_string(), "rust".to_string())));
}

#[test]
fn google_validation() {
    assert!(matches!(GoogleComponent::validate_params(&params("   ")), Err(SearchError::InvalidQuery)));
    let mut p = params("rust");
    assert!(GoogleComponent::validate_params(&p).is_ok());
    p.exclude_domains = Some(vec!["spam.com".to_string()]);
    match GoogleComponent::validate_params(&p) {
        Err(SearchError::UnsupportedFeature(m)) => {
            assert_eq!(m, "Domain exclusion not supported by Google Custom Search")
        },
        other => panic!("unexpected {:?}", other),
    }
    p.exclude_domains = Some(vec![]);
    assert!(GoogleComponent::validate_params(&p).is_ok());
    p.advanced_answer = Some(true);
    match GoogleComponent::validate_params(&p) {
        Err(SearchError::UnsupportedFeature(m)) => {
            assert_eq!(m, "Advanced answer mode not supported by Google Custom Search")
        },
        other => panic!("unexpected {:?}", other),
    }
}

#[test]
fn google_response_conversion() {
    let resp = response(vec![item(1), item(2)], Some(11));
    let results = resp.to_search_results();
    assert_eq!(results.len(), 2);
    assert_eq!(results[0].title, "Title 1");
    assert_eq!(results[1].url, "https://example.com/2");
    assert_eq!(results[0].display_url, Some("example.com".to_string()));
    assert_eq!(results[0].source, Some("Google".to_string()));
    assert_eq!(results[0].html_snippet, Some("<b>Snippet</b> 1".to_string()));
    assert_eq!(results[0].score, None);

    let meta = resp.to_search_metadata("rust".to_string(), |t: f64| t * 1000.0);
    assert_eq!(meta.query, "rust");
    assert_eq!(meta.total_results, Some(1200));
    assert_eq!(meta.search_time_ms, Some(250.0));
    assert_eq!(meta.next_page_token, Some("11".to_string()));
}

#[test]
fn google_session_pages_until_no_next_page() {
    let api = GoogleSearchApi::new("k".to_string(), "c".to_string());
    let mut session = GoogleSearchSession::new(api, params("rust"));
    assert_eq!(session.current_start(), 1);
    assert!(session.request_url().unwrap().contains("start=1"));

    let mut state: SearchSessionState<f64> = SearchSessionState::new();
    let page = session.record_page(&mut state, Ok(response(vec![item(1), item(2), item(3)], Some(4))), |t| t * 1000.0);
    assert_eq!(page.unwrap().len(), 3);
    assert_eq!(session.current_start(), 4);
    assert!(!state.finished);
    assert_eq!(state.next_page_token, Some("4".to_string()));

    let page = session.record_page(&mut state, Ok(response(vec![item(4)], None)), |t| t * 1000.0);
    assert_eq!(page.unwrap().len(), 1);
    assert_eq!(session.current_start(), 5);
    assert!(state.finished);

    // A finished session answers with an empty page and changes nothing.
    let page = session.record_page(&mut state, Ok(response(vec![item(5)], Some(6))), |t| t * 1000.0);
    assert!(page.unwrap().is_empty());
    assert_eq!(session.current_start(), 5);
    assert!(state.finished);
}

#[test]
fn google_session_records_error() {
    let api = GoogleSearchApi::new("k".to_string(), "c".to_string());
    let mut session = GoogleSearchSession::new(api, params("rust"));
    let mut state: SearchSessionState<f64> = SearchSessionState::new();
    let r = session.record_page(&mut state, Err(SearchError::RateLimited(30)), |t| t * 1000.0);
    assert!(matches!(r, Err(SearchError::RateLimited(30))));
    assert!(state.finished);
    assert!(matches!(state.error, Some(SearchError::RateLimited(30))));
    assert_eq!(session.current_start(), 1);
}

#[test]
fn url_outcome_maps_parse_errors() {

    assert_eq!(url_or_error(Ok("https://a.example/?q=x".to_string())).unwrap(), "https://a.example/?q=x");
    match url_or_error(Err("relative URL without a base".to_string())) {
        Err(SearchError::BackendError(m)) => assert_eq!(m, "Invalid URL: relative URL without a base"),
        other => panic!("unexpected {:?}", other),
    }
}
