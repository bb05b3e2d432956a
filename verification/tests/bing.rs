use url::Url;
use golem_websearch::bing::{
    safe_search_text, BingComponent, BingSearchApi, BingSearchResponse, BingWebPage, BingWebPages,
    BingWebSearchSession,
};
use golem_websearch::types::{SafeSearchLevel, SearchError, SearchParams, SearchResult, TimeRange};

fn params(query: &str) -> SearchParams {
    SearchParams {
        query: query.to_string(),
        safe_search: None,
        language: None,
        region: None,
        max_results: None,
        time_range: None,
        include_domains: None,
        exclude_domains: None,
        include_images: None,
        include_html: None,
        advanced_answer: None,
    }
}

fn page(n: u32) -> BingWebPage {
    BingWebPage {
        name: format!("Page {}", n),
        url: format!("https://example.com/{}", n),
        snippet: format!("About page {}", n),
        display_url: Some("example.com".to_string()),
        date_last_crawled: if n == 1 { Some("2024-01-01T00:00:00".to_string()) } else { None },
    }
}

#[test]
fn test_bing_url_construction() {

    let mut url = Url::parse("https://api.bing.microsoft.com/v7.0/search").unwrap();
    {
        let mut query_pairs = url.query_pairs_mut();
        query_pairs.append_pair("q", "test query");
        query_pairs.append_pair("count", "10");
    }

    let url_str = url.to_string();
    assert!(url_str.contains("q=test+query"));
    assert!(url_str.contains("count=10"));

    let api = BingSearchApi::new("test_api_key".to_string());
    let mut p = params("test query");
    p.max_results = Some(10);
    let built = api.request_url(&p, None).unwrap();
    assert!(built.contains("q=test+query"));
    assert!(built.contains("count=10"));
    assert_eq!(built, url_str);
}

#[test]
fn test_bing_safe_search_mapping() {
    let levels = vec![
        (SafeSearchLevel::Off, "Off"),
        (SafeSearchLevel::Medium, "Moderate"),
        (SafeSearchLevel::High, "Strict"),
    ];

    for (level, expected) in levels {
        assert_eq!(safe_search_text(level), expected);
    }
}

#[test]
fn test_bing_freshness_mapping() {
    let ranges = vec![TimeRange::Day, TimeRange::Week, TimeRange::Month, TimeRange::Year];

    for range in ranges {
        let _converted = match range {
            TimeRange::Day => "Day",
            TimeRange::Week => "Week",
            TimeRange::Month => "Month",
            TimeRange::Year => "Year",
        };
        let mut p = params("rust");
        p.time_range = Some(range);
        match BingComponent::validate_params(&p) {
            Err(SearchError::UnsupportedFeature(m)) => {
                assert_eq!(m, "Time range filtering not supported by Bing Web Search")
            },
            other => panic!("unexpected {:?}", other),
        }
    }
}

#[test]
fn test_search_result_structure() {
    let result: SearchResult<f64> = SearchResult {
        title: "Test Title".to_string(),
        url: "https://example.com".to_string(),
        snippet: "Test snippet".to_string(),
        display_url: None,
        source: None,
        score: None,
        html_snippet: None,
        date_published: Some("2024-01-01".to_string()),
        images: None,
        content_chunks: None,
    };

    assert_eq!(result.title, "Test Title");
    assert_eq!(result.url, "https://example.com");
    assert_eq!(result.snippet, "Test snippet");
    assert_eq!(result.date_published, Some("2024-01-01".to_string()));
}

#[test]
fn bing_query_pairs_cap_count_at_fifty() {
    let api = BingSearchApi::new("key".to_string());
    assert_eq!(api.subscription_key(), "key");
    let mut p = params("rust");
    p.max_results = Some(200);
    p.language = Some("en-GB".to_string());
    p.region = Some("GB".to_string());
    p.safe_search = Some(SafeSearchLevel::Medium);
    let pairs = api.query_pairs(&p, Some(30));
    let expected: Vec<(String, String)> = vec![
        ("q", "rust"),
        ("offset", "30"),
        ("count", "50"),
        ("mkt", "en-GB"),
        ("cc", "GB"),
        ("safeSearch", "Moderate"),
    ]
    .into_iter()
    .map(|(a, b)| (a.to_string(), b.to_string()))
    .collect();
    assert_eq!(pairs, expected);
}

#[test]
fn bing_refuses_domain_filters() {
    let mut p = params("rust");
    p.include_domains = Some(vec!["docs.rs".to_string()]);
    match BingComponent::validate_params(&p) {
        Err(SearchError::UnsupportedFeature(m)) => assert_eq!(m, "Domain filtering not supported by Bing Web Search"),
        other => panic!("unexpected {:?}", other),
    }
    let mut p = params("rust");
    p.exclude_domains = Some(vec!["spam.com".to_string()]);
    assert!(matches!(BingComponent::validate_params(&p), Err(SearchError::UnsupportedFeature(_))));
    p.exclude_domains = Some(vec![]);
    assert!(BingComponent::validate_params(&p).is_ok());

    // The advanced answer mode is refused before the domain filters.
    let mut p = params("rust");
    p.include_domains = Some(vec!["docs.rs".to_string()]);
    p.advanced_answer = Some(true);
    match BingComponent::validate_params(&p) {
        Err(SearchError::UnsupportedFeature(m)) => {
            assert_eq!(m, "Advanced answer mode not supported by Bing Web Search")
        },
        other => panic!("unexpected {:?}", other),
    }
}

#[test]
fn bing_validation() {
    assert!(matches!(BingComponent::validate_params(&params("")), Err(SearchError::InvalidQuery)));
    assert!(BingComponent::validate_params(&params("rust")).is_ok());
    let mut p = params("rust");
    p.advanced_answer = Some(true);
    match BingComponent::validate_params(&p) {
        Err(SearchError::UnsupportedFeature(m)) => {
            assert_eq!(m, "Advanced answer mode not supported by Bing Web Search")
        },
        other => panic!("unexpected {:?}", other),
    }
}

#[test]
fn bing_response_conversion() {
    let resp = BingSearchResponse {
        web_pages: Some(BingWebPages { total_estimated_matches: Some(4200), value: vec![page(1), page(2)] }),
        query_context: None,
    };
    let results: Vec<SearchResult<f64>> = resp.to_search_results();
    assert_eq!(results.len(), 2);
    assert_eq!(results[0].title, "Page 1");
    assert_eq!(results[0].source, Some("Bing".to_string()));
    assert_eq!(results[0].date_published, Some("2024-01-01T00:00:00".to_string()));
    assert_eq!(results[1].date_published, None);
    let meta = resp.to_search_metadata::<f64>("rust".to_string());
    assert_eq!(meta.total_results, Some(4200));
    assert_eq!(meta.next_page_token, None);
    let empty = BingSearchResponse { web_pages: None, query_context: None };
    assert!(empty.to_search_results::<f64>().is_empty());
}

#[test]
fn bing_session_starts_at_zero() {
    let s = BingWebSearchSession::new(BingSearchApi::new("k".to_string()), params("rust"));
    assert_eq!(s.current_offset, 0);
    assert!(!s.finished);
}
