use golem_websearch::types::{
    ImageResult, RateLimitInfo, SafeSearchLevel, SearchMetadata, SearchParams, SearchResult, TimeRange,
};

#[test]
fn test_search_params_creation() {
    let params = SearchParams {
        query: "test query".to_string(),
        safe_search: Some(SafeSearchLevel::Medium),
        language: Some("en".to_string()),
        region: Some("US".to_string()),
        max_results: Some(10),
        time_range: Some(TimeRange::Day),
        include_domains: Some(vec!["example.com".to_string()]),
        exclude_domains: Some(vec!["spam.com".to_string()]),
        include_images: Some(false),
        include_html: Some(true),
        advanced_answer: Some(false),
    };

    assert_eq!(params.query, "test query");
    assert_eq!(params.max_results, Some(10));
}

#[test]
fn test_search_result_creation() {
    let result = SearchResult {
        title: "Test Title".to_string(),
        url: "https://example.com".to_string(),
        snippet: "Test snippet".to_string(),
        display_url: Some("example.com".to_string()),
        source: Some("Google".to_string()),
        score: Some(0.95),
        html_snippet: Some("<b>Test</b> snippet".to_string()),
        date_published: Some("2023-01-01".to_string()),
        images: None,
        content_chunks: None,
    };

    assert_eq!(result.title, "Test Title");
    assert_eq!(result.url, "https://example.com");
}

#[test]
fn test_search_metadata_creation() {
    let metadata = SearchMetadata {
        query: "test query".to_string(),
        total_results: Some(1000),
        search_time_ms: Some(150.0),
        safe_search: Some(SafeSearchLevel::Medium),
        language: Some("en".to_string()),
        region: Some("US".to_string()),
        next_page_token: Some("next_page_123".to_string()),
        rate_limits: None,
    };

    assert_eq!(metadata.query, "test query");
    assert_eq!(metadata.total_results, Some(1000));
    assert_eq!(metadata.search_time_ms, Some(150.0));
}

#[test]
fn metadata_clone_keeps_every_field() {
    let metadata = SearchMetadata {
        query: "q".to_string(),
        total_results: Some(7),
        search_time_ms: Some(1.5),
        safe_search: Some(SafeSearchLevel::High),
        language: Some("de".to_string()),
        region: None,
        next_page_token: Some("11".to_string()),
        rate_limits: Some(RateLimitInfo { limit: 100, remaining: 3, reset_timestamp: 42 }),
    };
    let copy = metadata.clone();
    assert_eq!(copy.query, "q");
    assert_eq!(copy.total_results, Some(7));
    assert_eq!(copy.search_time_ms, Some(1.5));
    assert_eq!(copy.safe_search, Some(SafeSearchLevel::High));
    assert_eq!(copy.language.as_deref(), Some("de"));
    assert_eq!(copy.region, None);
    assert_eq!(copy.next_page_token.as_deref(), Some("11"));
    assert_eq!(copy.rate_limits, Some(RateLimitInfo { limit: 100, remaining: 3, reset_timestamp: 42 }));
}

#[test]
fn result_and_params_clones_keep_lists() {
    let result = SearchResult {
        title: "t".to_string(),
        url: "u".to_string(),
        snippet: "s".to_string(),
        display_url: None,
        source: None,
        score: Some(0.5),
        html_snippet: None,
        date_published: None,
        images: Some(vec![ImageResult { url: "i".to_string(), description: Some("d".to_string()) }]),
        content_chunks: Some(vec!["a".to_string(), "b".to_string()]),
    };
    let copy = result.clone();
    let images = copy.images.unwrap();
    assert_eq!(images.len(), 1);
    assert_eq!(images[0].url, "i");
    assert_eq!(images[0].description.as_deref(), Some("d"));
    assert_eq!(copy.content_chunks, Some(vec!["a".to_string(), "b".to_string()]));
    assert_eq!(copy.score, Some(0.5));

    let params = SearchParams {
        query: "q".to_string(),
        safe_search: None,
        language: None,
        region: None,
        max_results: Some(3),
        time_range: None,
        include_domains: Some(vec!["x.org".to_string()]),
        exclude_domains: None,
        include_images: None,
        include_html: None,
        advanced_answer: Some(true),
    };
    let copy = params.clone();
    assert_eq!(copy.include_domains, Some(vec!["x.org".to_string()]));
    assert_eq!(copy.max_results, Some(3));
    assert_eq!(copy.advanced_answer, Some(true));
}
