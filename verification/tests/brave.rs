use url::Url;
use golem_websearch::brave::{
    freshness_text, safe_search_text, BraveComponent, BraveDiscussionResult, BraveDiscussions, BraveMetaUrl,
    BraveNews, BraveNewsResult, BraveQuery, BraveSearchApi, BraveSearchResponse, BraveThumbnail, BraveWebResult,
    BraveWebResults, BraveWebSearchSession, BASE_URL,
};
use golem_websearch::types::{SafeSearchLevel, SearchError, SearchParams, SearchResult, TimeRange};

fn params(query: &str) -> SearchParams {
    SearchParams {
        query: query.to_string(),
        safe_search: None,
        language: None,
        region: None,
        max_results: None,
        time_range: None,
        include_domains: None,
        exclude_domains: None,
        include_images: None,
        include_html: None,
        advanced_answer: None,
    }
}

fn pairs_of(v: Vec<(&str, &str)>) -> Vec<(String, String)> {
    v.into_iter().map(|(a, b)| (a.to_string(), b.to_string())).collect()
}

fn brave_query(more: Option<bool>) -> BraveQuery {
    BraveQuery {
        original: "rust".to_string(),
        show_strict_warning: None,
        altered: None,
        safesearch: Some(true),
        is_navigational: None,
        local_decision: None,
        local_locations_idx: None,
        is_location_specific: None,
        postal_code: None,
        country: Some("us".to_string()),
        bad_results: None,
        should_fallback: None,
        lat: None,
        long: None,
        state: None,
        city: None,
        header_country: None,
        more_results_available: more,
        custom_location_label: None,
        reddit_cluster: None,
    }
}

fn web_result(title: &str) -> BraveWebResult {
    BraveWebResult {
        result_type: "search_result".to_string(),
        subtype: None,
        title: title.to_string(),
        url: "https://brave.com/search".to_string(),
        description: "Privacy-focused search engine".to_string(),
        date: None,
        extra_snippets: Some(vec!["one".to_string(), "two".to_string()]),
        language: None,
        family_friendly: None,
        thumbnail: Some(BraveThumbnail {
            src: "https://img.example/t.png".to_string(),
            width: None,
            height: None,
            bg_color: None,
            original: None,
            logo: None,
        }),
        age: None,
        page_age: None,
        profile: None,
        meta_url: Some(BraveMetaUrl {
            scheme: "https".to_string(),
            netloc: "brave.com".to_string(),
            hostname: "brave.com".to_string(),
            favicon: None,
            path: "/search".to_string(),
        }),
        cluster_type: None,
    }
}

#[test]
fn test_brave_url_construction() {

    let mut url = Url::parse("https://api.search.brave.com/res/v1/web/search").unwrap();
    {
        let mut query_pairs = url.query_pairs_mut();
        query_pairs.append_pair("q", "brave search");
        query_pairs.append_pair("count", "20");
    }

    let url_str = url.to_string();
    assert!(url_str.contains("q=brave+search"));
    assert!(url_str.contains("count=20"));

    let api = BraveSearchApi::new("test_api_key".to_string());
    let pairs = api.query_pairs(&params("brave search"), Some(20), None);
    let mut built = Url::parse(BASE_URL).unwrap();
    built.query_pairs_mut().extend_pairs(pairs.iter());
    let built = built.to_string();
    assert!(built.contains("q=brave+search"));
    assert!(built.contains("count=20"));
}

#[test]
fn test_brave_safe_search_mapping() {
    let test_cases = vec![
        (SafeSearchLevel::Off, "off"),
        (SafeSearchLevel::Medium, "moderate"),
        (SafeSearchLevel::High, "strict"),
    ];

    for (level, expected) in test_cases {
        assert_eq!(safe_search_text(level), expected);
    }
}

#[test]
fn test_brave_freshness_mapping() {
    let test_cases = vec![
        (TimeRange::Day, "pd"),
        (TimeRange::Week, "pw"),
        (TimeRange::Month, "pm"),
        (TimeRange::Year, "py"),
    ];

    for (range, expected) in test_cases {
        assert_eq!(freshness_text(range), expected);
    }
}

#[test]
fn test_brave_result_parsing() {
    let result: SearchResult<f64> = SearchResult {
        title: "Brave Search Result".to_string(),
        url: "https://brave.com/search".to_string(),
        snippet: "Privacy-focused search engine".to_string(),
        display_url: None,
        source: None,
        score: None,
        html_snippet: None,
        date_published: None,
        images: None,
        content_chunks: None,
    };

    assert_eq!(result.title, "Brave Search Result");
    assert_eq!(result.url, "https://brave.com/search");
    assert_eq!(result.snippet, "Privacy-focused search engine");
    assert_eq!(result.date_published, None);
}

#[test]
fn test_query_validation() {
    let empty_query = "";
    assert!(empty_query.is_empty());
    assert!(matches!(BraveComponent::validate_params(&params(empty_query)), Err(SearchError::InvalidQuery)));

    let valid_query = "rust programming language";
    assert!(!valid_query.is_empty());
    assert!(valid_query.len() > 5);
    assert!(BraveComponent::validate_params(&params(valid_query)).is_ok());
    let mut p = params(valid_query);
    p.max_results = Some(0);
    assert!(matches!(BraveComponent::validate_params(&p), Err(SearchError::InvalidQuery)));
    p.max_results = Some(101);
    assert!(matches!(BraveComponent::validate_params(&p), Err(SearchError::InvalidQuery)));
}

#[test]
fn test_max_results_bounds() {
    let max_results = vec![Some(1), Some(10), Some(20), Some(50), Some(100), None];

    for max in max_results {
        match max {
            Some(n) if n > 0 && n <= 100 => assert!(true),
            Some(_) => assert!(false, "Invalid max results value"),
            None => assert!(true),
        }
        let mut p = params("rust");
        p.max_results = max;
        assert!(BraveComponent::validate_params(&p).is_ok());
        let session = BraveWebSearchSession::new(BraveSearchApi::new("k".to_string()), p).unwrap();
        let expected = match max {
            Some(n) if n < 20 => n,
            _ => 20,
        };
        assert_eq!(session.page_size, expected);
    }
}

#[test]
fn brave_query_pairs_full() {
    let api = BraveSearchApi::new("token".to_string());
    assert_eq!(api.subscription_token(), "token");
    let mut p = params("rust");
    p.max_results = Some(15);
    p.region = Some("AU".to_string());
    p.language = Some("en".to_string());
    p.safe_search = Some(SafeSearchLevel::High);
    p.time_range = Some(TimeRange::Month);
    let pairs = api.query_pairs(&p, None, Some(40));
    assert_eq!(
        pairs,
        pairs_of(vec![
            ("q", "rust"),
            ("count", "15"),
            ("offset", "40"),
            ("country", "AU"),
            ("search_lang", "en"),
            ("safesearch", "strict"),
            ("freshness", "pm"),
            ("text_decorations", "true"),
            ("spellcheck", "true"),
        ])
    );
}

#[test]
fn brave_session_page_pairs() {
    let mut p = params("rust");
    p.max_results = Some(5);
    let session = BraveWebSearchSession::new(BraveSearchApi::new("k".to_string()), p).unwrap();
    assert_eq!(session.current_offset, 0);
    assert!(!session.finished);
    let pairs = session.page_query_pairs(10);
    assert_eq!(
        pairs,
        pairs_of(vec![
            ("q", "rust"),
            ("count", "5"),
            ("offset", "10"),
            ("text_decorations", "true"),
            ("spellcheck", "true"),
        ])
    );
}

#[test]
fn brave_response_conversion_orders_sections() {
    let resp: BraveSearchResponse<f64> = BraveSearchResponse {
        query: Some(brave_query(Some(true))),
        web: Some(BraveWebResults {
            result_type: "search".to_string(),
            results: vec![web_result("Brave Search Result")],
            family_friendly: None,
        }),
        infobox: None,
        discussions: Some(BraveDiscussions {
            discussion_type: "search".to_string(),
            results: vec![BraveDiscussionResult {
                result_type: "discussion".to_string(),
                title: "Thread".to_string(),
                url: "https://forum.example/t".to_string(),
                description: "A thread".to_string(),
                date: Some("2024-03-01".to_string()),
                forum: None,
                num_answers: Some(3),
                score: Some(0.5),
            }],
        }),
        faq: None,
        videos: None,
        news: Some(BraveNews {
            news_type: "news".to_string(),
            results: vec![BraveNewsResult {
                result_type: "news_result".to_string(),
                title: "News".to_string(),
                url: "https://news.example/a".to_string(),
                description: "An article".to_string(),
                date: None,
                page_age: None,
                breaking: None,
                thumbnail: None,
                meta_url: None,
            }],
            mutated_by_goggles: None,
        }),
        locations: None,
    };
    let results = resp.to_search_results();
    assert_eq!(results.len(), 3);
    assert_eq!(results[0].title, "Brave Search Result");
    assert_eq!(results[0].display_url, Some("https://brave.com".to_string()));
    assert_eq!(results[0].source, Some("Brave".to_string()));
    assert_eq!(results[0].content_chunks, Some(vec!["one".to_string(), "two".to_string()]));
    let images = results[0].images.as_ref().unwrap();
    assert_eq!(images.len(), 1);
    assert_eq!(images[0].url, "https://img.example/t.png");
    assert_eq!(results[1].source, Some("Brave Discussion (Unknown)".to_string()));
    assert_eq!(results[1].score, Some(0.5));
    assert_eq!(results[2].source, Some("Brave News".to_string()));
    assert_eq!(results[2].display_url, None);

    let meta = resp.to_search_metadata("rust".to_string());
    assert_eq!(meta.safe_search, Some(SafeSearchLevel::Medium));
    assert_eq!(meta.region, Some("us".to_string()));
    assert_eq!(meta.next_page_token, Some("more".to_string()));
    assert_eq!(meta.total_results, None);
}

#[test]
fn brave_metadata_without_more_results() {
    let resp: BraveSearchResponse<f64> = BraveSearchResponse {
        query: Some(brave_query(Some(false))),
        web: None,
        infobox: None,
        discussions: None,
        faq: None,
        videos: None,
        news: None,
        locations: None,
    };
    assert!(resp.to_search_results().is_empty());
    assert_eq!(resp.to_search_metadata("rust".to_string()).next_page_token, None);
}
