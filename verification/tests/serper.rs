use url::Url;
use golem_websearch::serper::{
    safe_text, tbs_text, SerperComponent, SerperOrganicResult, SerperSearchApi, SerperSearchInformation,
    SerperSearchParameters, SerperSearchRequest, SerperSearchResponse, SerperWebSearchSession, BASE_URL,
};
use golem_websearch::types::{SafeSearchLevel, SearchError, SearchParams, SearchResult, TimeRange};

fn params(query: &str) -> SearchParams {
    SearchParams {
        query: query.to_string(),
        safe_search: None,
        language: None,
        region: None,
        max_results: None,
        time_range: None,
        include_domains: None,
        exclude_domains: None,
        include_images: None,
        include_html: None,
        advanced_answer: None,
    }
}

fn organic(n: u32, position: Option<u32>) -> SerperOrganicResult {
    SerperOrganicResult {
        title: format!("Result {}", n),
        link: format!("https://serper.dev/{}", n),
        snippet: format!("Snippet {}", n),
        display_link: None,
        position,
        date: Some("2024-02-01".to_string()),
    }
}

#[test]
fn test_serper_request_construction() {
    let request = SerperSearchRequest {
        q: "test query".to_string(),
        num: Some(10),
        start: None,
        gl: Some("US".to_string()),
        hl: Some("en".to_string()),
        safe: None,
        tbs: None,
        site: None,
        autocorrect: Some(true),
        page: Some(1),
        type_: Some("search".to_string()),
        engine: Some("google".to_string()),
    };

    assert_eq!(request.q, "test query");
    assert_eq!(request.gl, Some("US".to_string()));
    assert_eq!(request.hl, Some("en".to_string()));
    assert_eq!(request.num, Some(10));
    assert_eq!(request.autocorrect, Some(true));
    assert_eq!(request.page, Some(1));
    assert_eq!(request.type_, Some("search".to_string()));
    assert_eq!(request.engine, Some("google".to_string()));

    let mut p = params("test query");
    p.region = Some("US".to_string());
    p.language = Some("en".to_string());
    let built = SerperSearchApi::new("k".to_string()).search_request(&p, Some(10), None);
    assert_eq!(built.q, "test query");
    assert_eq!(built.gl, Some("US".to_string()));
    assert_eq!(built.hl, Some("en".to_string()));
    assert_eq!(built.num, Some(10));
    assert_eq!(built.autocorrect, Some(true));
    assert_eq!(built.page, Some(1));
    assert_eq!(built.type_, Some("search".to_string()));
    assert_eq!(built.engine, Some("google".to_string()));
}

#[test]
fn test_serper_api_endpoint() {

    let endpoint = "https://google.serper.dev/search";
    assert_eq!(BASE_URL, endpoint);
    let url = Url::parse(endpoint);

    assert!(url.is_ok());
    let parsed = url.unwrap();
    assert_eq!(parsed.scheme(), "https");
    assert_eq!(parsed.host_str(), Some("google.serper.dev"));
    assert_eq!(parsed.path(), "/search");
}

#[test]
fn test_serper_result_parsing() {
    let result: SearchResult<f64> = SearchResult {
        title: "Serper Search API".to_string(),
        url: "https://serper.dev".to_string(),
        snippet: "Google Search API alternative".to_string(),
        display_url: None,
        source: None,
        score: None,
        html_snippet: None,
        date_published: Some("2024-02-01".to_string()),
        images: None,
        content_chunks: None,
    };

    assert_eq!(result.title, "Serper Search API");
    assert_eq!(result.url, "https://serper.dev");
    assert_eq!(result.snippet, "Google Search API alternative");
    assert_eq!(result.date_published, Some("2024-02-01".to_string()));
}

#[test]
fn test_serper_country_codes() {
    let valid_codes = vec!["US", "GB", "DE", "FR", "JP", "AU", "CA", "IN"];

    for code in valid_codes {
        assert_eq!(code.len(), 2);
        assert!(code.chars().all(|c| c.is_ascii_uppercase()));
        let mut p = params("rust");
        p.region = Some(code.to_string());
        let request = SerperSearchApi::new("k".to_string()).search_request(&p, None, None);
        assert_eq!(request.gl, Some(code.to_string()));
    }
}

#[test]
fn test_serper_language_codes() {
    let valid_codes = vec!["en", "de", "fr", "es", "ja", "zh", "ko", "ru"];

    for code in valid_codes {
        assert!(code.len() >= 2);
        assert!(code.chars().all(|c| c.is_ascii_lowercase()));
        let mut p = params("rust");
        p.language = Some(code.to_string());
        let request = SerperSearchApi::new("k".to_string()).search_request(&p, None, None);
        assert_eq!(request.hl, Some(code.to_string()));
    }
}

#[test]
fn test_serper_num_results_validation() {
    let valid_values = vec![1, 10, 25, 50, 100];
    let invalid_values = vec![0, 101, 500];

    for valid in valid_values {
        assert!(valid >= 1 && valid <= 100, "Valid value {} should pass", valid);
        let mut p = params("rust");
        p.max_results = Some(valid);
        assert!(SerperComponent::validate_params(&p).is_ok(), "Valid value {} should pass", valid);
    }

    for invalid in invalid_values {
        assert!(invalid < 1 || invalid > 100, "Invalid value {} should fail", invalid);
        let mut p = params("rust");
        p.max_results = Some(invalid);
        assert!(
            matches!(SerperComponent::validate_params(&p), Err(SearchError::InvalidQuery)),
            "Invalid value {} should fail",
            invalid
        );
    }
}

#[test]
fn test_serper_search_types() {
    let search_types = vec!["search", "images", "videos", "places", "news"];

    for search_type in search_types {
        assert!(!search_type.is_empty());
        assert!(search_type.chars().all(|c| c.is_ascii_lowercase()));
    }
}

#[test]
fn test_serper_autocorrect_option() {
    let options = vec![true, false];

    for option in options {
        assert!(option == true || option == false);
    }
}

#[test]
fn test_serper_pagination() {
    let valid_pages = vec![1, 2, 5, 10];

    for page in valid_pages {
        assert!(page >= 1, "Page {} should be >= 1", page);
    }
}

#[test]
fn serper_search_request_defaults_and_fields() {
    let api = SerperSearchApi::new("secret".to_string());
    assert_eq!(api.api_key_header(), "secret");
    let request = api.search_request(&params("rust"), None, None);
    assert_eq!(request.q, "rust");
    assert_eq!(request.num, Some(10));
    assert_eq!(request.start, Some(0));
    assert_eq!(request.safe, None);
    assert_eq!(request.autocorrect, Some(true));
    assert_eq!(request.page, Some(1));

    let mut p = params("rust");
    p.max_results = Some(30);
    p.safe_search = Some(SafeSearchLevel::High);
    p.time_range = Some(TimeRange::Year);
    p.include_domains = Some(vec!["docs.rs".to_string(), "crates.io".to_string()]);
    let request = api.search_request(&p, None, Some(20));
    assert_eq!(request.num, Some(30));
    assert_eq!(request.start, Some(20));
    assert_eq!(request.page, Some(1));
    assert_eq!(request.safe, Some("active".to_string()));
    assert_eq!(request.tbs, Some("qdr:y".to_string()));
    assert_eq!(request.site, Some("docs.rs".to_string()));
    let request = api.search_request(&p, Some(5), None);
    assert_eq!(request.num, Some(5));
}

#[test]
fn serper_mappings() {
    assert_eq!(safe_text(SafeSearchLevel::Off), "off");
    assert_eq!(safe_text(SafeSearchLevel::Medium), "active");
    assert_eq!(safe_text(SafeSearchLevel::High), "active");
    assert_eq!(tbs_text(TimeRange::Day), "qdr:d");
    assert_eq!(tbs_text(TimeRange::Week), "qdr:w");
    assert_eq!(tbs_text(TimeRange::Month), "qdr:m");
}

#[test]
fn serper_validation_and_session() {
    assert!(matches!(SerperComponent::validate_params(&params(" \t")), Err(SearchError::InvalidQuery)));
    let mut p = params("rust");
    p.exclude_domains = Some(vec!["spam.com".to_string()]);
    p.safe_search = Some(SafeSearchLevel::Off);
    p.time_range = Some(TimeRange::Day);
    p.include_domains = Some(vec!["docs.rs".to_string()]);
    assert!(SerperComponent::validate_params(&p).is_ok());
    let session = SerperWebSearchSession::new(SerperSearchApi::new("k".to_string()), p).unwrap();
    assert_eq!(session.page_size, 10);
    assert_eq!(session.current_start, 0);
    let request = session.page_request(10);
    assert_eq!(request.num, Some(10));
    assert_eq!(request.start, Some(10));
    assert_eq!(request.page, Some(2));
    assert_eq!(request.safe, Some("off".to_string()));
    assert_eq!(request.tbs, Some("qdr:d".to_string()));
    assert_eq!(request.site, Some("docs.rs".to_string()));
}

#[test]
fn serper_response_conversion() {
    let resp: SerperSearchResponse<f64> = SerperSearchResponse {
        search_parameters: Some(SerperSearchParameters {
            q: "rust".to_string(),
            gl: Some("us".to_string()),
            hl: Some("en".to_string()),
            num: Some(10),
            start: None,
        }),
        organic: Some(vec![organic(1, Some(1)), organic(2, None)]),
        answer_box: None,
        knowledge_graph: None,
        search_information: Some(SerperSearchInformation {
            total_results: Some("5400".to_string()),
            time_taken: Some(0.5),
        }),
    };
    let results = resp.to_search_results(|p: u32| 1.0 / (p as f64 + 1.0));
    assert_eq!(results.len(), 2);
    assert_eq!(results[0].title, "Result 1");
    assert_eq!(results[0].score, Some(0.5));
    assert_eq!(results[1].score, None);
    assert_eq!(results[0].source, Some("Serper".to_string()));
    assert_eq!(results[0].date_published, Some("2024-02-01".to_string()));

    let meta = resp.to_search_metadata("rust".to_string(), |t: f64| t * 1000.0);
    assert_eq!(meta.total_results, Some(5400));
    assert_eq!(meta.search_time_ms, Some(500.0));
    assert_eq!(meta.language, Some("en".to_string()));
    assert_eq!(meta.region, Some("us".to_string()));
    assert_eq!(meta.next_page_token, None);
}
