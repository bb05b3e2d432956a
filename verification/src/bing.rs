//! Bing Web Search: request, validation and response conversion.

use vstd::prelude::*;
use crate::error::{create_invalid_query_error, create_unsupported_feature_error};
use crate::numbers::{decimal, u64_to_decimal};
use crate::request::{encode_url, optional_pair, push_optional_pair, push_pair, url_or_error, url_with_query, SpecPairs};
use crate::text::{is_blank, is_blank_text};
use crate::types::{
    clone_optional_text, results_view, SafeSearchLevel, SearchError, SearchMetadata, SearchParams, SearchResult,
    SpecSearchError, SpecSearchParams, SpecSearchResult,
};

verus! {

/// The endpoint of the Bing Web Search API.
pub const BASE_URL: &'static str = "https://api.bing.microsoft.com/v7.0/search";

/// The `safeSearch` parameter for a safe search level.
pub open spec fn safe_value(level: SafeSearchLevel) -> Seq<char> {
    match level {
        SafeSearchLevel::Off => "Off"@,
        SafeSearchLevel::Medium => "Moderate"@,
        SafeSearchLevel::High => "Strict"@,
    }
}

/// The `safeSearch` parameter for a safe search level.
pub fn safe_search_text(level: SafeSearchLevel) -> (r: &'static str)
    ensures
        r@ == safe_value(level),
{
    match level {
        SafeSearchLevel::Off => "Off",
        SafeSearchLevel::Medium => "Moderate",
        SafeSearchLevel::High => "Strict",
    }
}

/// The `count` parameter: the requested maximum, capped at Bing's limit of
/// 50 results per request.
pub open spec fn count_value(max_results: Option<u32>) -> Option<Seq<char>> {
    match max_results {
        Some(m) => Some(decimal(if m < 50 { m as nat } else { 50 })),
        None => None,
    }
}

/// The query parameters of a request for the results from `offset` on.
pub open spec fn query_pairs(p: SpecSearchParams, offset: Option<u32>) -> SpecPairs {
    seq![("q"@, p.query)]
        + optional_pair("offset"@, match offset { Some(o) => Some(decimal(o as nat)), None => None })
        + optional_pair("count"@, count_value(p.max_results))
        + optional_pair("mkt"@, p.language)
        + optional_pair("cc"@, p.region)
        + optional_pair("safeSearch"@, match p.safe_search { Some(s) => Some(safe_value(s)), None => None })
}

/// Bing Web Search API client: the subscription key.
pub struct BingSearchApi {
    api_key: String,
}

impl BingSearchApi {
    /// The subscription key.
    pub closed spec fn key(&self) -> Seq<char> {
        self.api_key@
    }

    pub fn new(api_key: String) -> (r: Self)
        ensures
            r.key() == api_key@,
    {
        BingSearchApi { api_key }
    }

    /// The value of the `Ocp-Apim-Subscription-Key` header.
    pub fn subscription_key(&self) -> (r: &str)
        ensures
            r@ == self.key(),
    {
        self.api_key.as_str()
    }

    /// The query parameters of a search from `offset` on.
    pub fn query_pairs(&self, params: &SearchParams, offset: Option<u32>) -> (r: Vec<(String, String)>)
        ensures
            r.deep_view() == query_pairs(params@, offset),
    {
        let mut pairs: Vec<(String, String)> = Vec::new();
        push_pair(&mut pairs, "q", params.query.clone());
        assert(pairs.deep_view() =~= seq![("q"@, params@.query)]);
        let offset_text = match offset {
            Some(o) => Some(u64_to_decimal(o as u64)),
            None => None,
        };
        push_optional_pair(&mut pairs, "offset", offset_text);
        let count_text = match params.max_results {
            Some(m) => Some(u64_to_decimal(if m < 50 { m as u64 } else { 50 })),
            None => None,
        };
        push_optional_pair(&mut pairs, "count", count_text);
        push_optional_pair(&mut pairs, "mkt", clone_optional_text(&params.language));
        push_optional_pair(&mut pairs, "cc", clone_optional_text(&params.region));
        let safe = match params.safe_search {
            Some(s) => Some(String::from_str(safe_search_text(s))),
            None => None,
        };
        push_optional_pair(&mut pairs, "safeSearch", safe);
        pairs
    }

    /// The URL of a search from `offset` on, or the error for a base URL
    /// that does not parse.
    pub fn request_url(&self, params: &SearchParams, offset: Option<u32>) -> (r: Result<String, SearchError>)
        ensures
            match url_with_query(BASE_URL@, query_pairs(params@, offset)) {
                Ok(u) => r matches Ok(s) && s@ == u,
                Err(e) => r matches Err(err) && err@ == SpecSearchError::BackendError("Invalid URL: "@ + e),
            },
    {
        let pairs = self.query_pairs(params, offset);
        url_or_error(encode_url(BASE_URL, &pairs))
    }
}

/// A response of the Bing Web Search API.
#[derive(Debug)]
pub struct BingSearchResponse {
    pub web_pages: Option<BingWebPages>,
    pub query_context: Option<BingQueryContext>,
}

/// The web pages of a response.
#[derive(Debug)]
pub struct BingWebPages {
    pub total_estimated_matches: Option<u64>,
    pub value: Vec<BingWebPage>,
}

/// One web page of a response.
#[derive(Debug)]
pub struct BingWebPage {
    pub name: String,
    pub url: String,
    pub snippet: String,
    pub display_url: Option<String>,
    pub date_last_crawled: Option<String>,
}

/// The query that Bing answered.
#[derive(Debug)]
pub struct BingQueryContext {
    pub original_query: String,
}

/// The result that a web page becomes.
pub open spec fn page_result<F>(page: BingWebPage) -> SpecSearchResult<F> {
    SpecSearchResult {
        title: page.name@,
        url: page.url@,
        snippet: page.snippet@,
        display_url: page.display_url.deep_view(),
        source: Some("Bing"@),
        score: None,
        html_snippet: None,
        date_published: page.date_last_crawled.deep_view(),
        images: None,
        content_chunks: None,
    }
}

/// The results of a response: one per web page, in order.
pub open spec fn response_results<F>(resp: BingSearchResponse) -> Seq<SpecSearchResult<F>> {
    match resp.web_pages {
        Some(pages) => pages.value@.map_values(|p: BingWebPage| page_result::<F>(p)),
        None => Seq::empty(),
    }
}

fn page_to_result<F>(page: &BingWebPage) -> (r: SearchResult<F>)
    ensures
        r@ == page_result::<F>(*page),
{
    SearchResult {
        title: page.name.clone(),
        url: page.url.clone(),
        snippet: page.snippet.clone(),
        display_url: clone_optional_text(&page.display_url),
        source: Some(String::from_str("Bing")),
        score: None,
        html_snippet: None,
        date_published: clone_optional_text(&page.date_last_crawled),
        images: None,
        content_chunks: None,
    }
}

impl BingSearchResponse {
    /// The results of the response, one per web page.
    pub fn to_search_results<F>(&self) -> (r: Vec<SearchResult<F>>)
        ensures
            results_view(r@) == response_results::<F>(*self),
    {
        let mut r: Vec<SearchResult<F>> = Vec::new();
        match &self.web_pages {
            Some(pages) => {
                let mut i: usize = 0;
                while i < pages.value.len()
                    invariant
                        i <= pages.value.len(),
                        r.len() == i,
                        forall|k: int| 0 <= k < i ==> #[trigger] r@[k]@ == page_result::<F>(pages.value@[k]),
                    decreases pages.value.len() - i,
                {
                    r.push(page_to_result(&pages.value[i]));
                    i += 1;
                }
                assert(results_view(r@) =~= response_results::<F>(*self));
            },
            None => {
                assert(results_view(r@) =~= response_results::<F>(*self));
            },
        }
        r
    }

    /// The metadata of the response for `query`: the estimated number of
    /// matches and nothing else (Bing pages by offset, not by token).
    pub fn to_search_metadata<F>(&self, query: String) -> (r: SearchMetadata<F>)
        ensures
            r.query@ == query@,
            r.total_results == match self.web_pages {
                Some(pages) => pages.total_estimated_matches,
                None => None,
            },
            r.search_time_ms is None,
            r.safe_search is None,
            r.language is None,
            r.region is None,
            r.next_page_token is None,
            r.rate_limits is None,
    {
        let total_results = match &self.web_pages {
            Some(pages) => pages.total_estimated_matches,
            None => None,
        };
        SearchMetadata {
            query,
            total_results,
            search_time_ms: None,
            safe_search: None,
            language: None,
            region: None,
            next_page_token: None,
            rate_limits: None,
        }
    }
}

/// A Bing search session: the client, the parameters, the offset of the
/// next page, and whether the session is finished.
pub struct BingWebSearchSession {
    pub api: BingSearchApi,
    pub params: SearchParams,
    pub current_offset: u32,
    pub finished: bool,
}

impl BingWebSearchSession {
    /// A session that starts at offset 0 and is not finished.
    pub fn new(api: BingSearchApi, params: SearchParams) -> (r: Self)
        ensures
            r.api == api,
            r.params == params,
            r.current_offset == 0,
            !r.finished,
    {
        BingWebSearchSession { api, params, current_offset: 0, finished: false }
    }
}

/// What Bing rejects before any request is made.
pub open spec fn validation_error(p: SpecSearchParams) -> Option<SpecSearchError> {
    if is_blank(p.query) {
        Some(SpecSearchError::InvalidQuery)
    } else if p.time_range is Some {
        Some(SpecSearchError::UnsupportedFeature("Time range filtering not supported by Bing Web Search"@))
    } else if p.advanced_answer == Some(true) {
        Some(SpecSearchError::UnsupportedFeature("Advanced answer mode not supported by Bing Web Search"@))
    } else if (p.include_domains matches Some(d) && d.len() > 0) || (p.exclude_domains matches Some(d)
        && d.len() > 0) {
        Some(SpecSearchError::UnsupportedFeature("Domain filtering not supported by Bing Web Search"@))
    } else {
        None
    }
}

/// The Bing provider's component.
pub struct BingComponent;

impl BingComponent {
    /// Rejects a blank query, a time range, the advanced answer mode, and
    /// domains to include or exclude, in that order.
    pub fn validate_params(params: &SearchParams) -> (r: Result<(), SearchError>)
        ensures
            match validation_error(params@) {
                Some(e) => r matches Err(err) && err@ == e,
                None => r is Ok,
            },
    {
        if is_blank_text(params.query.as_str()) {
            return Err(create_invalid_query_error());
        }
        if params.time_range.is_some() {
            return Err(create_unsupported_feature_error(
                String::from_str("Time range filtering not supported by Bing Web Search"),
            ));
        }
        if params.advanced_answer == Some(true) {
            return Err(create_unsupported_feature_error(
                String::from_str("Advanced answer mode not supported by Bing Web Search"),
            ));
        }
        let includes = match &params.include_domains {
            Some(d) => d.len() > 0,
            None => false,
        };
        let excludes = match &params.exclude_domains {
            Some(d) => d.len() > 0,
            None => false,
        };
        if includes || excludes {
            return Err(create_unsupported_feature_error(
                String::from_str("Domain filtering not supported by Bing Web Search"),
            ));
        }
        Ok(())
    }
}

} // verus!
