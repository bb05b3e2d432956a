//! Google Custom Search: request, validation, response conversion and pagination.

use vstd::prelude::*;
use crate::error::{create_invalid_query_error, create_unsupported_feature_error};
use crate::numbers::{decimal, parse_u64, parse_u64_decimal, u64_to_decimal};
use crate::request::{encode_url, optional_pair, push_optional_pair, push_pair, url_or_error, url_with_query, SpecPairs};
use crate::text::{is_blank, is_blank_text, join, prefixed};
use crate::session::SearchSessionState;
use crate::types::{
    results_view, SafeSearchLevel, SearchError, SearchMetadata, SearchParams, SearchResult, SpecSearchError,
    SpecSearchParams, SpecSearchResult, TimeRange,
};

verus! {

/// The endpoint of the Custom Search JSON API.
pub const BASE_URL: &'static str = "https://www.googleapis.com/customsearch/v1";

/// The `safe` parameter for a safe search level.
pub open spec fn safe_value(level: SafeSearchLevel) -> Seq<char> {
    match level {
        SafeSearchLevel::Off => "off"@,
        SafeSearchLevel::Medium => "medium"@,
        SafeSearchLevel::High => "high"@,
    }
}

/// The `sort` parameter that restricts results to a time range.
pub open spec fn sort_value(range: TimeRange) -> Seq<char> {
    match range {
        TimeRange::Day => "date:r:86400"@,
        TimeRange::Week => "date:r:604800"@,
        TimeRange::Month => "date:r:2592000"@,
        TimeRange::Year => "date:r:31536000"@,
    }
}

/// `site:` restrictions for each domain, joined by ` OR `.
pub open spec fn site_filter(domains: Seq<Seq<char>>) -> Seq<char> {
    join(domains.map_values(|d: Seq<char>| "site:"@ + d), " OR "@)
}

/// The query text sent to Google: the query, followed by the domain
/// restrictions in parentheses when domains to include are given.
pub open spec fn final_query(p: SpecSearchParams) -> Seq<char> {
    match p.include_domains {
        Some(domains) => if domains.len() > 0 {
            p.query + " ("@ + site_filter(domains) + ")"@
        } else {
            p.query
        },
        None => p.query,
    }
}

/// The `num` parameter: the requested maximum, capped at Google's limit of
/// 10 results per request.
pub open spec fn num_value(max_results: Option<u32>) -> Option<Seq<char>> {
    match max_results {
        Some(m) => Some(decimal(if m < 10 { m as nat } else { 10 })),
        None => None,
    }
}

/// The query parameters of a request for the results from position `start`.
pub open spec fn query_pairs(api_key: Seq<char>, cx: Seq<char>, p: SpecSearchParams, start: Option<u32>) -> SpecPairs {
    seq![("key"@, api_key), ("cx"@, cx), ("q"@, final_query(p))]
        + optional_pair("start"@, match start { Some(s) => Some(decimal(s as nat)), None => None })
        + optional_pair("num"@, num_value(p.max_results))
        + optional_pair("lr"@, match p.language { Some(l) => Some("lang_"@ + l), None => None })
        + optional_pair("gl"@, p.region)
        + optional_pair("safe"@, match p.safe_search { Some(s) => Some(safe_value(s)), None => None })
        + optional_pair("sort"@, match p.time_range { Some(t) => Some(sort_value(t)), None => None })
}

fn safe_text(level: SafeSearchLevel) -> (r: &'static str)
    ensures
        r@ == safe_value(level),
{
    match level {
        SafeSearchLevel::Off => "off",
        SafeSearchLevel::Medium => "medium",
        SafeSearchLevel::High => "high",
    }
}

fn sort_text(range: TimeRange) -> (r: &'static str)
    ensures
        r@ == sort_value(range),
{
    match range {
        TimeRange::Day => "date:r:86400",
        TimeRange::Week => "date:r:604800",
        TimeRange::Month => "date:r:2592000",
        TimeRange::Year => "date:r:31536000",
    }
}

fn site_filter_text(domains: &Vec<String>) -> (r: String)
    requires
        domains.len() > 0,
    ensures
        r@ == site_filter(domains.deep_view()),
{
    let ghost d = domains.deep_view();
    let ghost sites = d.map_values(|x: Seq<char>| "site:"@ + x);
    let mut r = prefixed("site:", domains[0].as_str());
    assert(sites.take(1) =~= seq![sites[0]]);
    let mut i: usize = 1;
    while i < domains.len()
        invariant
            1 <= i <= domains.len(),
            d == domains.deep_view(),
            sites == d.map_values(|x: Seq<char>| "site:"@ + x),
            r@ == join(sites.take(i as int), " OR "@),
        decreases domains.len() - i,
    {
        r.append(" OR ");
        r.append("site:");
        r.append(domains[i].as_str());
        assert(sites.take(i + 1).drop_last() =~= sites.take(i as int));
        assert(r@ =~= join(sites.take(i as int), " OR "@) + " OR "@ + sites[i as int]);
        i += 1;
    }
    assert(sites.take(i as int) =~= sites);
    r
}

fn final_query_text(params: &SearchParams) -> (r: String)
    ensures
        r@ == final_query(params@),
{
    match &params.include_domains {
        Some(domains) => {
            if domains.len() > 0 {
                let sites = site_filter_text(domains);
                let mut q = params.query.clone();
                q.append(" (");
                q.append(sites.as_str());
                q.append(")");
                q
            } else {
                params.query.clone()
            }
        },
        None => params.query.clone(),
    }
}

/// Google Custom Search API client: the API key and the search engine id.
pub struct GoogleSearchApi {
    api_key: String,
    cx: String,
}

impl GoogleSearchApi {
    /// The API key.
    pub closed spec fn key(&self) -> Seq<char> {
        self.api_key@
    }

    /// The Custom Search Engine id.
    pub closed spec fn engine(&self) -> Seq<char> {
        self.cx@
    }

    pub fn new(api_key: String, cx: String) -> (r: Self)
        ensures
            r.key() == api_key@,
            r.engine() == cx@,
    {
        GoogleSearchApi { api_key, cx }
    }

    /// The query parameters of a search from position `start`.
    pub fn query_pairs(&self, params: &SearchParams, start: Option<u32>) -> (r: Vec<(String, String)>)
        ensures
            r.deep_view() == query_pairs(self.key(), self.engine(), params@, start),
    {
        let mut pairs: Vec<(String, String)> = Vec::new();
        push_pair(&mut pairs, "key", self.api_key.clone());
        push_pair(&mut pairs, "cx", self.cx.clone());
        push_pair(&mut pairs, "q", final_query_text(params));
        assert(pairs.deep_view() =~= seq![("key"@, self.key()), ("cx"@, self.engine()), ("q"@, final_query(params@))]);
        let start_text = match start {
            Some(s) => Some(u64_to_decimal(s as u64)),
            None => None,
        };
        push_optional_pair(&mut pairs, "start", start_text);
        let num_text = match params.max_results {
            Some(m) => Some(u64_to_decimal(if m < 10 { m as u64 } else { 10 })),
            None => None,
        };
        push_optional_pair(&mut pairs, "num", num_text);
        let lang_text = match &params.language {
            Some(l) => Some(prefixed("lang_", l.as_str())),
            None => None,
        };
        push_optional_pair(&mut pairs, "lr", lang_text);
        push_optional_pair(&mut pairs, "gl", crate::types::clone_optional_text(&params.region));
        let safe = match params.safe_search {
            Some(s) => Some(String::from_str(safe_text(s))),
            None => None,
        };
        push_optional_pair(&mut pairs, "safe", safe);
        let sort = match params.time_range {
            Some(t) => Some(String::from_str(sort_text(t))),
            None => None,
        };
        push_optional_pair(&mut pairs, "sort", sort);
        pairs
    }

    /// The URL of a search from position `start`, or the error for a base
    /// URL that does not parse.
    pub fn request_url(&self, params: &SearchParams, start: Option<u32>) -> (r: Result<String, SearchError>)
        ensures
            match url_with_query(BASE_URL@, query_pairs(self.key(), self.engine(), params@, start)) {
                Ok(u) => r matches Ok(s) && s@ == u,
                Err(e) => r matches Err(err) && err@ == SpecSearchError::BackendError("Invalid URL: "@ + e),
            },
    {
        let pairs = self.query_pairs(params, start);
        url_or_error(encode_url(BASE_URL, &pairs))
    }
}

/// What Google rejects before any request is made.
pub open spec fn validation_error(p: SpecSearchParams) -> Option<SpecSearchError> {
    if is_blank(p.query) {
        Some(SpecSearchError::InvalidQuery)
    } else if p.exclude_domains is Some && p.exclude_domains.unwrap().len() > 0 {
        Some(SpecSearchError::UnsupportedFeature("Domain exclusion not supported by Google Custom Search"@))
    } else if p.advanced_answer == Some(true) {
        Some(SpecSearchError::UnsupportedFeature("Advanced answer mode not supported by Google Custom Search"@))
    } else {
        None
    }
}

/// The Google provider's component.
pub struct GoogleComponent;

impl GoogleComponent {
    /// Rejects a blank query, domains to exclude, and the advanced answer mode.
    pub fn validate_params(params: &SearchParams) -> (r: Result<(), SearchError>)
        ensures
            match validation_error(params@) {
                Some(e) => r matches Err(err) && err@ == e,
                None => r is Ok,
            },
    {
        if is_blank_text(params.query.as_str()) {
            return Err(create_invalid_query_error());
        }
        if params.exclude_domains.is_some() && params.exclude_domains.as_ref().unwrap().len() > 0 {
            return Err(create_unsupported_feature_error(
                String::from_str("Domain exclusion not supported by Google Custom Search"),
            ));
        }
        if params.advanced_answer == Some(true) {
            return Err(create_unsupported_feature_error(
                String::from_str("Advanced answer mode not supported by Google Custom Search"),
            ));
        }
        Ok(())
    }
}


/// A response of the Custom Search JSON API.
#[derive(Debug)]
pub struct GoogleSearchResponse<F> {
    pub kind: String,
    pub url: Option<GoogleUrl>,
    pub queries: Option<GoogleQueries>,
    pub context: Option<GoogleContext>,
    pub search_information: Option<GoogleSearchInformation<F>>,
    pub items: Option<Vec<GoogleSearchItem>>,
    pub error: Option<GoogleError>,
}

/// The OpenSearch URL template of the API.
#[derive(Debug)]
pub struct GoogleUrl {
    pub url_type: String,
    pub template: String,
}

/// The request that was answered and the one for the next page.
#[derive(Debug)]
pub struct GoogleQueries {
    pub request: Option<Vec<GoogleQuery>>,
    pub next_page: Option<Vec<GoogleQuery>>,
}

/// One query of a response's `queries`.
#[derive(Debug)]
pub struct GoogleQuery {
    pub title: String,
    pub total_results: String,
    pub search_terms: String,
    pub count: Option<u32>,
    pub start_index: Option<u32>,
    pub input_encoding: Option<String>,
    pub output_encoding: Option<String>,
    pub safe: Option<String>,
    pub cx: Option<String>,
}

/// The search engine that answered.
#[derive(Debug)]
pub struct GoogleContext {
    pub title: String,
}

/// Totals and timing of a search; `search_time` is in seconds.
#[derive(Debug)]
pub struct GoogleSearchInformation<F> {
    pub search_time: F,
    pub formatted_search_time: String,
    pub total_results: String,
    pub formatted_total_results: String,
}

/// One result item. (The API's `pagemap` is not read and not held here.)
#[derive(Debug)]
pub struct GoogleSearchItem {
    pub kind: String,
    pub title: String,
    pub html_title: String,
    pub link: String,
    pub display_link: String,
    pub snippet: String,
    pub html_snippet: String,
    pub cache_id: Option<String>,
    pub formatted_url: Option<String>,
    pub html_formatted_url: Option<String>,
}

/// An error reported in a response body.
#[derive(Debug)]
pub struct GoogleError {
    pub code: u32,
    pub message: String,
    pub errors: Option<Vec<GoogleErrorDetail>>,
}

/// One detail of a [`GoogleError`].
#[derive(Debug)]
pub struct GoogleErrorDetail {
    pub message: String,
    pub domain: String,
    pub reason: String,
}

/// The result that an item becomes.
pub open spec fn item_result<F>(item: GoogleSearchItem) -> SpecSearchResult<F> {
    SpecSearchResult {
        title: item.title@,
        url: item.link@,
        snippet: item.snippet@,
        display_url: Some(item.display_link@),
        source: Some("Google"@),
        score: None,
        html_snippet: Some(item.html_snippet@),
        date_published: None,
        images: None,
        content_chunks: None,
    }
}

/// The results of a response: one per item, in order.
pub open spec fn response_results<F>(resp: GoogleSearchResponse<F>) -> Seq<SpecSearchResult<F>> {
    match resp.items {
        Some(items) => items@.map_values(|i: GoogleSearchItem| item_result::<F>(i)),
        None => Seq::empty(),
    }
}

/// The token for the next page: the start index of the first query that
/// `queries.nextPage` offers.
pub open spec fn next_page_token<F>(resp: GoogleSearchResponse<F>) -> Option<Seq<char>> {
    match resp.queries {
        Some(q) => match q.next_page {
            Some(next) => if next.len() > 0 {
                match next[0].start_index {
                    Some(start) => Some(decimal(start as nat)),
                    None => None,
                }
            } else {
                None
            },
            None => None,
        },
        None => None,
    }
}

/// The response offers a next page.
pub open spec fn offers_next_page<F>(resp: GoogleSearchResponse<F>) -> bool {
    resp.queries is Some && resp.queries.unwrap().next_page is Some
}

/// `m` is the metadata of `resp` for `query`, with the search time in
/// milliseconds as `to_millis` gives it from the reported seconds.
pub open spec fn is_response_metadata<F, M: Fn(F) -> F>(
    m: SearchMetadata<F>,
    resp: GoogleSearchResponse<F>,
    query: Seq<char>,
    to_millis: M,
) -> bool {
    &&& m.query@ == query
    &&& m.total_results == match resp.search_information {
        Some(info) => parse_u64(info.total_results@),
        None => None,
    }
    &&& match resp.search_information {
        Some(info) => m.search_time_ms matches Some(t) && call_ensures(to_millis, (info.search_time,), t),
        None => m.search_time_ms is None,
    }
    &&& m.safe_search is None
    &&& m.language is None
    &&& m.region is None
    &&& m.next_page_token.deep_view() == next_page_token(resp)
    &&& m.rate_limits is None
}

fn item_to_result<F>(item: &GoogleSearchItem) -> (r: SearchResult<F>)
    ensures
        r@ == item_result::<F>(*item),
{
    SearchResult {
        title: item.title.clone(),
        url: item.link.clone(),
        snippet: item.snippet.clone(),
        display_url: Some(item.display_link.clone()),
        source: Some(String::from_str("Google")),
        score: None,
        html_snippet: Some(item.html_snippet.clone()),
        date_published: None,
        images: None,
        content_chunks: None,
    }
}

impl<F: Copy> GoogleSearchResponse<F> {
    /// The results of the response, one per item.
    pub fn to_search_results(&self) -> (r: Vec<SearchResult<F>>)
        ensures
            results_view(r@) == response_results(*self),
    {
        let mut r: Vec<SearchResult<F>> = Vec::new();
        match &self.items {
            Some(items) => {
                let mut i: usize = 0;
                while i < items.len()
                    invariant
                        i <= items.len(),
                        r.len() == i,
                        forall|k: int| 0 <= k < i ==> #[trigger] r@[k]@ == item_result::<F>(items@[k]),
                    decreases items.len() - i,
                {
                    r.push(item_to_result(&items[i]));
                    i += 1;
                }
                assert(results_view(r@) =~= response_results(*self));
            },
            None => {
                assert(results_view(r@) =~= response_results(*self));
            },
        }
        r
    }

    /// The metadata of the response for `query`; `to_millis` converts the
    /// reported search time from seconds to milliseconds.
    pub fn to_search_metadata<M: Fn(F) -> F>(&self, query: String, to_millis: M) -> (r: SearchMetadata<F>)
        requires
            forall|t: F| to_millis.requires((t,)),
        ensures
            is_response_metadata(r, *self, query@, to_millis),
    {
        let (total_results, search_time_ms) = match &self.search_information {
            Some(info) => (parse_u64_decimal(info.total_results.as_str()), Some(to_millis(info.search_time))),
            None => (None, None),
        };
        let next_page_token = match &self.queries {
            Some(q) => match &q.next_page {
                Some(next) => if next.len() > 0 {
                    match next[0].start_index {
                        Some(start) => Some(u64_to_decimal(start as u64)),
                        None => None,
                    }
                } else {
                    None
                },
                None => None,
            },
            None => None,
        };
        SearchMetadata {
            query,
            total_results,
            search_time_ms,
            safe_search: None,
            language: None,
            region: None,
            next_page_token,
            rate_limits: None,
        }
    }
}


/// The pagination of a Google search: the client, the parameters, and the
/// 1-based position of the first result of the next page.
pub struct GoogleSearchSession {
    api: GoogleSearchApi,
    params: SearchParams,
    current_start: u32,
}

impl GoogleSearchSession {
    /// The client of the session.
    pub closed spec fn api_of(&self) -> GoogleSearchApi {
        self.api
    }

    /// The parameters of the session.
    pub closed spec fn params_of(&self) -> SearchParams {
        self.params
    }

    /// The position that the next page starts at.
    pub closed spec fn start_of(&self) -> u32 {
        self.current_start
    }

    /// A session that starts at the first result (Google counts from 1).
    pub fn new(api: GoogleSearchApi, params: SearchParams) -> (r: Self)
        ensures
            r.api_of() == api,
            r.params_of() == params,
            r.start_of() == 1,
    {
        GoogleSearchSession { api, params, current_start: 1 }
    }

    /// The position that the next page starts at.
    pub fn current_start(&self) -> (r: u32)
        ensures
            r == self.start_of(),
    {
        self.current_start
    }

    /// The parameters of the session.
    pub fn params(&self) -> (r: &SearchParams)
        ensures
            *r == self.params_of(),
    {
        &self.params
    }

    /// The URL of the next page's request.
    pub fn request_url(&self) -> (r: Result<String, SearchError>)
        ensures
            match url_with_query(
                BASE_URL@,
                query_pairs(self.api_of().key(), self.api_of().engine(), self.params_of()@, Some(self.start_of())),
            ) {
                Ok(u) => r matches Ok(s) && s@ == u,
                Err(e) => r matches Err(err) && err@ == SpecSearchError::BackendError("Invalid URL: "@ + e),
            },
    {
        self.api.request_url(&self.params, Some(self.current_start))
    }

    /// Takes the outcome of the next page's request. A finished session
    /// answers with an empty page and changes nothing. On a response: the
    /// page's results are returned, the next page starts after them, the
    /// state takes the response's metadata, and the session finishes when the
    /// response offers no next page. On an error: the state records it and
    /// the error is returned.
    pub fn record_page<F: Copy, M: Fn(F) -> F>(
        &mut self,
        state: &mut SearchSessionState<F>,
        outcome: Result<GoogleSearchResponse<F>, SearchError>,
        to_millis: M,
    ) -> (r: Result<Vec<SearchResult<F>>, SearchError>)
        requires
            forall|t: F| to_millis.requires((t,)),
            !old(state).finished ==> (outcome matches Ok(resp) ==> old(self).start_of() + response_results(resp).len()
                <= u32::MAX),
        ensures
            old(state).finished ==> (r matches Ok(page) && page.len() == 0) && *final(self) == *old(self)
                && *final(state) == *old(state),
            final(self).api_of() == old(self).api_of(),
            final(self).params_of() == old(self).params_of(),
            !old(state).finished ==> match outcome {
                Ok(resp) => {
                    &&& r matches Ok(page) && results_view(page@) == response_results(resp)
                    &&& final(self).start_of() == old(self).start_of() + response_results(resp).len()
                    &&& final(state).metadata matches Some(m)
                        && is_response_metadata(m, resp, old(self).params_of().query@, to_millis)
                        && final(state).next_page_token == m.next_page_token
                    &&& final(state).finished == (old(state).finished || !offers_next_page(resp)
                        || final(state).next_page_token is None)
                    &&& final(state).error == old(state).error
                },
                Err(e) => {
                    &&& r == Err::<Vec<SearchResult<F>>, SearchError>(e)
                    &&& final(self).start_of() == old(self).start_of()
                    &&& final(state).error == Some(e)
                    &&& final(state).finished
                    &&& final(state).metadata == old(state).metadata
                    &&& final(state).next_page_token == old(state).next_page_token
                },
            },
    {
        if state.finished {
            return Ok(Vec::new());
        }
        match outcome {
            Ok(response) => {
                let results = response.to_search_results();
                let metadata = response.to_search_metadata(self.params.query.clone(), to_millis);
                self.current_start = self.current_start + results.len() as u32;
                let has_more = match &response.queries {
                    Some(q) => q.next_page.is_some(),
                    None => false,
                };
                if !has_more {
                    state.set_finished();
                }
                state.update_with_results(results.clone(), Some(metadata));
                Ok(results)
            },
            Err(error) => {
                state.set_error(error.clone());
                Err(error)
            },
        }
    }
}

} // verus!
