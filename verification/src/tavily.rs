//! Tavily: request, validation and response conversion.

use vstd::prelude::*;
use crate::error::create_invalid_query_error;
use crate::text::{is_blank, is_blank_text, is_trimmed_under_two_bytes, prefixed, trimmed_under_two_bytes};
use crate::types::{
    clone_optional_text, clone_texts, images_view, results_view, ImageResult, SearchError, SearchMetadata,
    SearchParams, SearchResult, SpecImageResult, SpecSearchError, SpecSearchParams, SpecSearchResult, TimeRange,
};

verus! {

/// The endpoint of the Tavily search API.
pub const BASE_URL: &'static str = "https://api.tavily.com/search";

/// The longest query that Tavily accepts, in bytes of UTF-8.
pub const MAX_QUERY_BYTES: usize = 400;

/// The most results that one Tavily request returns.
pub const MAX_RESULTS_PER_REQUEST: u32 = 20;

/// The `time_range` field for a time range.
pub open spec fn time_range_value(range: TimeRange) -> Seq<char> {
    match range {
        TimeRange::Day => "day"@,
        TimeRange::Week => "week"@,
        TimeRange::Month => "month"@,
        TimeRange::Year => "year"@,
    }
}

/// The `time_range` field for a time range.
pub fn time_range_text(range: TimeRange) -> (r: &'static str)
    ensures
        r@ == time_range_value(range),
{
    match range {
        TimeRange::Day => "day",
        TimeRange::Week => "week",
        TimeRange::Month => "month",
        TimeRange::Year => "year",
    }
}

/// The JSON body of a Tavily search request. Absent fields are not sent.
#[derive(Debug)]
pub struct TavilySearchRequest {
    pub query: String,
    pub max_results: Option<u32>,
    pub include_domains: Option<Vec<String>>,
    pub exclude_domains: Option<Vec<String>>,
    pub country: Option<String>,
    pub time_range: Option<String>,
    pub search_depth: String,
    pub include_raw_content: Option<bool>,
    pub include_images: Option<bool>,
    pub include_answer: Option<bool>,
}

/// A domain list that is sent only when it is not empty.
pub open spec fn non_empty_domains(domains: Option<Seq<Seq<char>>>) -> Option<Seq<Seq<char>>> {
    match domains {
        Some(d) => if d.len() > 0 { Some(d) } else { None },
        None => None,
    }
}

/// A flag that is sent, as `true`, only when it is set.
pub open spec fn flag_if_set(flag: Option<bool>) -> Option<bool> {
    if flag == Some(true) { Some(true) } else { None }
}

fn non_empty_domain_list(domains: &Option<Vec<String>>) -> (r: Option<Vec<String>>)
    ensures
        r.deep_view() == non_empty_domains(domains.deep_view()),
{
    match domains {
        Some(d) => if d.len() > 0 { Some(clone_texts(d)) } else { None },
        None => None,
    }
}

fn flag_when_set(flag: Option<bool>) -> (r: Option<bool>)
    ensures
        r == flag_if_set(flag),
{
    if flag == Some(true) { Some(true) } else { None }
}

/// `r` is the body of a search with `params` for `max_results` results (or
/// the parameters' maximum), at most 20: the query, the domain lists when
/// they are not empty, the region as country, the time range, the `basic`
/// search depth, and raw content, images and an answer when the parameters
/// ask for HTML, images and the advanced answer.
pub open spec fn is_search_request(r: TavilySearchRequest, params: SearchParams, max_results: Option<u32>) -> bool {
    &&& r.query@ == params.query@
    &&& r.max_results == match (match max_results {
        Some(m) => Some(m),
        None => params.max_results,
    }) {
        Some(m) => Some(if m < 20 { m } else { 20u32 }),
        None => None,
    }
    &&& r.include_domains.deep_view() == non_empty_domains(params@.include_domains)
    &&& r.exclude_domains.deep_view() == non_empty_domains(params@.exclude_domains)
    &&& r.country == params.region
    &&& r.time_range.deep_view() == match params.time_range {
        Some(t) => Some(time_range_value(t)),
        None => None,
    }
    &&& r.search_depth@ == "basic"@
    &&& r.include_raw_content == flag_if_set(params.include_html)
    &&& r.include_images == flag_if_set(params.include_images)
    &&& r.include_answer == flag_if_set(params.advanced_answer)
}

/// Tavily API client: the API key.
pub struct TavilySearchApi {
    api_key: String,
}

impl TavilySearchApi {
    /// The API key.
    pub closed spec fn key(&self) -> Seq<char> {
        self.api_key@
    }

    pub fn new(api_key: String) -> (r: Self)
        ensures
            r.key() == api_key@,
    {
        TavilySearchApi { api_key }
    }

    /// The value of the `Authorization` header: the key as a bearer token.
    pub fn authorization(&self) -> (r: String)
        ensures
            r@ == "Bearer "@ + self.key(),
    {
        prefixed("Bearer ", self.api_key.as_str())
    }

    /// The body of a search for `max_results` results (or the parameters'
    /// maximum), at most 20. The search depth is always `basic`; raw content,
    /// images and an answer are asked for when the parameters ask for HTML,
    /// images and the advanced answer. Tavily does not page, so `offset` is
    /// not sent.
    pub fn search_request(&self, params: &SearchParams, max_results: Option<u32>, offset: Option<u32>) -> (r:
        TavilySearchRequest)
        ensures
            is_search_request(r, *params, max_results),
    {
        let wanted = match max_results {
            Some(m) => Some(m),
            None => params.max_results,
        };
        let max_results = match wanted {
            Some(m) => Some(if m < MAX_RESULTS_PER_REQUEST { m } else { MAX_RESULTS_PER_REQUEST }),
            None => None,
        };
        let time_range = match params.time_range {
            Some(t) => Some(String::from_str(time_range_text(t))),
            None => None,
        };
        TavilySearchRequest {
            query: params.query.clone(),
            max_results,
            include_domains: non_empty_domain_list(&params.include_domains),
            exclude_domains: non_empty_domain_list(&params.exclude_domains),
            country: clone_optional_text(&params.region),
            time_range,
            search_depth: String::from_str("basic"),
            include_raw_content: flag_when_set(params.include_html),
            include_images: flag_when_set(params.include_images),
            include_answer: flag_when_set(params.advanced_answer),
        }
    }
}

/// A response of the Tavily search API; `response_time` is in seconds.
#[derive(Debug)]
pub struct TavilySearchResponse<F> {
    pub query: String,
    pub results: Vec<TavilyResult<F>>,
    pub answer: Option<String>,
    pub images: Option<Vec<String>>,
    pub response_time: F,
}

/// One result, with Tavily's relevance score.
#[derive(Debug)]
pub struct TavilyResult<F> {
    pub title: String,
    pub url: String,
    pub content: String,
    pub score: F,
    pub raw_content: Option<String>,
    pub published_date: Option<String>,
}

/// The images of a response, each without a description.
pub open spec fn response_images(images: Option<Seq<Seq<char>>>) -> Option<Seq<SpecImageResult>> {
    match images {
        Some(urls) => Some(urls.map_values(|u: Seq<char>| SpecImageResult { url: u, description: None })),
        None => None,
    }
}

/// The result that an item becomes; every result carries all images of
/// the response.
pub open spec fn item_result<F>(item: TavilyResult<F>, images: Option<Seq<Seq<char>>>) -> SpecSearchResult<F> {
    SpecSearchResult {
        title: item.title@,
        url: item.url@,
        snippet: item.content@,
        display_url: Some(item.url@),
        source: Some("Tavily"@),
        score: Some(item.score),
        html_snippet: item.raw_content.deep_view(),
        date_published: item.published_date.deep_view(),
        images: response_images(images),
        content_chunks: None,
    }
}

/// The results of a response: one per item, in order.
pub open spec fn response_results<F>(resp: TavilySearchResponse<F>) -> Seq<SpecSearchResult<F>> {
    resp.results@.map_values(|i: TavilyResult<F>| item_result::<F>(i, resp.images.deep_view()))
}

fn image_list(images: &Option<Vec<String>>) -> (r: Option<Vec<ImageResult>>)
    ensures
        images_view(r) == response_images(images.deep_view()),
{
    match images {
        Some(urls) => {
            let mut v: Vec<ImageResult> = Vec::new();
            let mut i: usize = 0;
            while i < urls.len()
                invariant
                    i <= urls.len(),
                    v.len() == i,
                    forall|k: int| 0 <= k < i ==> #[trigger] v@[k]@ == (SpecImageResult { url: urls@[k]@, description: None }),
                decreases urls.len() - i,
            {
                v.push(ImageResult { url: urls[i].clone(), description: None });
                i += 1;
            }
            assert(images_view(Some(v)) =~= response_images(images.deep_view()));
            Some(v)
        },
        None => None,
    }
}

fn item_to_result<F: Copy>(item: &TavilyResult<F>, images: &Option<Vec<String>>) -> (r: SearchResult<F>)
    ensures
        r@ == item_result::<F>(*item, images.deep_view()),
{
    SearchResult {
        title: item.title.clone(),
        url: item.url.clone(),
        snippet: item.content.clone(),
        display_url: Some(item.url.clone()),
        source: Some(String::from_str("Tavily")),
        score: Some(item.score),
        html_snippet: clone_optional_text(&item.raw_content),
        date_published: clone_optional_text(&item.published_date),
        images: image_list(images),
        content_chunks: None,
    }
}

impl<F: Copy> TavilySearchResponse<F> {
    /// The results of the response, one per item.
    pub fn to_search_results(&self) -> (r: Vec<SearchResult<F>>)
        ensures
            results_view(r@) == response_results(*self),
    {
        let mut r: Vec<SearchResult<F>> = Vec::new();
        let mut i: usize = 0;
        while i < self.results.len()
            invariant
                i <= self.results.len(),
                r.len() == i,
                forall|k: int| 0 <= k < i ==> #[trigger] r@[k]@ == item_result::<F>(self.results@[k], self.images.deep_view()),
            decreases self.results.len() - i,
        {
            r.push(item_to_result(&self.results[i], &self.images));
            i += 1;
        }
        assert(results_view(r@) =~= response_results(*self));
        r
    }

    /// The metadata of the response: the query that Tavily answered, the
    /// number of results, and the response time in milliseconds as
    /// `to_millis` gives it from the reported seconds.
    pub fn to_search_metadata<M: Fn(F) -> F>(&self, to_millis: M) -> (r: SearchMetadata<F>)
        requires
            forall|t: F| to_millis.requires((t,)),
        ensures
            r.query@ == self.query@,
            r.total_results == Some(self.results.len() as u64),
            r.search_time_ms matches Some(ms) && call_ensures(to_millis, (self.response_time,), ms),
            r.safe_search is None,
            r.language is None,
            r.region is None,
            r.next_page_token is None,
            r.rate_limits is None,
    {
        SearchMetadata {
            query: self.query.clone(),
            total_results: Some(self.results.len() as u64),
            search_time_ms: Some(to_millis(self.response_time)),
            safe_search: None,
            language: None,
            region: None,
            next_page_token: None,
            rate_limits: None,
        }
    }
}

/// A Tavily search session: the client, the parameters, the offset of the
/// next page, whether the session is finished, and the results kept from
/// an earlier request.
pub struct TavilyWebSearchSession<F> {
    pub api: TavilySearchApi,
    pub params: SearchParams,
    pub current_offset: u32,
    pub finished: bool,
    pub cached_results: Option<Vec<SearchResult<F>>>,
}

impl<F> TavilyWebSearchSession<F> {
    /// A session from offset 0 with nothing kept; it cannot fail.
    pub fn new(api: TavilySearchApi, params: SearchParams) -> (r: Result<Self, SearchError>)
        ensures
            r matches Ok(s) && s.api == api && s.params == params && s.current_offset == 0 && !s.finished
                && s.cached_results is None,
    {
        Ok(TavilyWebSearchSession { api, params, current_offset: 0, finished: false, cached_results: None })
    }

    /// The body of the request for the page at `offset`.
    pub fn page_request(&self, offset: u32) -> (r: TavilySearchRequest)
        ensures
            is_search_request(r, self.params, self.params.max_results),
    {
        self.api.search_request(&self.params, self.params.max_results, Some(offset))
    }
}

/// The largest `max_results` that Tavily accepts.
pub const MAX_RESULTS: u32 = 100;

/// What Tavily rejects before any request is made: a query that is blank or
/// is shorter than two bytes once trimmed, a query longer than 400
/// bytes, and a maximum of results that is 0 or above 100.
pub open spec fn validation_error(p: SpecSearchParams) -> Option<SpecSearchError> {
    if is_blank(p.query) || trimmed_under_two_bytes(p.query) || vstd::utf8::encode_utf8(p.query).len() > 400 {
        Some(SpecSearchError::InvalidQuery)
    } else if p.max_results matches Some(m) && (m == 0 || m > 100) {
        Some(SpecSearchError::InvalidQuery)
    } else {
        None
    }
}

/// The Tavily provider's component.
pub struct TavilyComponent;

impl TavilyComponent {
    /// Rejects a query that is blank, shorter than two bytes once
    /// trimmed, or longer than 400 bytes, and a maximum of results outside
    /// 1 to 100.
    pub fn validate_params(params: &SearchParams) -> (r: Result<(), SearchError>)
        ensures
            match validation_error(params@) {
                Some(e) => r matches Err(err) && err@ == e,
                None => r is Ok,
            },
    {
        if is_blank_text(params.query.as_str()) {
            return Err(create_invalid_query_error());
        }
        if is_trimmed_under_two_bytes(params.query.as_str()) {
            return Err(create_invalid_query_error());
        }
        if params.query.as_str().as_bytes().len() > MAX_QUERY_BYTES {
            return Err(create_invalid_query_error());
        }
        if let Some(m) = params.max_results {
            if m == 0 || m > MAX_RESULTS {
                return Err(create_invalid_query_error());
            }
        }
        Ok(())
    }
}

} // verus!
