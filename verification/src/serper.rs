//! Serper: request, validation and response conversion.

use vstd::prelude::*;
use crate::error::create_invalid_query_error;
use crate::numbers::{parse_u64, parse_u64_decimal};
use crate::text::{is_blank, is_blank_text};
use crate::types::{
    clone_optional_text, SafeSearchLevel, SearchError, SearchMetadata, SearchParams, SearchResult, SpecSearchError,
    SpecSearchParams, SpecSearchResult, TimeRange,
};

verus! {

/// The endpoint of the Serper search API.
pub const BASE_URL: &'static str = "https://google.serper.dev/search";

/// The `safe` field for a safe search level: `off`, or `active` for any
/// filtering.
pub open spec fn safe_value(level: SafeSearchLevel) -> Seq<char> {
    match level {
        SafeSearchLevel::Off => "off"@,
        SafeSearchLevel::Medium => "active"@,
        SafeSearchLevel::High => "active"@,
    }
}

/// The `tbs` field for a time range.
pub open spec fn tbs_value(range: TimeRange) -> Seq<char> {
    match range {
        TimeRange::Day => "qdr:d"@,
        TimeRange::Week => "qdr:w"@,
        TimeRange::Month => "qdr:m"@,
        TimeRange::Year => "qdr:y"@,
    }
}

/// The `safe` field for a safe search level.
pub fn safe_text(level: SafeSearchLevel) -> (r: &'static str)
    ensures
        r@ == safe_value(level),
{
    match level {
        SafeSearchLevel::Off => "off",
        SafeSearchLevel::Medium => "active",
        SafeSearchLevel::High => "active",
    }
}

/// The `tbs` field for a time range.
pub fn tbs_text(range: TimeRange) -> (r: &'static str)
    ensures
        r@ == tbs_value(range),
{
    match range {
        TimeRange::Day => "qdr:d",
        TimeRange::Week => "qdr:w",
        TimeRange::Month => "qdr:m",
        TimeRange::Year => "qdr:y",
    }
}

/// The JSON body of a Serper search request. Absent fields are not sent.
#[derive(Debug)]
pub struct SerperSearchRequest {
    pub q: String,
    pub num: Option<u32>,
    pub start: Option<u32>,
    pub gl: Option<String>,
    pub hl: Option<String>,
    pub safe: Option<String>,
    pub tbs: Option<String>,
    pub site: Option<String>,
    pub autocorrect: Option<bool>,
    pub page: Option<u32>,
    pub type_: Option<String>,
    pub engine: Option<String>,
}

/// The 1-based page that position `start` falls on, for pages of `num`
/// results; the first page when pages are empty.
pub open spec fn page_of(start: u32, num: u32) -> u32 {
    if num == 0 {
        1
    } else if start / num < u32::MAX {
        (start / num + 1) as u32
    } else {
        u32::MAX
    }
}

fn page_number(start: u32, num: u32) -> (r: u32)
    ensures
        r == page_of(start, num),
{
    if num == 0 {
        1
    } else if start / num < u32::MAX {
        start / num + 1
    } else {
        u32::MAX
    }
}

/// `r` is the body of a search with `params` for `num` results (or the
/// parameters' maximum, by default 10) from position `start` (by default 0).
pub open spec fn is_search_request(r: SerperSearchRequest, params: SearchParams, num: Option<u32>, start: Option<u32>) -> bool {
    let n: u32 = match num {
        Some(n) => n,
        None => match params.max_results {
            Some(m) => m,
            None => 10u32,
        },
    };
    let s: u32 = match start {
        Some(s) => s,
        None => 0u32,
    };
    &&& r.q@ == params.query@
    &&& r.num == Some(n)
    &&& r.start == Some(s)
    &&& r.gl == params.region
    &&& r.hl == params.language
    &&& r.safe.deep_view() == match params.safe_search {
        Some(l) => Some(safe_value(l)),
        None => None,
    }
    &&& r.tbs.deep_view() == match params.time_range {
        Some(t) => Some(tbs_value(t)),
        None => None,
    }
    &&& r.site.deep_view() == match params@.include_domains {
        Some(d) => if d.len() > 0 { Some(d[0]) } else { None },
        None => None,
    }
    &&& r.autocorrect == Some(true)
    &&& r.page == Some(page_of(s, n))
    &&& r.type_.deep_view() == Some("search"@)
    &&& r.engine.deep_view() == Some("google"@)
}

/// Serper API client: the API key.
pub struct SerperSearchApi {
    api_key: String,
}

impl SerperSearchApi {
    /// The API key.
    pub closed spec fn key(&self) -> Seq<char> {
        self.api_key@
    }

    pub fn new(api_key: String) -> (r: Self)
        ensures
            r.key() == api_key@,
    {
        SerperSearchApi { api_key }
    }

    /// The value of the `X-API-KEY` header.
    pub fn api_key_header(&self) -> (r: &str)
        ensures
            r@ == self.key(),
    {
        self.api_key.as_str()
    }

    /// The body of a search for `num` results (or the parameters' maximum,
    /// by default 10) from position `start` (by default 0), on the page that
    /// position falls on, with autocorrection, as a Google web search. Only
    /// the first domain to include is passed on.
    pub fn search_request(&self, params: &SearchParams, num: Option<u32>, start: Option<u32>) -> (r:
        SerperSearchRequest)
        ensures
            is_search_request(r, *params, num, start),
    {
        let num = match num {
            Some(n) => n,
            None => match params.max_results {
                Some(m) => m,
                None => 10,
            },
        };
        let start = match start {
            Some(s) => s,
            None => 0,
        };
        let safe = match params.safe_search {
            Some(s) => Some(String::from_str(safe_text(s))),
            None => None,
        };
        let tbs = match params.time_range {
            Some(t) => Some(String::from_str(tbs_text(t))),
            None => None,
        };
        let site = match &params.include_domains {
            Some(d) => if d.len() > 0 { Some(d[0].clone()) } else { None },
            None => None,
        };
        SerperSearchRequest {
            q: params.query.clone(),
            num: Some(num),
            start: Some(start),
            gl: clone_optional_text(&params.region),
            hl: clone_optional_text(&params.language),
            safe,
            tbs,
            site,
            autocorrect: Some(true),
            page: Some(page_number(start, num)),
            type_: Some(String::from_str("search")),
            engine: Some(String::from_str("google")),
        }
    }
}

/// A response of the Serper search API.
#[derive(Debug)]
pub struct SerperSearchResponse<F> {
    pub search_parameters: Option<SerperSearchParameters>,
    pub organic: Option<Vec<SerperOrganicResult>>,
    pub answer_box: Option<SerperAnswerBox>,
    pub knowledge_graph: Option<SerperKnowledgeGraph>,
    pub search_information: Option<SerperSearchInformation<F>>,
}

/// The parameters that Serper applied.
#[derive(Debug)]
pub struct SerperSearchParameters {
    pub q: String,
    pub gl: Option<String>,
    pub hl: Option<String>,
    pub num: Option<u32>,
    pub start: Option<u32>,
}

/// One organic result.
#[derive(Debug)]
pub struct SerperOrganicResult {
    pub title: String,
    pub link: String,
    pub snippet: String,
    pub display_link: Option<String>,
    pub position: Option<u32>,
    pub date: Option<String>,
}

/// A direct answer.
#[derive(Debug)]
pub struct SerperAnswerBox {
    pub answer: Option<String>,
    pub title: Option<String>,
    pub link: Option<String>,
}

/// A knowledge graph entry.
#[derive(Debug)]
pub struct SerperKnowledgeGraph {
    pub title: Option<String>,
    pub description: Option<String>,
    pub website: Option<String>,
}

/// Totals and timing of a search; `time_taken` is in seconds.
#[derive(Debug)]
pub struct SerperSearchInformation<F> {
    pub total_results: Option<String>,
    pub time_taken: Option<F>,
}

/// `r` is the result that `item` becomes, its score being what `rank_score`
/// gives for the item's position.
pub open spec fn is_organic_result<F, R: Fn(u32) -> F>(r: SpecSearchResult<F>, item: SerperOrganicResult, rank_score: R) -> bool {
    &&& r.title == item.title@
    &&& r.url == item.link@
    &&& r.snippet == item.snippet@
    &&& r.display_url == item.display_link.deep_view()
    &&& r.source == Some("Serper"@)
    &&& match item.position {
        Some(p) => r.score matches Some(s) && call_ensures(rank_score, (p,), s),
        None => r.score is None,
    }
    &&& r.html_snippet is None
    &&& r.date_published == item.date.deep_view()
    &&& r.images is None
    &&& r.content_chunks is None
}

/// The organic results of a response.
pub open spec fn organic_results<F>(resp: SerperSearchResponse<F>) -> Seq<SerperOrganicResult> {
    match resp.organic {
        Some(o) => o@,
        None => Seq::empty(),
    }
}

/// `m` is the metadata of `resp` for `query`, with the time taken in
/// milliseconds as `to_millis` gives it from the reported seconds.
pub open spec fn is_response_metadata<F, M: Fn(F) -> F>(
    m: SearchMetadata<F>,
    resp: SerperSearchResponse<F>,
    query: Seq<char>,
    to_millis: M,
) -> bool {
    &&& m.query@ == query
    &&& m.total_results == match resp.search_information {
        Some(info) => match info.total_results {
            Some(t) => parse_u64(t@),
            None => None,
        },
        None => None,
    }
    &&& match resp.search_information {
        Some(info) => match info.time_taken {
            Some(t) => m.search_time_ms matches Some(ms) && call_ensures(to_millis, (t,), ms),
            None => m.search_time_ms is None,
        },
        None => m.search_time_ms is None,
    }
    &&& m.safe_search is None
    &&& m.language.deep_view() == match resp.search_parameters {
        Some(sp) => sp.hl.deep_view(),
        None => None,
    }
    &&& m.region.deep_view() == match resp.search_parameters {
        Some(sp) => sp.gl.deep_view(),
        None => None,
    }
    &&& m.next_page_token is None
    &&& m.rate_limits is None
}

fn organic_to_result<F, R: Fn(u32) -> F>(item: &SerperOrganicResult, rank_score: &R) -> (r: SearchResult<F>)
    requires
        forall|p: u32| rank_score.requires((p,)),
    ensures
        is_organic_result(r@, *item, *rank_score),
{
    let score = match item.position {
        Some(p) => Some(rank_score(p)),
        None => None,
    };
    SearchResult {
        title: item.title.clone(),
        url: item.link.clone(),
        snippet: item.snippet.clone(),
        display_url: clone_optional_text(&item.display_link),
        source: Some(String::from_str("Serper")),
        score,
        html_snippet: None,
        date_published: clone_optional_text(&item.date),
        images: None,
        content_chunks: None,
    }
}

impl<F: Copy> SerperSearchResponse<F> {
    /// The organic results of the response, in order; a result's score is
    /// what `rank_score` gives for its position.
    pub fn to_search_results<R: Fn(u32) -> F>(&self, rank_score: R) -> (r: Vec<SearchResult<F>>)
        requires
            forall|p: u32| rank_score.requires((p,)),
        ensures
            r.len() == organic_results(*self).len(),
            forall|i: int| 0 <= i < r.len() ==> is_organic_result(#[trigger] r@[i]@, organic_results(*self)[i], rank_score),
    {
        let mut r: Vec<SearchResult<F>> = Vec::new();
        if let Some(organic) = &self.organic {
            let mut i: usize = 0;
            while i < organic.len()
                invariant
                    i <= organic.len(),
                    r.len() == i,
                    organic@ == organic_results(*self),
                    forall|p: u32| rank_score.requires((p,)),
                    forall|k: int| 0 <= k < i ==> is_organic_result(#[trigger] r@[k]@, organic@[k], rank_score),
                decreases organic.len() - i,
            {
                r.push(organic_to_result(&organic[i], &rank_score));
                i += 1;
            }
        }
        r
    }

    /// The metadata of the response for `query`; `to_millis` converts the
    /// reported time from seconds to milliseconds.
    pub fn to_search_metadata<M: Fn(F) -> F>(&self, query: String, to_millis: M) -> (r: SearchMetadata<F>)
        requires
            forall|t: F| to_millis.requires((t,)),
        ensures
            is_response_metadata(r, *self, query@, to_millis),
    {
        let (total_results, search_time_ms) = match &self.search_information {
            Some(info) => {
                let total = match &info.total_results {
                    Some(t) => parse_u64_decimal(t.as_str()),
                    None => None,
                };
                let time = match info.time_taken {
                    Some(t) => Some(to_millis(t)),
                    None => None,
                };
                (total, time)
            },
            None => (None, None),
        };
        let (language, region) = match &self.search_parameters {
            Some(sp) => (clone_optional_text(&sp.hl), clone_optional_text(&sp.gl)),
            None => (None, None),
        };
        SearchMetadata {
            query,
            total_results,
            search_time_ms,
            safe_search: None,
            language,
            region,
            next_page_token: None,
            rate_limits: None,
        }
    }
}

/// A Serper search session: the client, the parameters, the position of
/// the next page, the page size, and whether the session is finished.
pub struct SerperWebSearchSession {
    pub api: SerperSearchApi,
    pub params: SearchParams,
    pub current_start: u32,
    pub page_size: u32,
    pub finished: bool,
}

impl SerperWebSearchSession {
    /// A session from position 0 whose pages have the requested maximum
    /// size, by default 10; it cannot fail.
    pub fn new(api: SerperSearchApi, params: SearchParams) -> (r: Result<Self, SearchError>)
        ensures
            r matches Ok(s) && s.page_size == (match params.max_results {
                Some(m) => m,
                None => 10u32,
            }) && s.api == api && s.params == params && s.current_start == 0 && !s.finished,
    {
        let page_size = match params.max_results {
            Some(m) => m,
            None => 10,
        };
        Ok(SerperWebSearchSession { api, params, current_start: 0, page_size, finished: false })
    }

    /// The body of the request for the page that starts at `start`.
    pub fn page_request(&self, start: u32) -> (r: SerperSearchRequest)
        ensures
            is_search_request(r, self.params, Some(self.page_size), Some(start)),
    {
        self.api.search_request(&self.params, Some(self.page_size), Some(start))
    }
}

/// The largest number of results that Serper returns for one request.
pub const MAX_NUM: u32 = 100;

/// What Serper rejects before any request is made: a blank query, and a
/// maximum of results outside 1 to 100.
pub open spec fn validation_error(p: SpecSearchParams) -> Option<SpecSearchError> {
    if is_blank(p.query) {
        Some(SpecSearchError::InvalidQuery)
    } else if p.max_results matches Some(m) && (m == 0 || m > 100) {
        Some(SpecSearchError::InvalidQuery)
    } else {
        None
    }
}

/// The Serper provider's component.
pub struct SerperComponent;

impl SerperComponent {
    /// Rejects a blank query and a maximum of results outside 1 to 100.
    /// Domains to exclude and image inclusion are accepted and ignored.
    pub fn validate_params(params: &SearchParams) -> (r: Result<(), SearchError>)
        ensures
            match validation_error(params@) {
                Some(e) => r matches Err(err) && err@ == e,
                None => r is Ok,
            },
    {
        if is_blank_text(params.query.as_str()) {
            return Err(create_invalid_query_error());
        }
        if let Some(m) = params.max_results {
            if m == 0 || m > MAX_NUM {
                return Err(create_invalid_query_error());
            }
        }
        Ok(())
    }
}

} // verus!
