//! The data of the `golem:web-search` interface: parameters, results,
//! metadata and errors, each with the mathematical value that contracts use.
//!
//! Relevance scores and search times are floating-point numbers in the
//! interface. The library never computes on them, so results and metadata are
//! generic over the type `F` that holds such a number; callers use `f64`.

use vstd::prelude::*;

verus! {

/// Safe search settings.
#[derive(Clone, Copy, Debug, PartialEq, Eq, Structural)]
pub enum SafeSearchLevel {
    Off,
    Medium,
    High,
}

/// Supported time range filtering.
#[derive(Clone, Copy, Debug, PartialEq, Eq, Structural)]
pub enum TimeRange {
    Day,
    Week,
    Month,
    Year,
}

/// Rate limiting metadata.
#[derive(Clone, Copy, Debug, PartialEq, Eq, Structural)]
pub struct RateLimitInfo {
    pub limit: u32,
    pub remaining: u32,
    pub reset_timestamp: u64,
}

/// A copy of an optional text.
pub fn clone_optional_text(s: &Option<String>) -> (r: Option<String>)
    ensures
        r == *s,
{
    match s {
        Some(t) => Some(t.clone()),
        None => None,
    }
}

/// A copy of a list of texts.
pub fn clone_texts(v: &Vec<String>) -> (r: Vec<String>)
    ensures
        r.deep_view() == v.deep_view(),
{
    let mut r: Vec<String> = Vec::new();
    let mut i: usize = 0;
    while i < v.len()
        invariant
            i <= v.len(),
            r.len() == i,
            forall|k: int| 0 <= k < i ==> #[trigger] r@[k]@ == v@[k]@,
        decreases v.len() - i,
    {
        r.push(v[i].clone());
        i += 1;
    }
    assert(r.deep_view() =~= v.deep_view());
    r
}

/// A copy of an optional list of texts.
pub fn clone_optional_texts(v: &Option<Vec<String>>) -> (r: Option<Vec<String>>)
    ensures
        r.deep_view() == v.deep_view(),
{
    match v {
        Some(t) => Some(clone_texts(t)),
        None => None,
    }
}

/// Image data attached to a result.
#[derive(Debug)]
pub struct ImageResult {
    pub url: String,
    pub description: Option<String>,
}

/// The value of an [`ImageResult`].
pub struct SpecImageResult {
    pub url: Seq<char>,
    pub description: Option<Seq<char>>,
}

impl View for ImageResult {
    type V = SpecImageResult;

    open spec fn view(&self) -> SpecImageResult {
        SpecImageResult { url: self.url@, description: self.description.deep_view() }
    }
}

impl Clone for ImageResult {
    fn clone(&self) -> (r: Self)
        ensures
            r == *self,
    {
        ImageResult { url: self.url.clone(), description: clone_optional_text(&self.description) }
    }
}

/// A copy of an optional list of images.
pub fn clone_optional_images(images: &Option<Vec<ImageResult>>) -> (r: Option<Vec<ImageResult>>)
    ensures
        images_view(r) == images_view(*images),
{
    match images {
        Some(v) => {
            let mut r: Vec<ImageResult> = Vec::new();
            let mut i: usize = 0;
            while i < v.len()
                invariant
                    i <= v.len(),
                    r.len() == i,
                    forall|k: int| 0 <= k < i ==> #[trigger] r@[k] == v@[k],
                decreases v.len() - i,
            {
                r.push(v[i].clone());
                i += 1;
            }
            assert(images_view(Some(r)) =~= images_view(*images));
            Some(r)
        },
        None => None,
    }
}

/// One search result.
#[derive(Debug)]
pub struct SearchResult<F> {
    pub title: String,
    pub url: String,
    pub snippet: String,
    pub display_url: Option<String>,
    pub source: Option<String>,
    pub score: Option<F>,
    pub html_snippet: Option<String>,
    pub date_published: Option<String>,
    pub images: Option<Vec<ImageResult>>,
    pub content_chunks: Option<Vec<String>>,
}

/// The value of a [`SearchResult`].
pub struct SpecSearchResult<F> {
    pub title: Seq<char>,
    pub url: Seq<char>,
    pub snippet: Seq<char>,
    pub display_url: Option<Seq<char>>,
    pub source: Option<Seq<char>>,
    pub score: Option<F>,
    pub html_snippet: Option<Seq<char>>,
    pub date_published: Option<Seq<char>>,
    pub images: Option<Seq<SpecImageResult>>,
    pub content_chunks: Option<Seq<Seq<char>>>,
}

/// The values of a list of images.
pub open spec fn images_view(images: Option<Vec<ImageResult>>) -> Option<Seq<SpecImageResult>> {
    match images {
        Some(v) => Some(v@.map_values(|i: ImageResult| i@)),
        None => None,
    }
}

impl<F> View for SearchResult<F> {
    type V = SpecSearchResult<F>;

    open spec fn view(&self) -> SpecSearchResult<F> {
        SpecSearchResult {
            title: self.title@,
            url: self.url@,
            snippet: self.snippet@,
            display_url: self.display_url.deep_view(),
            source: self.source.deep_view(),
            score: self.score,
            html_snippet: self.html_snippet.deep_view(),
            date_published: self.date_published.deep_view(),
            images: images_view(self.images),
            content_chunks: self.content_chunks.deep_view(),
        }
    }
}

impl<F: Copy> Clone for SearchResult<F> {
    fn clone(&self) -> (r: Self)
        ensures
            r@ == self@,
    {
        SearchResult {
            title: self.title.clone(),
            url: self.url.clone(),
            snippet: self.snippet.clone(),
            display_url: clone_optional_text(&self.display_url),
            source: clone_optional_text(&self.source),
            score: self.score,
            html_snippet: clone_optional_text(&self.html_snippet),
            date_published: clone_optional_text(&self.date_published),
            images: clone_optional_images(&self.images),
            content_chunks: clone_optional_texts(&self.content_chunks),
        }
    }
}

/// The values of a list of results.
pub open spec fn results_view<F>(results: Seq<SearchResult<F>>) -> Seq<SpecSearchResult<F>> {
    results.map_values(|r: SearchResult<F>| r@)
}

/// Metadata of a search.
#[derive(Debug)]
pub struct SearchMetadata<F> {
    pub query: String,
    pub total_results: Option<u64>,
    pub search_time_ms: Option<F>,
    pub safe_search: Option<SafeSearchLevel>,
    pub language: Option<String>,
    pub region: Option<String>,
    pub next_page_token: Option<String>,
    pub rate_limits: Option<RateLimitInfo>,
}

/// The value of a [`SearchMetadata`].
pub struct SpecSearchMetadata<F> {
    pub query: Seq<char>,
    pub total_results: Option<u64>,
    pub search_time_ms: Option<F>,
    pub safe_search: Option<SafeSearchLevel>,
    pub language: Option<Seq<char>>,
    pub region: Option<Seq<char>>,
    pub next_page_token: Option<Seq<char>>,
    pub rate_limits: Option<RateLimitInfo>,
}

impl<F> View for SearchMetadata<F> {
    type V = SpecSearchMetadata<F>;

    open spec fn view(&self) -> SpecSearchMetadata<F> {
        SpecSearchMetadata {
            query: self.query@,
            total_results: self.total_results,
            search_time_ms: self.search_time_ms,
            safe_search: self.safe_search,
            language: self.language.deep_view(),
            region: self.region.deep_view(),
            next_page_token: self.next_page_token.deep_view(),
            rate_limits: self.rate_limits,
        }
    }
}

impl<F: Copy> Clone for SearchMetadata<F> {
    fn clone(&self) -> (r: Self)
        ensures
            r == *self,
    {
        SearchMetadata {
            query: self.query.clone(),
            total_results: self.total_results,
            search_time_ms: self.search_time_ms,
            safe_search: self.safe_search,
            language: clone_optional_text(&self.language),
            region: clone_optional_text(&self.region),
            next_page_token: clone_optional_text(&self.next_page_token),
            rate_limits: self.rate_limits,
        }
    }
}

/// Query parameters accepted by the unified search API.
#[derive(Debug)]
pub struct SearchParams {
    pub query: String,
    pub safe_search: Option<SafeSearchLevel>,
    pub language: Option<String>,
    pub region: Option<String>,
    pub max_results: Option<u32>,
    pub time_range: Option<TimeRange>,
    pub include_domains: Option<Vec<String>>,
    pub exclude_domains: Option<Vec<String>>,
    pub include_images: Option<bool>,
    pub include_html: Option<bool>,
    pub advanced_answer: Option<bool>,
}

/// The value of a [`SearchParams`].
pub struct SpecSearchParams {
    pub query: Seq<char>,
    pub safe_search: Option<SafeSearchLevel>,
    pub language: Option<Seq<char>>,
    pub region: Option<Seq<char>>,
    pub max_results: Option<u32>,
    pub time_range: Option<TimeRange>,
    pub include_domains: Option<Seq<Seq<char>>>,
    pub exclude_domains: Option<Seq<Seq<char>>>,
    pub include_images: Option<bool>,
    pub include_html: Option<bool>,
    pub advanced_answer: Option<bool>,
}

impl View for SearchParams {
    type V = SpecSearchParams;

    open spec fn view(&self) -> SpecSearchParams {
        SpecSearchParams {
            query: self.query@,
            safe_search: self.safe_search,
            language: self.language.deep_view(),
            region: self.region.deep_view(),
            max_results: self.max_results,
            time_range: self.time_range,
            include_domains: self.include_domains.deep_view(),
            exclude_domains: self.exclude_domains.deep_view(),
            include_images: self.include_images,
            include_html: self.include_html,
            advanced_answer: self.advanced_answer,
        }
    }
}

impl Clone for SearchParams {
    fn clone(&self) -> (r: Self)
        ensures
            r@ == self@,
    {
        SearchParams {
            query: self.query.clone(),
            safe_search: self.safe_search,
            language: clone_optional_text(&self.language),
            region: clone_optional_text(&self.region),
            max_results: self.max_results,
            time_range: self.time_range,
            include_domains: clone_optional_texts(&self.include_domains),
            exclude_domains: clone_optional_texts(&self.exclude_domains),
            include_images: self.include_images,
            include_html: self.include_html,
            advanced_answer: self.advanced_answer,
        }
    }
}

/// Structured search error.
#[derive(Debug)]
pub enum SearchError {
    InvalidQuery,
    RateLimited(u32),
    UnsupportedFeature(String),
    BackendError(String),
}

/// The value of a [`SearchError`].
pub enum SpecSearchError {
    InvalidQuery,
    RateLimited(u32),
    UnsupportedFeature(Seq<char>),
    BackendError(Seq<char>),
}

impl View for SearchError {
    type V = SpecSearchError;

    open spec fn view(&self) -> SpecSearchError {
        match self {
            SearchError::InvalidQuery => SpecSearchError::InvalidQuery,
            SearchError::RateLimited(n) => SpecSearchError::RateLimited(*n),
            SearchError::UnsupportedFeature(f) => SpecSearchError::UnsupportedFeature(f@),
            SearchError::BackendError(m) => SpecSearchError::BackendError(m@),
        }
    }
}

impl Clone for SearchError {
    fn clone(&self) -> (r: Self)
        ensures
            r == *self,
    {
        match self {
            SearchError::InvalidQuery => SearchError::InvalidQuery,
            SearchError::RateLimited(n) => SearchError::RateLimited(*n),
            SearchError::UnsupportedFeature(f) => SearchError::UnsupportedFeature(f.clone()),
            SearchError::BackendError(m) => SearchError::BackendError(m.clone()),
        }
    }
}

} // verus!
