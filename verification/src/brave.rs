//! Brave Search: request, validation and response conversion.

use vstd::prelude::*;
use crate::error::create_invalid_query_error;
use crate::numbers::{decimal, u64_to_decimal};
use crate::request::{optional_pair, push_optional_pair, push_pair, SpecPairs};
use crate::text::{enclosed, is_blank, is_blank_text};
use crate::types::{
    clone_optional_text, clone_optional_texts, results_view, ImageResult, SafeSearchLevel, SearchError,
    SearchMetadata, SearchParams, SearchResult, SpecImageResult, SpecSearchError, SpecSearchParams,
    SpecSearchResult, TimeRange,
};

verus! {

/// The endpoint of the Brave web search API.
pub const BASE_URL: &'static str = "https://api.search.brave.com/res/v1/web/search";

/// The `safesearch` parameter for a safe search level.
pub open spec fn safe_value(level: SafeSearchLevel) -> Seq<char> {
    match level {
        SafeSearchLevel::Off => "off"@,
        SafeSearchLevel::Medium => "moderate"@,
        SafeSearchLevel::High => "strict"@,
    }
}

/// The `freshness` parameter for a time range.
pub open spec fn freshness_value(range: TimeRange) -> Seq<char> {
    match range {
        TimeRange::Day => "pd"@,
        TimeRange::Week => "pw"@,
        TimeRange::Month => "pm"@,
        TimeRange::Year => "py"@,
    }
}

/// The `safesearch` parameter for a safe search level.
pub fn safe_search_text(level: SafeSearchLevel) -> (r: &'static str)
    ensures
        r@ == safe_value(level),
{
    match level {
        SafeSearchLevel::Off => "off",
        SafeSearchLevel::Medium => "moderate",
        SafeSearchLevel::High => "strict",
    }
}

/// The `freshness` parameter for a time range.
pub fn freshness_text(range: TimeRange) -> (r: &'static str)
    ensures
        r@ == freshness_value(range),
{
    match range {
        TimeRange::Day => "pd",
        TimeRange::Week => "pw",
        TimeRange::Month => "pm",
        TimeRange::Year => "py",
    }
}

/// The query parameters of a request for `count` results (or the
/// parameters' maximum) from `offset` on. Text decorations and spell
/// checking are always asked for.
pub open spec fn query_pairs(p: SpecSearchParams, count: Option<u32>, offset: Option<u32>) -> SpecPairs {
    seq![("q"@, p.query)]
        + optional_pair("count"@, match (match count { Some(c) => Some(c), None => p.max_results }) {
            Some(c) => Some(decimal(c as nat)),
            None => None,
        })
        + optional_pair("offset"@, match offset { Some(o) => Some(decimal(o as nat)), None => None })
        + optional_pair("country"@, p.region)
        + optional_pair("search_lang"@, p.language)
        + optional_pair("safesearch"@, match p.safe_search { Some(s) => Some(safe_value(s)), None => None })
        + optional_pair("freshness"@, match p.time_range { Some(t) => Some(freshness_value(t)), None => None })
        + seq![("text_decorations"@, "true"@), ("spellcheck"@, "true"@)]
}

/// Brave Search API client: the subscription token.
pub struct BraveSearchApi {
    api_key: String,
}

impl BraveSearchApi {
    /// The subscription token.
    pub closed spec fn key(&self) -> Seq<char> {
        self.api_key@
    }

    pub fn new(api_key: String) -> (r: Self)
        ensures
            r.key() == api_key@,
    {
        BraveSearchApi { api_key }
    }

    /// The value of the `X-Subscription-Token` header.
    pub fn subscription_token(&self) -> (r: &str)
        ensures
            r@ == self.key(),
    {
        self.api_key.as_str()
    }

    /// The query parameters of a search for `count` results from `offset` on.
    pub fn query_pairs(&self, params: &SearchParams, count: Option<u32>, offset: Option<u32>) -> (r: Vec<
        (String, String),
    >)
        ensures
            r.deep_view() == query_pairs(params@, count, offset),
    {
        let mut pairs: Vec<(String, String)> = Vec::new();
        push_pair(&mut pairs, "q", params.query.clone());
        assert(pairs.deep_view() =~= seq![("q"@, params@.query)]);
        let wanted = match count {
            Some(c) => Some(c),
            None => params.max_results,
        };
        let count_text = match wanted {
            Some(c) => Some(u64_to_decimal(c as u64)),
            None => None,
        };
        push_optional_pair(&mut pairs, "count", count_text);
        let offset_text = match offset {
            Some(o) => Some(u64_to_decimal(o as u64)),
            None => None,
        };
        push_optional_pair(&mut pairs, "offset", offset_text);
        push_optional_pair(&mut pairs, "country", clone_optional_text(&params.region));
        push_optional_pair(&mut pairs, "search_lang", clone_optional_text(&params.language));
        let safe = match params.safe_search {
            Some(s) => Some(String::from_str(safe_search_text(s))),
            None => None,
        };
        push_optional_pair(&mut pairs, "safesearch", safe);
        let freshness = match params.time_range {
            Some(t) => Some(String::from_str(freshness_text(t))),
            None => None,
        };
        push_optional_pair(&mut pairs, "freshness", freshness);
        let ghost before = pairs.deep_view();
        push_pair(&mut pairs, "text_decorations", String::from_str("true"));
        push_pair(&mut pairs, "spellcheck", String::from_str("true"));
        assert(pairs.deep_view() =~= before + seq![("text_decorations"@, "true"@), ("spellcheck"@, "true"@)]);
        pairs
    }
}

/// A response of the Brave web search API.
#[derive(Debug)]
pub struct BraveSearchResponse<F> {
    pub query: Option<BraveQuery>,
    pub web: Option<BraveWebResults>,
    pub infobox: Option<BraveInfobox>,
    pub discussions: Option<BraveDiscussions<F>>,
    pub faq: Option<BraveFaq>,
    pub videos: Option<BraveVideos>,
    pub news: Option<BraveNews>,
    pub locations: Option<BraveLocations<F>>,
}

/// How Brave understood the query.
#[derive(Debug)]
pub struct BraveQuery {
    pub original: String,
    pub show_strict_warning: Option<bool>,
    pub altered: Option<String>,
    pub safesearch: Option<bool>,
    pub is_navigational: Option<bool>,
    pub local_decision: Option<String>,
    pub local_locations_idx: Option<u32>,
    pub is_location_specific: Option<bool>,
    pub postal_code: Option<String>,
    pub country: Option<String>,
    pub bad_results: Option<bool>,
    pub should_fallback: Option<bool>,
    pub lat: Option<String>,
    pub long: Option<String>,
    pub state: Option<String>,
    pub city: Option<String>,
    pub header_country: Option<String>,
    pub more_results_available: Option<bool>,
    pub custom_location_label: Option<String>,
    pub reddit_cluster: Option<String>,
}

/// The web results of a response.
#[derive(Debug)]
pub struct BraveWebResults {
    pub result_type: String,
    pub results: Vec<BraveWebResult>,
    pub family_friendly: Option<bool>,
}

/// One web result.
#[derive(Debug)]
pub struct BraveWebResult {
    pub result_type: String,
    pub subtype: Option<String>,
    pub title: String,
    pub url: String,
    pub description: String,
    pub date: Option<String>,
    pub extra_snippets: Option<Vec<String>>,
    pub language: Option<String>,
    pub family_friendly: Option<bool>,
    pub thumbnail: Option<BraveThumbnail>,
    pub age: Option<String>,
    pub page_age: Option<String>,
    pub profile: Option<BraveProfile>,
    pub meta_url: Option<BraveMetaUrl>,
    pub cluster_type: Option<String>,
}

/// A thumbnail image.
#[derive(Debug)]
pub struct BraveThumbnail {
    pub src: String,
    pub width: Option<u32>,
    pub height: Option<u32>,
    pub bg_color: Option<String>,
    pub original: Option<String>,
    pub logo: Option<bool>,
}

/// The site profile of a result.
#[derive(Debug)]
pub struct BraveProfile {
    pub name: String,
    pub url: String,
    pub long_name: Option<String>,
    pub img: Option<String>,
}

/// The parts of a result's URL.
#[derive(Debug)]
pub struct BraveMetaUrl {
    pub scheme: String,
    pub netloc: String,
    pub hostname: String,
    pub favicon: Option<String>,
    pub path: String,
}

/// An infobox of a response.
#[derive(Debug)]
pub struct BraveInfobox {
    pub infobox_type: String,
    pub subtype: Option<String>,
    pub position: u32,
    pub title: String,
    pub description: String,
    pub long_desc: Option<String>,
}

/// The discussion results of a response.
#[derive(Debug)]
pub struct BraveDiscussions<F> {
    pub discussion_type: String,
    pub results: Vec<BraveDiscussionResult<F>>,
}

/// One forum discussion.
#[derive(Debug)]
pub struct BraveDiscussionResult<F> {
    pub result_type: String,
    pub title: String,
    pub url: String,
    pub description: String,
    pub date: Option<String>,
    pub forum: Option<String>,
    pub num_answers: Option<u32>,
    pub score: Option<F>,
}

/// The FAQ results of a response.
#[derive(Debug)]
pub struct BraveFaq {
    pub faq_type: String,
    pub results: Vec<BraveFaqResult>,
}

/// One question and answer.
#[derive(Debug)]
pub struct BraveFaqResult {
    pub question: String,
    pub answer: String,
    pub title: String,
    pub url: String,
}

/// The video results of a response.
#[derive(Debug)]
pub struct BraveVideos {
    pub video_type: String,
    pub results: Vec<BraveVideoResult>,
    pub mutated_by_goggles: Option<bool>,
}

/// One video.
#[derive(Debug)]
pub struct BraveVideoResult {
    pub result_type: String,
    pub url: String,
    pub title: String,
    pub description: String,
    pub date: Option<String>,
    pub duration: Option<String>,
    pub views: Option<String>,
    pub creator: Option<String>,
    pub publisher: Option<String>,
    pub thumbnail: Option<BraveThumbnail>,
}

/// The news results of a response.
#[derive(Debug)]
pub struct BraveNews {
    pub news_type: String,
    pub results: Vec<BraveNewsResult>,
    pub mutated_by_goggles: Option<bool>,
}

/// One news article.
#[derive(Debug)]
pub struct BraveNewsResult {
    pub result_type: String,
    pub title: String,
    pub url: String,
    pub description: String,
    pub date: Option<String>,
    pub page_age: Option<String>,
    pub breaking: Option<bool>,
    pub thumbnail: Option<BraveThumbnail>,
    pub meta_url: Option<BraveMetaUrl>,
}

/// The location results of a response.
#[derive(Debug)]
pub struct BraveLocations<F> {
    pub location_type: String,
    pub results: Vec<BraveLocationResult<F>>,
}

/// One place.
#[derive(Debug)]
pub struct BraveLocationResult<F> {
    pub result_type: String,
    pub title: String,
    pub url: String,
    pub description: String,
    pub coordinates: Option<Vec<F>>,
    pub postal_code: Option<String>,
    pub country_code: Option<String>,
    pub address: Option<String>,
    pub phone: Option<String>,
    pub rating: Option<F>,
    pub category: Option<String>,
    pub hours: Option<String>,
    pub provider: Option<String>,
    pub thumbnail: Option<BraveThumbnail>,
}


/// `scheme://netloc` of a result's URL.
pub open spec fn display_url(meta: Option<BraveMetaUrl>) -> Option<Seq<char>> {
    match meta {
        Some(m) => Some(m.scheme@ + "://"@ + m.netloc@),
        None => None,
    }
}

/// The thumbnail as the only image of a result.
pub open spec fn thumbnail_images(thumbnail: Option<BraveThumbnail>) -> Option<Seq<SpecImageResult>> {
    match thumbnail {
        Some(t) => Some(seq![SpecImageResult { url: t.src@, description: None }]),
        None => None,
    }
}

/// The source of a discussion result: the forum's name, or `Unknown`.
pub open spec fn discussion_source(forum: Option<Seq<char>>) -> Seq<char> {
    "Brave Discussion ("@ + match forum {
        Some(f) => f,
        None => "Unknown"@,
    } + ")"@
}

/// The result that a web result becomes.
pub open spec fn web_result<F>(item: BraveWebResult) -> SpecSearchResult<F> {
    SpecSearchResult {
        title: item.title@,
        url: item.url@,
        snippet: item.description@,
        display_url: display_url(item.meta_url),
        source: Some("Brave"@),
        score: None,
        html_snippet: None,
        date_published: item.date.deep_view(),
        images: thumbnail_images(item.thumbnail),
        content_chunks: item.extra_snippets.deep_view(),
    }
}

/// The result that a discussion becomes.
pub open spec fn discussion_result<F>(item: BraveDiscussionResult<F>) -> SpecSearchResult<F> {
    SpecSearchResult {
        title: item.title@,
        url: item.url@,
        snippet: item.description@,
        display_url: None,
        source: Some(discussion_source(item.forum.deep_view())),
        score: item.score,
        html_snippet: None,
        date_published: item.date.deep_view(),
        images: None,
        content_chunks: None,
    }
}

/// The result that a news article becomes.
pub open spec fn news_result<F>(item: BraveNewsResult) -> SpecSearchResult<F> {
    SpecSearchResult {
        title: item.title@,
        url: item.url@,
        snippet: item.description@,
        display_url: display_url(item.meta_url),
        source: Some("Brave News"@),
        score: None,
        html_snippet: None,
        date_published: item.date.deep_view(),
        images: thumbnail_images(item.thumbnail),
        content_chunks: None,
    }
}

/// The results of the web section, in order.
pub open spec fn web_results<F>(resp: BraveSearchResponse<F>) -> Seq<SpecSearchResult<F>> {
    match resp.web {
        Some(w) => w.results@.map_values(|i: BraveWebResult| web_result::<F>(i)),
        None => Seq::empty(),
    }
}

/// The results of the discussions section, in order.
pub open spec fn discussion_results<F>(resp: BraveSearchResponse<F>) -> Seq<SpecSearchResult<F>> {
    match resp.discussions {
        Some(d) => d.results@.map_values(|i: BraveDiscussionResult<F>| discussion_result::<F>(i)),
        None => Seq::empty(),
    }
}

/// The results of the news section, in order.
pub open spec fn news_results<F>(resp: BraveSearchResponse<F>) -> Seq<SpecSearchResult<F>> {
    match resp.news {
        Some(n) => n.results@.map_values(|i: BraveNewsResult| news_result::<F>(i)),
        None => Seq::empty(),
    }
}

/// The results of a response: web results, then discussions, then news.
pub open spec fn response_results<F>(resp: BraveSearchResponse<F>) -> Seq<SpecSearchResult<F>> {
    web_results(resp) + discussion_results(resp) + news_results(resp)
}

/// The metadata of a response for `query`: the safe search level and the
/// country that Brave applied, and the token `more` when Brave reports that
/// more results are available.
pub open spec fn is_response_metadata<F>(m: SearchMetadata<F>, resp: BraveSearchResponse<F>, query: Seq<char>) -> bool {
    &&& m.query@ == query
    &&& m.total_results is None
    &&& m.search_time_ms is None
    &&& m.safe_search == match resp.query {
        Some(q) => match q.safesearch {
            Some(on) => Some(if on { SafeSearchLevel::Medium } else { SafeSearchLevel::Off }),
            None => None,
        },
        None => None,
    }
    &&& m.language is None
    &&& m.region.deep_view() == match resp.query {
        Some(q) => q.country.deep_view(),
        None => None,
    }
    &&& m.next_page_token.deep_view() == match resp.query {
        Some(q) => if q.more_results_available == Some(true) { Some("more"@) } else { None },
        None => None,
    }
    &&& m.rate_limits is None
}

fn display_url_text(meta: &Option<BraveMetaUrl>) -> (r: Option<String>)
    ensures
        r.deep_view() == display_url(*meta),
{
    match meta {
        Some(m) => Some(enclosed(m.scheme.as_str(), "://", m.netloc.as_str())),
        None => None,
    }
}

fn thumbnail_image_list(thumbnail: &Option<BraveThumbnail>) -> (r: Option<Vec<ImageResult>>)
    ensures
        crate::types::images_view(r) == thumbnail_images(*thumbnail),
{
    match thumbnail {
        Some(t) => {
            let mut v: Vec<ImageResult> = Vec::new();
            v.push(ImageResult { url: t.src.clone(), description: None });
            assert(crate::types::images_view(Some(v)) =~= thumbnail_images(*thumbnail));
            Some(v)
        },
        None => None,
    }
}

fn web_to_result<F>(item: &BraveWebResult) -> (r: SearchResult<F>)
    ensures
        r@ == web_result::<F>(*item),
{
    SearchResult {
        title: item.title.clone(),
        url: item.url.clone(),
        snippet: item.description.clone(),
        display_url: display_url_text(&item.meta_url),
        source: Some(String::from_str("Brave")),
        score: None,
        html_snippet: None,
        date_published: clone_optional_text(&item.date),
        images: thumbnail_image_list(&item.thumbnail),
        content_chunks: clone_optional_texts(&item.extra_snippets),
    }
}

fn discussion_to_result<F: Copy>(item: &BraveDiscussionResult<F>) -> (r: SearchResult<F>)
    ensures
        r@ == discussion_result::<F>(*item),
{
    let forum = match &item.forum {
        Some(f) => f.as_str(),
        None => "Unknown",
    };
    SearchResult {
        title: item.title.clone(),
        url: item.url.clone(),
        snippet: item.description.clone(),
        display_url: None,
        source: Some(enclosed("Brave Discussion (", forum, ")")),
        score: item.score,
        html_snippet: None,
        date_published: clone_optional_text(&item.date),
        images: None,
        content_chunks: None,
    }
}

fn news_to_result<F>(item: &BraveNewsResult) -> (r: SearchResult<F>)
    ensures
        r@ == news_result::<F>(*item),
{
    SearchResult {
        title: item.title.clone(),
        url: item.url.clone(),
        snippet: item.description.clone(),
        display_url: display_url_text(&item.meta_url),
        source: Some(String::from_str("Brave News")),
        score: None,
        html_snippet: None,
        date_published: clone_optional_text(&item.date),
        images: thumbnail_image_list(&item.thumbnail),
        content_chunks: None,
    }
}

impl<F: Copy> BraveSearchResponse<F> {
    /// The results of the response: its web results, then its
    /// discussions, then its news, each in order.
    pub fn to_search_results(&self) -> (r: Vec<SearchResult<F>>)
        ensures
            results_view(r@) == response_results(*self),
    {
        let mut r: Vec<SearchResult<F>> = Vec::new();
        if let Some(web) = &self.web {
            let mut i: usize = 0;
            while i < web.results.len()
                invariant
                    i <= web.results.len(),
                    results_view(r@) == web.results@.take(i as int).map_values(
                        |x: BraveWebResult| web_result::<F>(x),
                    ),
                decreases web.results.len() - i,
            {
                let ghost before = r@;
                r.push(web_to_result(&web.results[i]));
                assert(results_view(r@) =~= results_view(before).push(web_result::<F>(web.results@[i as int])));
                assert(web.results@.take(i + 1) =~= web.results@.take(i as int).push(web.results@[i as int]));
                i += 1;
            }
            assert(web.results@.take(i as int) =~= web.results@);
        }
        assert(results_view(r@) =~= web_results(*self));
        let ghost after_web = results_view(r@);
        if let Some(discussions) = &self.discussions {
            let mut i: usize = 0;
            while i < discussions.results.len()
                invariant
                    i <= discussions.results.len(),
                    results_view(r@) == after_web + discussions.results@.take(i as int).map_values(
                        |x: BraveDiscussionResult<F>| discussion_result::<F>(x),
                    ),
                decreases discussions.results.len() - i,
            {
                let ghost before = r@;
                r.push(discussion_to_result(&discussions.results[i]));
                assert(results_view(r@) =~= results_view(before).push(
                    discussion_result::<F>(discussions.results@[i as int]),
                ));
                assert(discussions.results@.take(i + 1) =~= discussions.results@.take(i as int).push(
                    discussions.results@[i as int],
                ));
                i += 1;
            }
            assert(discussions.results@.take(i as int) =~= discussions.results@);
        }
        assert(results_view(r@) =~= web_results(*self) + discussion_results(*self));
        let ghost after_discussions = results_view(r@);
        if let Some(news) = &self.news {
            let mut i: usize = 0;
            while i < news.results.len()
                invariant
                    i <= news.results.len(),
                    results_view(r@) == after_discussions + news.results@.take(i as int).map_values(
                        |x: BraveNewsResult| news_result::<F>(x),
                    ),
                decreases news.results.len() - i,
            {
                let ghost before = r@;
                r.push(news_to_result(&news.results[i]));
                assert(results_view(r@) =~= results_view(before).push(news_result::<F>(news.results@[i as int])));
                assert(news.results@.take(i + 1) =~= news.results@.take(i as int).push(news.results@[i as int]));
                i += 1;
            }
            assert(news.results@.take(i as int) =~= news.results@);
        }
        assert(results_view(r@) =~= response_results(*self));
        r
    }

    /// The metadata of the response for `query`.
    pub fn to_search_metadata(&self, query: String) -> (r: SearchMetadata<F>)
        ensures
            is_response_metadata(r, *self, query@),
    {
        let (safe_search, region, next_page_token) = match &self.query {
            Some(q) => {
                let safe = match q.safesearch {
                    Some(on) => Some(if on { SafeSearchLevel::Medium } else { SafeSearchLevel::Off }),
                    None => None,
                };
                let token = if q.more_results_available == Some(true) {
                    Some(String::from_str("more"))
                } else {
                    None
                };
                (safe, clone_optional_text(&q.country), token)
            },
            None => (None, None, None),
        };
        SearchMetadata {
            query,
            total_results: None,
            search_time_ms: None,
            safe_search,
            language: None,
            region,
            next_page_token,
            rate_limits: None,
        }
    }
}

/// A Brave search session: the client, the parameters, the offset of the
/// next page, the page size, and whether the session is finished.
pub struct BraveWebSearchSession {
    pub api: BraveSearchApi,
    pub params: SearchParams,
    pub current_offset: u32,
    pub page_size: u32,
    pub finished: bool,
}

/// The page size of a Brave session: the requested maximum, by default 20,
/// and never more than Brave's limit of 20.
pub open spec fn page_size(max_results: Option<u32>) -> u32 {
    match max_results {
        Some(m) => if m < 20 { m } else { 20 },
        None => 20,
    }
}

impl BraveWebSearchSession {
    /// A session from offset 0; it cannot fail.
    pub fn new(api: BraveSearchApi, params: SearchParams) -> (r: Result<Self, SearchError>)
        ensures
            r matches Ok(s) && s.page_size == page_size(params.max_results) && s.api == api && s.params == params
                && s.current_offset == 0 && !s.finished,
    {
        let page_size = match params.max_results {
            Some(m) => if m < 20 { m } else { 20 },
            None => 20,
        };
        Ok(BraveWebSearchSession { api, params, current_offset: 0, page_size, finished: false })
    }

    /// The query parameters of the page that starts at `offset`.
    pub fn page_query_pairs(&self, offset: u32) -> (r: Vec<(String, String)>)
        ensures
            r.deep_view() == query_pairs(self.params@, Some(self.page_size), Some(offset)),
    {
        self.api.query_pairs(&self.params, Some(self.page_size), Some(offset))
    }
}

/// The largest `max_results` that a Brave search accepts.
pub const MAX_RESULTS: u32 = 100;

/// What Brave rejects before any request is made: a blank query, and a
/// maximum of results outside 1 to 100.
pub open spec fn validation_error(p: SpecSearchParams) -> Option<SpecSearchError> {
    if is_blank(p.query) {
        Some(SpecSearchError::InvalidQuery)
    } else if p.max_results matches Some(m) && (m == 0 || m > 100) {
        Some(SpecSearchError::InvalidQuery)
    } else {
        None
    }
}

/// The Brave provider's component.
pub struct BraveComponent;

impl BraveComponent {
    /// Rejects a blank query and a maximum of results outside 1 to 100.
    /// Domain filters are accepted and ignored by Brave.
    pub fn validate_params(params: &SearchParams) -> (r: Result<(), SearchError>)
        ensures
            match validation_error(params@) {
                Some(e) => r matches Err(err) && err@ == e,
                None => r is Ok,
            },
    {
        if is_blank_text(params.query.as_str()) {
            return Err(create_invalid_query_error());
        }
        if let Some(m) = params.max_results {
            if m == 0 || m > MAX_RESULTS {
                return Err(create_invalid_query_error());
            }
        }
        Ok(())
    }
}

} // verus!
