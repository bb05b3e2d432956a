//! What each provider's results are, field by field, in terms of the
//! response they come from: one result per item, in the response's order.

use vstd::prelude::*;
use crate::{bing, brave, google, serper, tavily};
use crate::types::SpecImageResult;

verus! {

/// Google gives one result per item, in the items' order: the item's title,
/// link, plain snippet, display link and HTML snippet, from source `Google`,
/// with no score, date, images or content chunks.
pub proof fn law_google_results_follow_items<F>(resp: google::GoogleSearchResponse<F>)
    ensures
        resp.items is None ==> google::response_results(resp).len() == 0,
        resp.items matches Some(items) ==> {
            &&& google::response_results(resp).len() == items.len()
            &&& forall|i: int| 0 <= i < items.len() ==> {
                let r = #[trigger] google::response_results(resp)[i];
                let item = items@[i];
                &&& r.title == item.title@
                &&& r.url == item.link@
                &&& r.snippet == item.snippet@
                &&& r.display_url == Some(item.display_link@)
                &&& r.source == Some("Google"@)
                &&& r.score is None
                &&& r.html_snippet == Some(item.html_snippet@)
                &&& r.date_published is None
                &&& r.images is None
                &&& r.content_chunks is None
            }
        },
{
}

/// Bing gives one result per web page, in the pages' order: the page's
/// name as title, its URL, snippet, display URL and crawl date, from source
/// `Bing`, with nothing else.
pub proof fn law_bing_results_follow_pages<F>(resp: bing::BingSearchResponse)
    ensures
        resp.web_pages is None ==> bing::response_results::<F>(resp).len() == 0,
        resp.web_pages matches Some(pages) ==> {
            &&& bing::response_results::<F>(resp).len() == pages.value.len()
            &&& forall|i: int| 0 <= i < pages.value.len() ==> {
                let r = #[trigger] bing::response_results::<F>(resp)[i];
                let page = pages.value@[i];
                &&& r.title == page.name@
                &&& r.url == page.url@
                &&& r.snippet == page.snippet@
                &&& r.display_url == page.display_url.deep_view()
                &&& r.source == Some("Bing"@)
                &&& r.score is None
                &&& r.html_snippet is None
                &&& r.date_published == page.date_last_crawled.deep_view()
                &&& r.images is None
                &&& r.content_chunks is None
            }
        },
{
}

/// The number of web results of a Brave response.
pub open spec fn brave_web_count<F>(resp: brave::BraveSearchResponse<F>) -> int {
    match resp.web {
        Some(w) => w.results.len() as int,
        None => 0,
    }
}

/// The number of discussions of a Brave response.
pub open spec fn brave_discussion_count<F>(resp: brave::BraveSearchResponse<F>) -> int {
    match resp.discussions {
        Some(d) => d.results.len() as int,
        None => 0,
    }
}

/// The number of news articles of a Brave response.
pub open spec fn brave_news_count<F>(resp: brave::BraveSearchResponse<F>) -> int {
    match resp.news {
        Some(n) => n.results.len() as int,
        None => 0,
    }
}

/// Brave gives its web results first, in Brave's order, then its
/// discussions, then its news; nothing else of the response becomes a
/// result. The `i`-th web result keeps the title, URL, description as
/// snippet, date and extra snippets of the `i`-th web item, shows
/// `scheme://netloc` of its URL and its thumbnail as its only image.
pub proof fn law_brave_results_keep_sections_in_order<F>(resp: brave::BraveSearchResponse<F>)
    ensures
        brave::response_results(resp).len() == brave_web_count(resp) + brave_discussion_count(resp)
            + brave_news_count(resp),
        resp.web matches Some(w) ==> forall|i: int| 0 <= i < w.results.len() ==> {
            let r = #[trigger] brave::response_results(resp)[i];
            let item = w.results@[i];
            &&& r.title == item.title@
            &&& r.url == item.url@
            &&& r.snippet == item.description@
            &&& r.source == Some("Brave"@)
            &&& r.score is None
            &&& r.html_snippet is None
            &&& r.date_published == item.date.deep_view()
            &&& r.content_chunks == item.extra_snippets.deep_view()
            &&& r.display_url == match item.meta_url {
                Some(m) => Some(m.scheme@ + "://"@ + m.netloc@),
                None => None,
            }
            &&& r.images == match item.thumbnail {
                Some(t) => Some(seq![SpecImageResult { url: t.src@, description: None }]),
                None => None,
            }
        },
        resp.discussions matches Some(d) ==> forall|j: int| 0 <= j < d.results.len() ==> {
            let r = #[trigger] brave::response_results(resp)[brave_web_count(resp) + j];
            let item = d.results@[j];
            &&& r.title == item.title@
            &&& r.url == item.url@
            &&& r.snippet == item.description@
            &&& r.source == Some(
                "Brave Discussion ("@ + match item.forum {
                    Some(f) => f@,
                    None => "Unknown"@,
                } + ")"@,
            )
            &&& r.score == item.score
            &&& r.display_url is None
            &&& r.date_published == item.date.deep_view()
            &&& r.images is None
            &&& r.content_chunks is None
        },
        resp.news matches Some(n) ==> forall|k: int| 0 <= k < n.results.len() ==> {
            let r = #[trigger] brave::response_results(resp)[brave_web_count(resp) + brave_discussion_count(resp) + k];
            let item = n.results@[k];
            &&& r.title == item.title@
            &&& r.url == item.url@
            &&& r.snippet == item.description@
            &&& r.source == Some("Brave News"@)
            &&& r.score is None
            &&& r.date_published == item.date.deep_view()
            &&& r.display_url == match item.meta_url {
                Some(m) => Some(m.scheme@ + "://"@ + m.netloc@),
                None => None,
            }
            &&& r.images == match item.thumbnail {
                Some(t) => Some(seq![SpecImageResult { url: t.src@, description: None }]),
                None => None,
            }
            &&& r.content_chunks is None
        },
{
    let web = brave::web_results(resp);
    let disc = brave::discussion_results(resp);
    let news = brave::news_results(resp);
    assert(brave::response_results(resp) == web + disc + news);
    if let Some(d) = resp.discussions {
        assert forall|j: int| 0 <= j < d.results.len() implies #[trigger] brave::response_results(resp)[
            brave_web_count(resp) + j] == disc[j] by {}
    }
    if let Some(n) = resp.news {
        assert forall|k: int| 0 <= k < n.results.len() implies #[trigger] brave::response_results(resp)[
            brave_web_count(resp) + brave_discussion_count(resp) + k] == news[k] by {}
    }
}

/// Serper's `i`-th result is its `i`-th organic result: title, link, plain
/// snippet, display link and date, from source `Serper`, scored by its
/// position when it has one.
pub proof fn law_serper_results_follow_organic<F, R: Fn(u32) -> F>(
    r: crate::types::SpecSearchResult<F>,
    item: serper::SerperOrganicResult,
    rank_score: R,
)
    requires
        serper::is_organic_result(r, item, rank_score),
    ensures
        r.title == item.title@,
        r.url == item.link@,
        r.snippet == item.snippet@,
        r.display_url == item.display_link.deep_view(),
        r.source == Some("Serper"@),
        item.position is None ==> r.score is None,
        item.position matches Some(p) ==> r.score matches Some(s) && call_ensures(rank_score, (p,), s),
        r.html_snippet is None,
        r.date_published == item.date.deep_view(),
        r.images is None,
        r.content_chunks is None,
{
}

/// Tavily gives one result per item, in order: the item's title, URL (also
/// shown as display URL), content as snippet, score, raw content as HTML
/// snippet and publication date, from source `Tavily`; every result carries
/// all images of the response, each without a description.
pub proof fn law_tavily_results_follow_items<F>(resp: tavily::TavilySearchResponse<F>)
    ensures
        tavily::response_results(resp).len() == resp.results.len(),
        forall|i: int| 0 <= i < resp.results.len() ==> {
            let r = #[trigger] tavily::response_results(resp)[i];
            let item = resp.results@[i];
            &&& r.title == item.title@
            &&& r.url == item.url@
            &&& r.snippet == item.content@
            &&& r.display_url == Some(item.url@)
            &&& r.source == Some("Tavily"@)
            &&& r.score == Some(item.score)
            &&& r.html_snippet == item.raw_content.deep_view()
            &&& r.date_published == item.published_date.deep_view()
            &&& r.content_chunks is None
            &&& (resp.images is None ==> r.images is None)
            &&& (resp.images matches Some(urls) ==> r.images matches Some(imgs) && imgs.len() == urls.len()
                && forall|k: int| 0 <= k < urls.len() ==> imgs[k] == (SpecImageResult {
                    url: urls@[k]@,
                    description: None,
                }))
        },
{
}


/// Google's metadata repeats the query, reads the total number of results
/// from its decimal text, takes the search time from the reported seconds,
/// and hands out as next-page token the decimal start index of the first
/// next-page query; it states no safe search level, language, region or
/// rate limits.
pub proof fn law_google_metadata<F, M: Fn(F) -> F>(
    m: crate::types::SearchMetadata<F>,
    resp: google::GoogleSearchResponse<F>,
    query: Seq<char>,
    to_millis: M,
)
    requires
        google::is_response_metadata(m, resp, query, to_millis),
    ensures
        m.query@ == query,
        resp.search_information is None ==> m.total_results is None && m.search_time_ms is None,
        resp.search_information matches Some(info) ==> m.total_results == crate::numbers::parse_u64(
            info.total_results@,
        ) && (m.search_time_ms matches Some(t) && call_ensures(to_millis, (info.search_time,), t)),
        resp.queries matches Some(q) ==> (q.next_page matches Some(next) ==> (next.len() > 0 ==> (
        next[0].start_index matches Some(s) ==> m.next_page_token.deep_view() == Some(crate::numbers::decimal(s as nat))))),
        (resp.queries is None || resp.queries.unwrap().next_page is None) ==> m.next_page_token is None,
        m.safe_search is None,
        m.language is None,
        m.region is None,
        m.rate_limits is None,
{
}

/// Brave's metadata repeats the query; it reports safe search as `Medium`
/// when Brave applied it and `Off` when it did not, the country Brave
/// searched, and the token `more` exactly when Brave says more results are
/// available; it has no totals, timing or language.
pub proof fn law_brave_metadata<F>(m: crate::types::SearchMetadata<F>, resp: brave::BraveSearchResponse<F>, query: Seq<char>)
    requires
        brave::is_response_metadata(m, resp, query),
    ensures
        m.query@ == query,
        m.total_results is None,
        m.search_time_ms is None,
        m.language is None,
        m.rate_limits is None,
        resp.query is None ==> m.safe_search is None && m.region is None && m.next_page_token is None,
        resp.query matches Some(q) ==> {
            &&& q.safesearch == Some(true) ==> m.safe_search == Some(crate::types::SafeSearchLevel::Medium)
            &&& q.safesearch == Some(false) ==> m.safe_search == Some(crate::types::SafeSearchLevel::Off)
            &&& q.safesearch is None ==> m.safe_search is None
            &&& m.region.deep_view() == q.country.deep_view()
            &&& q.more_results_available == Some(true) ==> m.next_page_token.deep_view() == Some("more"@)
            &&& q.more_results_available != Some(true) ==> m.next_page_token is None
        },
{
}

/// Serper's metadata repeats the query, reads the total from its decimal
/// text, takes the time from the reported seconds, and reports the language
/// and region Serper applied; it hands out no next-page token.
pub proof fn law_serper_metadata<F, M: Fn(F) -> F>(
    m: crate::types::SearchMetadata<F>,
    resp: serper::SerperSearchResponse<F>,
    query: Seq<char>,
    to_millis: M,
)
    requires
        serper::is_response_metadata(m, resp, query, to_millis),
    ensures
        m.query@ == query,
        resp.search_information matches Some(info) ==> (info.total_results matches Some(t)
            ==> m.total_results == crate::numbers::parse_u64(t@)),
        (resp.search_information is None || resp.search_information.unwrap().total_results is None)
            ==> m.total_results is None,
        resp.search_information matches Some(info) ==> (info.time_taken matches Some(t) ==> (
        m.search_time_ms matches Some(ms) && call_ensures(to_millis, (t,), ms))),
        resp.search_parameters matches Some(sp) ==> m.language.deep_view() == sp.hl.deep_view() && m.region.deep_view() == sp.gl.deep_view(),
        resp.search_parameters is None ==> m.language is None && m.region is None,
        m.safe_search is None,
        m.next_page_token is None,
        m.rate_limits is None,
{
}

} // verus!
