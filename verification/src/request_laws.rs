//! What each provider is asked, parameter by parameter, in terms of the
//! search parameters: the literal values that each setting is sent as.

use vstd::prelude::*;
use crate::{bing, brave, google, serper, tavily};
use crate::numbers::decimal;
use crate::request::SpecPairs;
use crate::types::{SafeSearchLevel, SearchParams, SpecSearchParams, TimeRange};

verus! {

/// The query parameter `name=value` is among `pairs`.
pub open spec fn has_pair(pairs: SpecPairs, name: Seq<char>, value: Seq<char>) -> bool {
    exists|i: int| 0 <= i < pairs.len() && pairs[i] == (name, value)
}

/// 1 for a value that is there, 0 for none.
pub open spec fn present<T>(o: Option<T>) -> int {
    if o is Some {
        1
    } else {
        0
    }
}

/// A Google request carries the key, the engine id and the query first; the
/// query is followed by `(site:a OR site:b ...)` for the domains to include;
/// the start position, the maximum capped at 10, the language as `lang_..`,
/// the region and the safe search level follow; and a time range is sent
/// last as a date sort over its window in seconds: a day is 86400, a week
/// 604800, a month (30 days) 2592000 and a year (365 days) 31536000.
pub proof fn law_google_request_parameters(k: Seq<char>, cx: Seq<char>, p: SpecSearchParams, start: Option<u32>)
    ensures
        ({
            let pairs = google::query_pairs(k, cx, p, start);
            &&& pairs[0] == ("key"@, k)
            &&& pairs[1] == ("cx"@, cx)
            &&& (p.include_domains is None || p.include_domains.unwrap().len() == 0) ==> pairs[2] == ("q"@, p.query)
            &&& (p.include_domains matches Some(d) && d.len() == 1) ==> pairs[2] == (
                "q"@,
                p.query + " (site:"@ + p.include_domains.unwrap()[0] + ")"@,
            )
            &&& (p.include_domains matches Some(d) && d.len() == 2) ==> pairs[2] == (
                "q"@,
                p.query + " (site:"@ + p.include_domains.unwrap()[0] + " OR site:"@ + p.include_domains.unwrap()[1]
                    + ")"@,
            )
            &&& start matches Some(s) ==> pairs[3] == ("start"@, decimal(s as nat))
            &&& p.max_results matches Some(m) ==> has_pair(pairs, "num"@, decimal(if m < 10 { m as nat } else { 10 }))
            &&& p.language matches Some(l) ==> has_pair(pairs, "lr"@, "lang_"@ + l)
            &&& p.region matches Some(g) ==> has_pair(pairs, "gl"@, g)
            &&& p.safe_search == Some(SafeSearchLevel::Off) ==> has_pair(pairs, "safe"@, "off"@)
            &&& p.safe_search == Some(SafeSearchLevel::Medium) ==> has_pair(pairs, "safe"@, "medium"@)
            &&& p.safe_search == Some(SafeSearchLevel::High) ==> has_pair(pairs, "safe"@, "high"@)
            &&& p.time_range == Some(TimeRange::Day) ==> pairs.last() == ("sort"@, "date:r:86400"@)
            &&& p.time_range == Some(TimeRange::Week) ==> pairs.last() == ("sort"@, "date:r:604800"@)
            &&& p.time_range == Some(TimeRange::Month) ==> pairs.last() == ("sort"@, "date:r:2592000"@)
            &&& p.time_range == Some(TimeRange::Year) ==> pairs.last() == ("sort"@, "date:r:31536000"@)
            &&& p.time_range is None ==> pairs.len() == 3 + present(start) + present(p.max_results) + present(
                p.language,
            ) + present(p.region) + present(p.safe_search)
        }),
{
    let pairs = google::query_pairs(k, cx, p, start);
    let i_num = 3 + present(start);
    let i_lr = i_num + present(p.max_results);
    let i_gl = i_lr + present(p.language);
    let i_safe = i_gl + present(p.region);
    if let Some(d) = p.include_domains {
        reveal_strlit(" (");
        reveal_strlit("site:");
        reveal_strlit(" (site:");
        reveal_strlit(" OR ");
        reveal_strlit(" OR site:");
        let sites = d.map_values(|x: Seq<char>| "site:"@ + x);
        if d.len() == 1 {
            assert(crate::text::join(sites, " OR "@) == sites[0]);
            assert(p.query + " ("@ + sites[0] + ")"@ =~= p.query + " (site:"@ + d[0] + ")"@);
        }
        if d.len() == 2 {
            assert(sites.drop_last().len() == 1);
            assert(crate::text::join(sites.drop_last(), " OR "@) == sites[0]);
            assert(crate::text::join(sites, " OR "@) == sites[0] + " OR "@ + sites[1]);
            assert(p.query + " ("@ + (sites[0] + " OR "@ + sites[1]) + ")"@ =~= p.query + " (site:"@ + d[0]
                + " OR site:"@ + d[1] + ")"@);
        }
    }
    if p.max_results is Some {
        assert(pairs[i_num] == ("num"@, google::num_value(p.max_results).unwrap()));
    }
    if let Some(l) = p.language {
        assert(pairs[i_lr] == ("lr"@, "lang_"@ + l));
    }
    if let Some(g) = p.region {
        assert(pairs[i_gl] == ("gl"@, g));
    }
    if let Some(s) = p.safe_search {
        assert(pairs[i_safe] == ("safe"@, google::safe_value(s)));
    }
}

/// A Bing request carries the query first, then the offset, the maximum
/// capped at 50, the language as market, the region as country code, and
/// last the safe search level as `Off`, `Moderate` or `Strict`.
pub proof fn law_bing_request_parameters(p: SpecSearchParams, offset: Option<u32>)
    ensures
        ({
            let pairs = bing::query_pairs(p, offset);
            &&& pairs[0] == ("q"@, p.query)
            &&& offset matches Some(o) ==> pairs[1] == ("offset"@, decimal(o as nat))
            &&& p.max_results matches Some(m) ==> has_pair(pairs, "count"@, decimal(if m < 50 { m as nat } else { 50 }))
            &&& p.language matches Some(l) ==> has_pair(pairs, "mkt"@, l)
            &&& p.region matches Some(g) ==> has_pair(pairs, "cc"@, g)
            &&& p.safe_search == Some(SafeSearchLevel::Off) ==> pairs.last() == ("safeSearch"@, "Off"@)
            &&& p.safe_search == Some(SafeSearchLevel::Medium) ==> pairs.last() == ("safeSearch"@, "Moderate"@)
            &&& p.safe_search == Some(SafeSearchLevel::High) ==> pairs.last() == ("safeSearch"@, "Strict"@)
            &&& pairs.len() == 1 + present(offset) + present(p.max_results) + present(p.language) + present(p.region)
                + present(p.safe_search)
        }),
{
    let pairs = bing::query_pairs(p, offset);
    let i_count = 1 + present(offset);
    let i_mkt = i_count + present(p.max_results);
    let i_cc = i_mkt + present(p.language);
    if p.max_results is Some {
        assert(pairs[i_count] == ("count"@, bing::count_value(p.max_results).unwrap()));
    }
    if let Some(l) = p.language {
        assert(pairs[i_mkt] == ("mkt"@, l));
    }
    if let Some(g) = p.region {
        assert(pairs[i_cc] == ("cc"@, g));
    }
}

/// A Brave request carries the query first, then the count (the one asked
/// for, else the parameters' maximum), the offset, the region as country,
/// the language, the safe search level as `off`, `moderate` or `strict`, the
/// time range as freshness `pd`, `pw`, `pm` or `py`, and last text
/// decorations and spell checking, both on.
pub proof fn law_brave_request_parameters(p: SpecSearchParams, count: Option<u32>, offset: Option<u32>)
    ensures
        ({
            let pairs = brave::query_pairs(p, count, offset);
            let n = pairs.len();
            &&& pairs[0] == ("q"@, p.query)
            &&& count matches Some(c) ==> pairs[1] == ("count"@, decimal(c as nat))
            &&& count is None ==> (p.max_results matches Some(m) ==> pairs[1] == ("count"@, decimal(m as nat)))
            &&& offset matches Some(o) ==> has_pair(pairs, "offset"@, decimal(o as nat))
            &&& p.region matches Some(g) ==> has_pair(pairs, "country"@, g)
            &&& p.language matches Some(l) ==> has_pair(pairs, "search_lang"@, l)
            &&& p.safe_search == Some(SafeSearchLevel::Off) ==> has_pair(pairs, "safesearch"@, "off"@)
            &&& p.safe_search == Some(SafeSearchLevel::Medium) ==> has_pair(pairs, "safesearch"@, "moderate"@)
            &&& p.safe_search == Some(SafeSearchLevel::High) ==> has_pair(pairs, "safesearch"@, "strict"@)
            &&& p.time_range == Some(TimeRange::Day) ==> pairs[n - 3] == ("freshness"@, "pd"@)
            &&& p.time_range == Some(TimeRange::Week) ==> pairs[n - 3] == ("freshness"@, "pw"@)
            &&& p.time_range == Some(TimeRange::Month) ==> pairs[n - 3] == ("freshness"@, "pm"@)
            &&& p.time_range == Some(TimeRange::Year) ==> pairs[n - 3] == ("freshness"@, "py"@)
            &&& pairs[n - 2] == ("text_decorations"@, "true"@)
            &&& pairs[n - 1] == ("spellcheck"@, "true"@)
        }),
{
    let pairs = brave::query_pairs(p, count, offset);
    let wanted = match count {
        Some(c) => Some(c),
        None => p.max_results,
    };
    let i_offset = 1 + present(wanted);
    let i_country = i_offset + present(offset);
    let i_lang = i_country + present(p.region);
    let i_safe = i_lang + present(p.language);
    if let Some(o) = offset {
        assert(pairs[i_offset] == ("offset"@, decimal(o as nat)));
    }
    if let Some(g) = p.region {
        assert(pairs[i_country] == ("country"@, g));
    }
    if let Some(l) = p.language {
        assert(pairs[i_lang] == ("search_lang"@, l));
    }
    if let Some(s) = p.safe_search {
        assert(pairs[i_safe] == ("safesearch"@, brave::safe_value(s)));
    }
}

/// A Serper body asks for the query, the region and the language as given;
/// for safe search it sends `off` when off and `active` otherwise; a time
/// range becomes `qdr:d`, `qdr:w`, `qdr:m` or `qdr:y`; it asks for the first
/// page from position 0 when no position is given, with autocorrection, as a
/// Google web search.
pub proof fn law_serper_request_fields(
    r: serper::SerperSearchRequest,
    params: SearchParams,
    num: Option<u32>,
    start: Option<u32>,
)
    requires
        serper::is_search_request(r, params, num, start),
    ensures
        r.q@ == params.query@,
        r.gl == params.region,
        r.hl == params.language,
        num matches Some(n) ==> r.num == Some(n),
        (num is None && params.max_results is None) ==> r.num == Some(10u32),
        start is None ==> r.start == Some(0u32) && r.page == Some(1u32),
        params.safe_search == Some(SafeSearchLevel::Off) ==> r.safe.deep_view() == Some("off"@),
        params.safe_search == Some(SafeSearchLevel::Medium) ==> r.safe.deep_view() == Some("active"@),
        params.safe_search == Some(SafeSearchLevel::High) ==> r.safe.deep_view() == Some("active"@),
        params.safe_search is None ==> r.safe is None,
        params.time_range == Some(TimeRange::Day) ==> r.tbs.deep_view() == Some("qdr:d"@),
        params.time_range == Some(TimeRange::Week) ==> r.tbs.deep_view() == Some("qdr:w"@),
        params.time_range == Some(TimeRange::Month) ==> r.tbs.deep_view() == Some("qdr:m"@),
        params.time_range == Some(TimeRange::Year) ==> r.tbs.deep_view() == Some("qdr:y"@),
        params.time_range is None ==> r.tbs is None,
        r.autocorrect == Some(true),
        r.type_.deep_view() == Some("search"@),
        r.engine.deep_view() == Some("google"@),
{
}

/// A Tavily body asks for the query with the `basic` search depth and at
/// most 20 results; it sets the raw content, images and answer flags, to
/// `true`, exactly when the parameters ask for HTML, images and the advanced
/// answer; and it sends a time range as `day`, `week`, `month` or `year`.
pub proof fn law_tavily_request_fields(r: tavily::TavilySearchRequest, params: SearchParams, max_results: Option<u32>)
    requires
        tavily::is_search_request(r, params, max_results),
    ensures
        r.query@ == params.query@,
        r.search_depth@ == "basic"@,
        r.max_results matches Some(m) ==> m <= 20,
        (max_results is None && params.max_results is None) ==> r.max_results is None,
        r.include_images == Some(true) <==> params.include_images == Some(true),
        r.include_images is None || r.include_images == Some(true),
        r.include_raw_content == Some(true) <==> params.include_html == Some(true),
        r.include_raw_content is None || r.include_raw_content == Some(true),
        r.include_answer == Some(true) <==> params.advanced_answer == Some(true),
        r.include_answer is None || r.include_answer == Some(true),
        r.country == params.region,
        params.time_range == Some(TimeRange::Day) ==> r.time_range.deep_view() == Some("day"@),
        params.time_range == Some(TimeRange::Week) ==> r.time_range.deep_view() == Some("week"@),
        params.time_range == Some(TimeRange::Month) ==> r.time_range.deep_view() == Some("month"@),
        params.time_range == Some(TimeRange::Year) ==> r.time_range.deep_view() == Some("year"@),
        params.time_range is None ==> r.time_range is None,
        (params.include_domains matches Some(d) && d.len() > 0) ==> r.include_domains.deep_view()
            == params@.include_domains,
        (params.exclude_domains matches Some(d) && d.len() > 0) ==> r.exclude_domains.deep_view()
            == params@.exclude_domains,
{
}

} // verus!
