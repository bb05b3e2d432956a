//! Properties of the library that relate several of its functions.

use vstd::prelude::*;
use crate::{bing, brave, google, serper, tavily};
use crate::text::is_blank;
use crate::types::{SpecSearchError, SpecSearchParams};
use crate::numbers::{all_ascii_digits, decimal, digit_char, digits_value, is_ascii_digit, parse_u64, unsigned_part};

verus! {

proof fn lemma_decimal_digits(n: nat)
    ensures
        decimal(n).len() > 0,
        all_ascii_digits(decimal(n)),
        digits_value(decimal(n)) == n,
    decreases n,
{
    if n < 10 {
        assert(decimal(n).drop_last() =~= Seq::<char>::empty());
        assert(is_ascii_digit(decimal(n)[0]));
        assert(digit_char(n) as int == n + 48);
        assert(decimal(n).last() == digit_char(n));
        assert(digits_value(Seq::<char>::empty()) == 0);
        assert(digits_value(decimal(n)) == n);
    } else {
        lemma_decimal_digits(n / 10);
        let d = decimal(n);
        assert(d.drop_last() =~= decimal(n / 10));
        assert forall|i: int| 0 <= i < d.len() implies is_ascii_digit(#[trigger] d[i]) by {
            if i < d.len() - 1 {
                assert(d[i] == decimal(n / 10)[i]);
            } else {
                assert(d[i] == digit_char(n % 10));
            }
        }
        assert(digit_char(n % 10) as int == n % 10 + 48);
        assert(d.last() == digit_char(n % 10));
        assert(digits_value(d) == digits_value(decimal(n / 10)) * 10 + n % 10);
        assert((n / 10) * 10 + n % 10 == n) by (nonlinear_arith);
        assert(digits_value(d) == n);
    }
}

/// Reading back the decimal text of a number gives the number:
/// `parse_u64_decimal` undoes `u64_to_decimal`.
pub proof fn law_decimal_round_trip(n: u64)
    ensures
        parse_u64(decimal(n as nat)) == Some(n),
{
    lemma_decimal_digits(n as nat);
    let d = decimal(n as nat);
    assert(is_ascii_digit(d[0]));
    assert(unsigned_part(d) == d);
}


/// The token that Google's metadata carries for the next page reads back
/// as the start index that Google offers for that page.
pub proof fn law_google_token_is_next_start<F>(resp: google::GoogleSearchResponse<F>)
    ensures
        google::next_page_token(resp) matches Some(t) ==> parse_u64(t) == Some(
            resp.queries.unwrap().next_page.unwrap()[0].start_index.unwrap() as u64,
        ),
{
    if let Some(q) = resp.queries {
        if let Some(next) = q.next_page {
            if next.len() > 0 {
                if let Some(start) = next[0].start_index {
                    law_decimal_round_trip(start as u64);
                }
            }
        }
    }
}

/// Google is never asked for more than 10 results at once: the `num`
/// parameter denotes the requested maximum, capped at 10.
pub proof fn law_google_asks_at_most_ten(max_results: Option<u32>)
    ensures
        max_results matches Some(m) ==> (google::num_value(max_results) matches Some(t) && parse_u64(t)
            matches Some(k) && k <= 10 && (k == m || (k == 10 && m > 10))),
{
    if let Some(m) = max_results {
        law_decimal_round_trip(if m < 10 { m as u64 } else { 10 });
    }
}

/// Bing is never asked for more than 50 results at once: the `count`
/// parameter denotes the requested maximum, capped at 50.
pub proof fn law_bing_asks_at_most_fifty(max_results: Option<u32>)
    ensures
        max_results matches Some(m) ==> (bing::count_value(max_results) matches Some(t) && parse_u64(t)
            matches Some(k) && k <= 50 && (k == m || (k == 50 && m > 50))),
{
    if let Some(m) = max_results {
        law_decimal_round_trip(if m < 50 { m as u64 } else { 50 });
    }
}

/// The pages of a Brave session never ask for more than 20 results: the
/// `count` parameter of every page denotes the session's page size, which is
/// the requested maximum (by default 20) capped at 20.
pub proof fn law_brave_pages_ask_at_most_twenty(p: SpecSearchParams, offset: u32)
    ensures
        ({
            let size = brave::page_size(p.max_results);
            &&& size <= 20
            &&& brave::query_pairs(p, Some(size), Some(offset))[1] == ("count"@, decimal(size as nat))
            &&& parse_u64(decimal(size as nat)) == Some(size as u64)
        }),
{
    let size = brave::page_size(p.max_results);
    law_decimal_round_trip(size as u64);
}

/// A query of nothing but white space is refused as invalid before any
/// request is made by every provider, whatever else the parameters ask for.
pub proof fn law_blank_query_is_invalid(p: SpecSearchParams)
    requires
        is_blank(p.query),
    ensures
        google::validation_error(p) == Some(SpecSearchError::InvalidQuery),
        bing::validation_error(p) == Some(SpecSearchError::InvalidQuery),
        tavily::validation_error(p) == Some(SpecSearchError::InvalidQuery),
        brave::validation_error(p) == Some(SpecSearchError::InvalidQuery),
        serper::validation_error(p) == Some(SpecSearchError::InvalidQuery),
{
}


/// HTTP statuses become errors as follows: 400 is an invalid query; 401 and
/// 403 are authentication failures; 429 asks to retry after 60 seconds;
/// 500 to 599 are server errors; any other status is reported with its code.
/// Every message ends with the provider's own message.
pub proof fn law_http_status_errors(status: u16, message: Seq<char>)
    ensures
        status == 400 ==> crate::error::status_error(status, message) == SpecSearchError::InvalidQuery,
        status == 401 || status == 403 ==> crate::error::status_error(status, message)
            == SpecSearchError::BackendError("Authentication failed: "@ + message),
        status == 429 ==> crate::error::status_error(status, message) == SpecSearchError::RateLimited(60),
        500 <= status <= 599 ==> crate::error::status_error(status, message) == SpecSearchError::BackendError(
            "Server error: "@ + message,
        ),
        !(status == 400 || status == 401 || status == 403 || status == 429 || 500 <= status <= 599)
            ==> crate::error::status_error(status, message) == SpecSearchError::BackendError(
            "HTTP error "@ + decimal(status as nat) + ": "@ + message,
        ),
{
}

/// Google refuses, in this order: a blank query; domains to exclude; the
/// advanced answer mode. Anything else, a time range and domains to include
/// among it, is accepted.
pub proof fn law_google_refusals(p: SpecSearchParams)
    ensures
        !is_blank(p.query) && (p.exclude_domains matches Some(d) && d.len() > 0) ==> google::validation_error(p)
            == Some(SpecSearchError::UnsupportedFeature("Domain exclusion not supported by Google Custom Search"@)),
        !is_blank(p.query) && (p.exclude_domains is None || p.exclude_domains.unwrap().len() == 0)
            && p.advanced_answer == Some(true) ==> google::validation_error(p) == Some(
            SpecSearchError::UnsupportedFeature("Advanced answer mode not supported by Google Custom Search"@),
        ),
        !is_blank(p.query) && (p.exclude_domains is None || p.exclude_domains.unwrap().len() == 0)
            && p.advanced_answer != Some(true) ==> google::validation_error(p) is None,
{
}

/// Bing refuses, in this order: a blank query; a time range; the advanced
/// answer mode; domains to include or exclude. Anything else is accepted.
pub proof fn law_bing_refusals(p: SpecSearchParams)
    ensures
        !is_blank(p.query) && p.time_range is Some ==> bing::validation_error(p) == Some(
            SpecSearchError::UnsupportedFeature("Time range filtering not supported by Bing Web Search"@),
        ),
        !is_blank(p.query) && p.time_range is None && p.advanced_answer == Some(true) ==> bing::validation_error(p)
            == Some(SpecSearchError::UnsupportedFeature("Advanced answer mode not supported by Bing Web Search"@)),
        !is_blank(p.query) && p.time_range is None && p.advanced_answer != Some(true) && (p.include_domains matches Some(
            d,
        ) && d.len() > 0) ==> bing::validation_error(p) == Some(
            SpecSearchError::UnsupportedFeature("Domain filtering not supported by Bing Web Search"@),
        ),
        !is_blank(p.query) && p.time_range is None && p.advanced_answer != Some(true) && (p.exclude_domains matches Some(
            d,
        ) && d.len() > 0) ==> bing::validation_error(p) == Some(
            SpecSearchError::UnsupportedFeature("Domain filtering not supported by Bing Web Search"@),
        ),
        !is_blank(p.query) && p.time_range is None && p.advanced_answer != Some(true) && (p.include_domains is None
            || p.include_domains.unwrap().len() == 0) && (p.exclude_domains is None
            || p.exclude_domains.unwrap().len() == 0) ==> bing::validation_error(p) is None,
{
}

/// Brave, Serper and Tavily refuse a maximum of 0 results or of more than
/// 100 as an invalid query, and accept every maximum from 1 to 100 for a
/// query they otherwise accept; Brave and Serper accept every query that is
/// not blank.
pub proof fn law_result_maximum_bounds(p: SpecSearchParams)
    ensures
        p.max_results matches Some(m) ==> (m == 0 || m > 100) ==> {
            &&& brave::validation_error(p) == Some(SpecSearchError::InvalidQuery)
            &&& serper::validation_error(p) == Some(SpecSearchError::InvalidQuery)
            &&& tavily::validation_error(p) == Some(SpecSearchError::InvalidQuery)
        },
        !is_blank(p.query) && (p.max_results is None || (1 <= p.max_results.unwrap() <= 100)) ==> {
            &&& brave::validation_error(p) is None
            &&& serper::validation_error(p) is None
        },
{
}

/// Tavily refuses a query whose trimmed text is shorter than two bytes or
/// whose text is longer than 400 bytes, and accepts any other query with an
/// acceptable maximum.
pub proof fn law_tavily_query_length(p: SpecSearchParams)
    ensures
        crate::text::trimmed_under_two_bytes(p.query) ==> tavily::validation_error(p) == Some(
            SpecSearchError::InvalidQuery,
        ),
        vstd::utf8::encode_utf8(p.query).len() > 400 ==> tavily::validation_error(p) == Some(
            SpecSearchError::InvalidQuery,
        ),
        !is_blank(p.query) && !crate::text::trimmed_under_two_bytes(p.query) && vstd::utf8::encode_utf8(p.query).len()
            <= 400 && (p.max_results is None || (1 <= p.max_results.unwrap() <= 100)) ==> tavily::validation_error(p)
            is None,
{
}


/// The decimal text of a number has no leading zero: it is `0` for zero and
/// starts with a digit from 1 to 9 otherwise, and holds only ASCII digits.
pub proof fn law_decimal_is_canonical(n: nat)
    ensures
        n == 0 ==> decimal(n) == seq!['0'],
        n > 0 ==> '1' <= decimal(n)[0] <= '9',
        all_ascii_digits(decimal(n)),
    decreases n,
{
    lemma_decimal_digits(n);
    if n >= 10 {
        law_decimal_is_canonical(n / 10);
        assert(decimal(n)[0] == decimal(n / 10)[0]);
    } else if n > 0 {
        assert(digit_char(n) as int == n + 48);
    } else {
        assert(digit_char(0) as int == 48);
    }
}

/// A text is read as a number only when it is one or more ASCII digits,
/// optionally after a single leading `+`, and its value fits in 64 bits; the
/// value is the digits read in base ten, most significant first.
pub proof fn law_parse_accepts_only_digits(s: Seq<char>)
    ensures
        parse_u64(s) matches Some(v) ==> {
            let d = if s.len() > 0 && s[0] == '+' { s.drop_first() } else { s };
            &&& d.len() > 0
            &&& forall|i: int| 0 <= i < d.len() ==> '0' <= #[trigger] d[i] <= '9'
            &&& v == digits_value(d)
            &&& d.len() == 1 ==> v == d[0] as int - 48
        },
        s.len() > 0 && s[0] == '-' ==> parse_u64(s) is None,
        s.len() == 0 ==> parse_u64(s) is None,
{
    if s.len() > 0 && s[0] == '-' {
        assert(!is_ascii_digit(unsigned_part(s)[0]));
    }
    let d = unsigned_part(s);
    if d.len() == 1 {
        assert(d.drop_last() =~= Seq::<char>::empty());
        assert(digits_value(d.drop_last()) == 0);
        if parse_u64(s) is Some {
            assert(is_ascii_digit(d[0]));
            assert(d.last() == d[0]);
        }
    }
}

/// A Brave session asks for pages of the requested maximum, 20 when none is
/// requested, and never more than 20.
pub proof fn law_brave_page_size(max_results: Option<u32>)
    ensures
        max_results is None ==> brave::page_size(max_results) == 20,
        max_results matches Some(m) ==> (m <= 20 ==> brave::page_size(max_results) == m) && (m > 20
            ==> brave::page_size(max_results) == 20),
{
}

/// Serper's page for position `start` with pages of `num > 0` results is the
/// one that holds that position: it starts at or before `start` and ends
/// after it.
pub proof fn law_serper_page_holds_start(start: u32, num: u32)
    requires
        num > 0,
        start / num < u32::MAX,
    ensures
        (serper::page_of(start, num) - 1) * num <= start < serper::page_of(start, num) * num,
        serper::page_of(start, num) >= 1,
{
    let q = start / num;
    assert(q * num <= start < (q + 1) * num) by (nonlinear_arith)
        requires
            num > 0,
            q == start / num,
    ;
}

} // verus!
