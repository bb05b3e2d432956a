//! Query parameters of an HTTP request and the URL that carries them.

use vstd::prelude::*;
use crate::error::create_backend_error;
use crate::text::prefixed;
use crate::types::{SearchError, SpecSearchError};

verus! {

/// The value of a list of query parameters: names and values in order.
pub type SpecPairs = Seq<(Seq<char>, Seq<char>)>;

/// The parameter `name=value` if there is a value, otherwise nothing.
pub open spec fn optional_pair(name: Seq<char>, value: Option<Seq<char>>) -> SpecPairs {
    match value {
        Some(v) => seq![(name, v)],
        None => Seq::empty(),
    }
}

/// Appends the parameter `name=value`.
pub fn push_pair(pairs: &mut Vec<(String, String)>, name: &str, value: String)
    ensures
        final(pairs).deep_view() == old(pairs).deep_view().push((name@, value@)),
{
    let ghost before = pairs.deep_view();
    pairs.push((String::from_str(name), value));
    assert(pairs.deep_view() =~= before.push((name@, value@)));
}

/// Appends the parameter `name=value` if there is a value.
pub fn push_optional_pair(pairs: &mut Vec<(String, String)>, name: &str, value: Option<String>)
    ensures
        final(pairs).deep_view() == old(pairs).deep_view() + optional_pair(name@, value.deep_view()),
{
    let ghost before = pairs.deep_view();
    match value {
        Some(v) => {
            push_pair(pairs, name, v);
            assert(pairs.deep_view() =~= before + optional_pair(name@, Some(v@)));
        },
        None => {
            assert(pairs.deep_view() =~= before + optional_pair(name@, None));
        },
    }
}

/// The text of the URL that `url::Url::parse(base)` gives after
/// `query_pairs_mut().extend_pairs(pairs)`, or the message of the parse error.
pub uninterp spec fn url_with_query(base: Seq<char>, pairs: SpecPairs) -> Result<Seq<char>, Seq<char>>;

/// `url::Url::parse` of `base`, then `form_urlencoded::Serializer::extend_pairs`
/// on its query, then the URL's text; on a parse error, the error's message.
/// The contract names the outcome and claims only that it depends on `base`
/// and `pairs` alone.
#[verifier::external_body]
pub(crate) fn encode_url(base: &str, pairs: &Vec<(String, String)>) -> (r: Result<String, String>)
    ensures
        match r {
            Ok(u) => url_with_query(base@, pairs.deep_view()) == Ok::<Seq<char>, Seq<char>>(u@),
            Err(e) => url_with_query(base@, pairs.deep_view()) == Err::<Seq<char>, Seq<char>>(e@),
        },
{
    match url::Url::parse(base) {
        Ok(mut url) => {
            url.query_pairs_mut().extend_pairs(pairs.iter());
            Ok(url.to_string())
        },
        Err(e) => Err(e.to_string()),
    }
}

/// The request URL, or for a base URL that does not parse the backend error
/// `Invalid URL: ` followed by the parser's message.
pub fn url_or_error(encoded: Result<String, String>) -> (r: Result<String, SearchError>)
    ensures
        match encoded {
            Ok(u) => r matches Ok(s) && s@ == u@,
            Err(e) => r matches Err(err) && err@ == SpecSearchError::BackendError("Invalid URL: "@ + e@),
        },
{
    match encoded {
        Ok(u) => Ok(u),
        Err(e) => Err(create_backend_error(prefixed("Invalid URL: ", e.as_str()))),
    }
}

} // verus!
