//! Trusted boundary to the `url` crate: address parsing, path joining and
//! query-string attachment. The results of these calls depend on their string
//! arguments alone, so each is given a name that contracts can speak of.
use vstd::prelude::*;

verus! {

/// View of a list of query pairs as a sequence of (key, value) character
/// sequences, in order.
pub open spec fn pairs_view(s: Seq<(String, String)>) -> Seq<(Seq<char>, Seq<char>)> {
    s.map_values(|p: (String, String)| (p.0@, p.1@))
}

/// The normalized serialization that `url::Url::parse` gives to `s`, or
/// `None` where `s` is not a valid absolute URL.
pub uninterp spec fn parsed_url(s: Seq<char>) -> Option<Seq<char>>;

/// The serialization of `base` joined with the relative reference `path`,
/// or `None` where `base` does not parse or the join fails.
pub uninterp spec fn joined_url(base: Seq<char>, path: Seq<char>) -> Option<Seq<char>>;

/// The serialization of `url` after the given pairs are appended to its
/// query string, or `None` where `url` does not parse.
pub uninterp spec fn with_query(url: Seq<char>, pairs: Seq<(Seq<char>, Seq<char>)>) -> Option<Seq<char>>;

/// Relies on `url::Url::parse`: the normalized serialization of a valid
/// absolute URL, `None` on a parse error.
#[verifier::external_body]
pub(crate) fn parse_address(s: &str) -> (r: Option<String>)
    ensures
        r is Some <==> parsed_url(s@) is Some,
        r matches Some(n) ==> parsed_url(s@) == Some(n@),
{
    match url::Url::parse(s) {
        Ok(u) => Some(u.as_str().to_owned()),
        Err(_) => None,
    }
}

/// Relies on `url::Url::parse` and `url::Url::join`: resolves `path` as a
/// relative reference against `base`, `None` where either step fails.
#[verifier::external_body]
pub(crate) fn join_url(base: &str, path: &str) -> (r: Option<String>)
    ensures
        r is Some <==> joined_url(base@, path@) is Some,
        r matches Some(u) ==> joined_url(base@, path@) == Some(u@),
{
    match url::Url::parse(base) {
        Ok(b) => match b.join(path) {
            Ok(u) => Some(u.as_str().to_owned()),
            Err(_) => None,
        },
        Err(_) => None,
    }
}

/// Relies on `url::Url::query_pairs_mut` (a `form_urlencoded::Serializer`):
/// appends each pair, percent-encoded, to the URL's query string.
#[verifier::external_body]
pub(crate) fn url_with_query(url: &str, pairs: &Vec<(String, String)>) -> (r: Option<String>)
    ensures
        r is Some <==> with_query(url@, pairs_view(pairs@)) is Some,
        r matches Some(u) ==> with_query(url@, pairs_view(pairs@)) == Some(u@),
{
    match url::Url::parse(url) {
        Ok(mut u) => {
            u.query_pairs_mut().extend_pairs(pairs.iter().map(|p| (p.0.as_str(), p.1.as_str())));
            Some(u.as_str().to_owned())
        },
        Err(_) => None,
    }
}

} // verus!
