//! URLs, held as their serialized text, and what the `url` crate computes on them.

use vstd::prelude::*;

verus! {

/// What `url::Url::parse` makes of a text, as serialized text; `None` where it refuses it.
pub uninterp spec fn parsed_url(text: Seq<char>) -> Option<Seq<char>>;

/// The absolute URL that `reference` names when read against `base`; `None` where
/// `base` is no URL or the reference cannot be resolved against it.
pub uninterp spec fn joined_url(base: Seq<char>, reference: Seq<char>) -> Option<Seq<char>>;

/// The host of the URL that a text parses to, if it parses and has one.
pub uninterp spec fn url_host(text: Seq<char>) -> Option<Seq<char>>;

pub open spec fn opt_text(o: Option<String>) -> Option<Seq<char>> {
    match o {
        Some(s) => Some(s@),
        None => None,
    }
}

/// Relies on `url::Url::parse`, then the URL's serialization.
#[verifier::external_body]
pub fn parse_url(text: &str) -> (r: Option<String>)
    ensures
        opt_text(r) == parsed_url(text@),
{
    url::Url::parse(text).ok().map(|u| u.to_string())
}

/// Relies on `url::Url::join`: `reference` resolved against `base`, which is read
/// with `url::Url::parse`.
#[verifier::external_body]
pub fn join_url(base: &str, reference: &str) -> (r: Option<String>)
    ensures
        opt_text(r) == joined_url(base@, reference@),
{
    url::Url::parse(base).and_then(|b| b.join(reference)).ok().map(|u| u.to_string())
}

/// Relies on `url::Url::host_str` of the URL that `url::Url::parse` reads from `text`.
#[verifier::external_body]
pub fn host_of(text: &str) -> (r: Option<String>)
    ensures
        opt_text(r) == url_host(text@),
{
    url::Url::parse(text).ok().and_then(|u| u.host_str().map(|h| h.to_string()))
}

} // verus!
