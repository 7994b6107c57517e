use vstd::prelude::*;
use crate::error::ScrapeError;
use crate::json::item_text;

verus! {

/// Whether `url` reads a text as an absolute URL.
pub uninterp spec fn url_parses(text: Seq<char>) -> bool;

/// The URL that `url` gives for a reference resolved against a base, in its
/// serialized form; `None` where the base is no absolute URL or the
/// reference cannot be resolved against it.
pub uninterp spec fn joined_url(base: Seq<char>, reference: Seq<char>) -> Option<Seq<char>>;

/// Calls `url::Url::parse`. The contract claims that whether the call
/// succeeds depends on the text alone.
#[verifier::external_body]
pub(crate) fn is_absolute(link: &str) -> (absolute: bool)
    ensures
        absolute == url_parses(link@),
{
    url::Url::parse(link).is_ok()
}

/// Calls `url::Url::parse` on the base and `Url::join` on what it gives.
/// The contract claims that the outcome depends on the two texts alone, and
/// that `None` comes back exactly where [`joined_url`] is `None`.
#[verifier::external_body]
pub(crate) fn join(base: &str, reference: &str) -> (joined: Option<String>)
    ensures
        match joined {
            Some(address) => joined_url(base@, reference@) == Some(address@),
            None => joined_url(base@, reference@) is None,
        },
{
    url::Url::parse(base).ok()?.join(reference).ok().map(String::from)
}

/// What a discovered link becomes: itself where it is absolute, else what
/// joining it to the seed address gave, and a failure where that gave
/// nothing.
pub open spec fn chosen_link(link: Seq<char>, absolute: bool, joined: Option<Seq<char>>) -> Result<
    Seq<char>,
    ScrapeError,
> {
    if absolute {
        Ok(link)
    } else {
        match joined {
            Some(address) => Ok(address),
            None => Err(ScrapeError::BadUrl),
        }
    }
}

/// What a discovered link becomes when it is resolved against a seed
/// address.
pub open spec fn resolved_link(seed: Seq<char>, link: Seq<char>) -> Result<Seq<char>, ScrapeError> {
    chosen_link(link, url_parses(link), joined_url(seed, link))
}

/// The character sequence of a link, or the failure.
pub open spec fn link_text(link: Result<String, ScrapeError>) -> Result<Seq<char>, ScrapeError> {
    match link {
        Ok(address) => Ok(address@),
        Err(e) => Err(e),
    }
}

/// Settles a discovered link from what is known about it: an absolute link
/// is passed through unchanged, any other is replaced by the joined address.
pub fn choose_link(link: &str, absolute: bool, joined: Option<String>) -> (chosen: Result<
    String,
    ScrapeError,
>)
    ensures
        link_text(chosen) == chosen_link(link@, absolute, item_text(joined)),
{
    if absolute {
        Ok(link.to_owned())
    } else {
        match joined {
            Some(address) => Ok(address),
            None => Err(ScrapeError::BadUrl),
        }
    }
}

/// Resolves a discovered link against the seed address: an absolute link is
/// passed through unchanged, any other is joined to the seed address.
pub fn resolve_link(seed: &str, link: &str) -> (resolved: Result<String, ScrapeError>)
    ensures
        link_text(resolved) == resolved_link(seed@, link@),
{
    if is_absolute(link) {
        choose_link(link, true, None)
    } else {
        choose_link(link, false, join(seed, link))
    }
}

/// A discovered link that is an absolute URL already is passed through
/// unchanged, whatever the seed address.
pub proof fn lemma_absolute_link_unchanged(seed: Seq<char>, link: Seq<char>)
    ensures
        url_parses(link) ==> resolved_link(seed, link) == Ok::<Seq<char>, ScrapeError>(link),
{
}

} // verus!
