use vstd::prelude::*;

verus! {

/// Why one seed page or one posting was dropped from a run.
#[derive(Clone, Copy, Debug, PartialEq, Eq, Structural)]
pub enum ScrapeError {
    /// A page could not be fetched.
    Transport,
    /// A selector that a page is searched with is no valid CSS selector.
    BadSelector,
    /// The posting has no element that holds its title.
    MissingTitle,
    /// The posting has no element that holds its location.
    MissingLocation,
    /// The model's answer is not the JSON that was asked for.
    MalformedJson,
    /// The model's answer to the link question is JSON, but no array.
    NotAnArray,
    /// The model's answer to the link question holds an element that is no
    /// string.
    LinkNotText,
    /// A link could not be resolved against the seed address.
    BadUrl,
    /// No credential for the model provider is configured.
    MissingCredential,
    /// The request to the model provider failed.
    RequestFailed,
    /// The model provider answered without any text.
    EmptyResponse,
}

} // verus!
