use vstd::prelude::*;
use crate::bullets::texts;
use crate::json::item_text;

verus! {

/// For a page and a CSS selector: the text of every element of the page that
/// the selector matches, in the order in which `scraper` hands the elements
/// out; `None` where the selector is not valid.
pub uninterp spec fn selected_texts(page: Seq<char>, selector: Seq<char>) -> Option<Seq<Seq<char>>>;

/// For a page, a CSS selector and an attribute name: for every element of
/// the page that the selector matches, in the order in which `scraper` hands
/// the elements out, the value of the attribute, if the element has it;
/// `None` where the selector is not valid.
pub uninterp spec fn selected_attrs(page: Seq<char>, selector: Seq<char>, name: Seq<char>) -> Option<
    Seq<Option<Seq<char>>>,
>;

/// The character sequences of a list of optional strings.
pub open spec fn optional_texts(items: Seq<Option<String>>) -> Seq<Option<Seq<char>>> {
    items.map_values(|item: Option<String>| item_text(item))
}

/// Calls `scraper::Selector::parse`, `scraper::Html::parse_document` and
/// `Html::select`, and collects what `ElementRef::text` yields for each
/// match. The contract claims that the outcome depends on the page and the
/// selector alone, and that `None` comes back exactly where
/// [`selected_texts`] is `None`.
#[verifier::external_body]
pub(crate) fn select_texts(page: &str, selector: &str) -> (found: Option<Vec<String>>)
    ensures
        match found {
            Some(list) => selected_texts(page@, selector@) == Some(texts(list@)),
            None => selected_texts(page@, selector@) is None,
        },
{
    let selector = scraper::Selector::parse(selector).ok()?;
    let document = scraper::Html::parse_document(page);
    Some(document.select(&selector).map(|element| element.text().collect::<String>()).collect())
}

/// Calls `scraper::Selector::parse`, `scraper::Html::parse_document` and
/// `Html::select`, and asks each match for the attribute with
/// `Element::attr`. The contract claims that the outcome depends on the
/// page, the selector and the attribute name alone, and that `None` comes
/// back exactly where [`selected_attrs`] is `None`.
#[verifier::external_body]
pub(crate) fn select_attrs(page: &str, selector: &str, name: &str) -> (found: Option<
    Vec<Option<String>>,
>)
    ensures
        match found {
            Some(list) => selected_attrs(page@, selector@, name@) == Some(optional_texts(list@)),
            None => selected_attrs(page@, selector@, name@) is None,
        },
{
    let selector = scraper::Selector::parse(selector).ok()?;
    let document = scraper::Html::parse_document(page);
    Some(document.select(&selector).map(|element| element.value().attr(name).map(String::from)).collect())
}

} // verus!
