//! Selection of elements from an HTML document by CSS selector.
//!
//! Parsing and matching are done by the `scraper` crate. What it yields is
//! named here, so that callers can say exactly which selection they made.

use vstd::prelude::*;
use crate::text::{optional_text_views, text_views};

verus! {

/// Whether `scraper` accepts `selector` as a CSS selector group.
pub uninterp spec fn selector_accepted(selector: Seq<char>) -> bool;

/// For each element of `document` that matches `selector`, in the order in
/// which `scraper` yields them, the value of `attribute` if the element has it.
pub uninterp spec fn matched_attributes(
    document: Seq<char>,
    selector: Seq<char>,
    attribute: Seq<char>,
) -> Seq<Option<Seq<char>>>;

/// For each element of `document` that matches `selector`, in the order in
/// which `scraper` yields them, the text of its descendant text nodes, joined.
pub uninterp spec fn matched_texts(document: Seq<char>, selector: Seq<char>) -> Seq<Seq<char>>;

/// Parses `selector` with `scraper::Selector::parse` and `document` with
/// `scraper::Html::parse_document`, walks `Html::select` and reads
/// `Element::attr` off every match.
///
/// Trusted: the result is `None` exactly when the selector is refused, and
/// otherwise holds what `matched_attributes` names. Nothing is claimed about
/// which elements match.
#[verifier::external_body]
pub(crate) fn select_attribute(document: &str, selector: &str, attribute: &str) -> (found: Option<
    Vec<Option<String>>,
>)
    ensures
        found is Some <==> selector_accepted(selector@),
        found matches Some(values) ==> optional_text_views(values@) == matched_attributes(
            document@,
            selector@,
            attribute@,
        ),
{
    match scraper::Selector::parse(selector) {
        Ok(parsed) => Some(
            scraper::Html::parse_document(document)
                .select(&parsed)
                .map(|element| element.value().attr(attribute).map(|value| value.to_string()))
                .collect(),
        ),
        Err(_) => None,
    }
}

/// Parses `selector` with `scraper::Selector::parse` and `document` with
/// `scraper::Html::parse_document`, walks `Html::select` and joins what
/// `ElementRef::text` yields for every match.
///
/// Trusted: the result is `None` exactly when the selector is refused, and
/// otherwise holds what `matched_texts` names. Nothing is claimed about which
/// elements match.
#[verifier::external_body]
pub(crate) fn select_text(document: &str, selector: &str) -> (found: Option<Vec<String>>)
    ensures
        found is Some <==> selector_accepted(selector@),
        found matches Some(texts) ==> text_views(texts@) == matched_texts(document@, selector@),
{
    match scraper::Selector::parse(selector) {
        Ok(parsed) => Some(
            scraper::Html::parse_document(document)
                .select(&parsed)
                .map(|element| element.text().collect::<String>())
                .collect(),
        ),
        Err(_) => None,
    }
}

} // verus!
