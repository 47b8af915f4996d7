//! Vehicle identifiers on a page of search results.

use vstd::prelude::*;
use crate::error::CrawlError;
use crate::html::{matched_attributes, select_attribute, selector_accepted};
use crate::text::{optional_text_views, text_views};

verus! {

/// Selects the elements of a listing page that stand for one vehicle each.
pub const VIN_SELECTOR: &'static str = "div[data-auto5-vehicle-vin]";

/// The attribute of such an element that holds the vehicle's identifier.
pub const VIN_ATTRIBUTE: &'static str = "data-auto5-vehicle-vin";

/// The values that are there, in their order.
pub open spec fn present(values: Seq<Option<Seq<char>>>) -> Seq<Seq<char>>
    decreases values.len(),
{
    if values.len() == 0 {
        Seq::empty()
    } else {
        match values.last() {
            Some(value) => present(values.drop_last()).push(value),
            None => present(values.drop_last()),
        }
    }
}

/// The identifiers that a listing page holds, or `None` where the selector
/// for them is refused.
pub open spec fn listed_identifiers(document: Seq<char>) -> Option<Seq<Seq<char>>> {
    if selector_accepted(VIN_SELECTOR@) {
        Some(present(matched_attributes(document, VIN_SELECTOR@, VIN_ATTRIBUTE@)))
    } else {
        None
    }
}

/// Keeps the identifiers of the elements that carry one.
pub fn identifiers_among(values: &Vec<Option<String>>) -> (found: Vec<String>)
    ensures
        text_views(found@) == present(optional_text_views(values@)),
{
    let mut found: Vec<String> = Vec::new();
    let ghost all = optional_text_views(values@);
    for i in 0..values.len()
        invariant
            all == optional_text_views(values@),
            text_views(found@) == present(all.take(i as int)),
    {
        proof {
            assert(all.take(i + 1).drop_last() == all.take(i as int));
        }
        let ghost before = text_views(found@);
        match &values[i] {
            Some(value) => {
                found.push(value.clone());
                assert(text_views(found@) == before.push(value@));
            },
            None => {},
        }
    }
    proof {
        assert(all.take(values.len() as int) == all);
    }
    found
}

/// Reads the vehicle identifiers off a listing page, in the order in which
/// their elements are matched.
///
/// Fails with `CrawlError::Extractor` exactly when the selector is refused.
pub fn vehicle_identifiers(document: &str) -> (found: Result<Vec<String>, CrawlError>)
    ensures
        match found {
            Ok(identifiers) => listed_identifiers(document@) == Some(text_views(identifiers@)),
            Err(error) => error == CrawlError::Extractor && listed_identifiers(document@) is None,
        },
{
    match select_attribute(document, VIN_SELECTOR, VIN_ATTRIBUTE) {
        Some(values) => Ok(identifiers_among(&values)),
        None => Err(CrawlError::Extractor),
    }
}

} // verus!
