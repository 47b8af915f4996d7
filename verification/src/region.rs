//! The search region of a crawl and the addresses that are asked for it.

use vstd::prelude::*;
use crate::text::{decimal, render_decimal};

verus! {

/// Where to look for vehicles: around a postal code, within a radius.
#[derive(Clone, Debug, PartialEq, Eq)]
pub struct SearchRegion {
    pub postal_code: String,
    pub radius_miles: u32,
}

/// What a `SearchRegion` holds.
pub struct SearchRegionView {
    pub postal_code: Seq<char>,
    pub radius_miles: nat,
}

impl View for SearchRegion {
    type V = SearchRegionView;

    open spec fn view(&self) -> SearchRegionView {
        SearchRegionView {
            postal_code: self.postal_code@,
            radius_miles: self.radius_miles as nat,
        }
    }
}

/// The address of a listing page, up to the radius.
pub const LISTING_PREFIX: &'static str =
    "https://www.enterprisecarsales.com/list/buy-a-car/distance---";

/// What stands between the radius and the page number.
pub const LISTING_PAGE: &'static str = "/srp-page-";

/// What stands between the page number and the postal code.
pub const LISTING_QUERY: &'static str = "/?zipcode=";

/// The address of a vehicle's detail record, up to its identifier.
pub const RECORD_PREFIX: &'static str =
    "https://www.enterprisecarsales.com/wp-json/jazel-auto5/v1/vehicle/";

/// The address of page `page` of the listing for `region`.
pub open spec fn listing_url(region: SearchRegionView, page: nat) -> Seq<char> {
    LISTING_PREFIX@ + decimal(region.radius_miles) + LISTING_PAGE@ + decimal(page) + LISTING_QUERY@
        + region.postal_code
}

/// The address of the detail record of the vehicle `vin`.
pub open spec fn record_url(vin: Seq<char>) -> Seq<char> {
    RECORD_PREFIX@ + vin
}

impl SearchRegion {
    /// The address of page `page` of the listing for this region. The postal
    /// code goes in as it is.
    pub fn listing_address(&self, page: u64) -> (url: String)
        ensures
            url@ == listing_url(self@, page as nat),
    {
        let mut url = String::from_str(LISTING_PREFIX);
        let radius = render_decimal(self.radius_miles as u64);
        url.append(radius.as_str());
        url.append(LISTING_PAGE);
        let number = render_decimal(page);
        url.append(number.as_str());
        url.append(LISTING_QUERY);
        url.append(self.postal_code.as_str());
        url
    }
}

/// The address of the detail record of the vehicle `vin`. The identifier
/// goes in as it is.
pub fn record_address(vin: &str) -> (url: String)
    ensures
        url@ == record_url(vin@),
{
    let mut url = String::from_str(RECORD_PREFIX);
    url.append(vin);
    url
}

} // verus!
