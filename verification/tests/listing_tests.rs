use rental_scraper::error::CrawlError;
use rental_scraper::listing::{identifiers_among, vehicle_identifiers, VIN_ATTRIBUTE, VIN_SELECTOR};

#[test]
fn identifiers_come_in_page_order() {
    let page = "<html><body>\
        <div data-auto5-vehicle-vin=\"1HGCM82633A004352\">Accord</div>\
        <p>between</p>\
        <div data-auto5-vehicle-vin=\"2T1BURHE5JC034461\">Corolla</div>\
        </body></html>";
    assert_eq!(
        vehicle_identifiers(page),
        Ok(vec!["1HGCM82633A004352".to_string(), "2T1BURHE5JC034461".to_string()])
    );
}

#[test]
fn page_without_vehicles_has_no_identifiers() {
    let page = "<html><body><p>No results</p></body></html>";
    assert_eq!(vehicle_identifiers(page), Ok(Vec::<String>::new()));
    assert_eq!(vehicle_identifiers(""), Ok(Vec::<String>::new()));
}

#[test]
fn only_div_elements_with_the_attribute_count() {
    let page = "<div>plain</div>\
        <span data-auto5-vehicle-vin=\"SPAN\"></span>\
        <div data-auto5-vehicle-vin=\"KEPT\"></div>\
        <div data-other=\"x\"></div>";
    assert_eq!(vehicle_identifiers(page), Ok(vec!["KEPT".to_string()]));
}

#[test]
fn duplicate_identifiers_are_kept() {
    let page = "<div data-auto5-vehicle-vin=\"A\"></div><div data-auto5-vehicle-vin=\"A\"></div>";
    assert_eq!(vehicle_identifiers(page), Ok(vec!["A".to_string(), "A".to_string()]));
}

#[test]
fn nested_vehicle_elements_are_all_found() {
    let page = "<div data-auto5-vehicle-vin=\"OUTER\"><div data-auto5-vehicle-vin=\"INNER\"></div></div>";
    assert_eq!(vehicle_identifiers(page), Ok(vec!["OUTER".to_string(), "INNER".to_string()]));
}

#[test]
fn empty_attribute_is_an_identifier() {
    let page = "<div data-auto5-vehicle-vin=\"\"></div>";
    assert_eq!(vehicle_identifiers(page), Ok(vec!["".to_string()]));
}

#[test]
fn absent_values_are_passed_over() {
    let values = vec![None, Some("A".to_string()), None, Some("B".to_string()), None];
    assert_eq!(identifiers_among(&values), vec!["A".to_string(), "B".to_string()]);
    assert_eq!(identifiers_among(&Vec::new()), Vec::<String>::new());
    assert_eq!(identifiers_among(&vec![None, None]), Vec::<String>::new());
}

#[test]
fn listing_selector_and_attribute_are_fixed() {
    assert_eq!(VIN_SELECTOR, "div[data-auto5-vehicle-vin]");
    assert_eq!(VIN_ATTRIBUTE, "data-auto5-vehicle-vin");
}

#[test]
fn extractor_error_is_not_raised_for_the_listing_selector() {
    assert!(vehicle_identifiers("<div></div>") != Err(CrawlError::Extractor));
}
