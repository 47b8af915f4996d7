use rental_scraper::detail::{detail_from_members, parse_detail, Member, VehicleDetail};
use rental_scraper::error::CrawlError;

fn text_member(text: &str) -> Member {
    Member { text: Some(text.to_string()), rendered: format!("\"{}\"", text) }
}

fn other_member(rendered: &str) -> Member {
    Member { text: None, rendered: rendered.to_string() }
}

#[test]
fn record_with_all_members_is_read() {
    let body = br#"{"year":"2021","make":"Toyota","model":"Corolla","trim":"LE",
        "displayPrice":18250,"vdp_url":"https://example.test/vdp/1"}"#;
    assert_eq!(
        parse_detail(body),
        Ok(VehicleDetail {
            year: "2021".to_string(),
            make: "Toyota".to_string(),
            model: "Corolla".to_string(),
            trim: "LE".to_string(),
            price: "18250".to_string(),
            detail_page_url: "https://example.test/vdp/1".to_string(),
        })
    );
}

#[test]
fn missing_members_default_to_empty_and_null() {
    let detail = parse_detail(b"{}").unwrap();
    assert_eq!(detail.year, "");
    assert_eq!(detail.make, "");
    assert_eq!(detail.model, "");
    assert_eq!(detail.trim, "");
    assert_eq!(detail.price, "null");
    assert_eq!(detail.detail_page_url, "");
}

#[test]
fn members_that_are_no_strings_default_to_empty() {
    let body = br#"{"year":2021,"make":null,"model":["Corolla"],"trim":{"a":1},"vdp_url":false}"#;
    let detail = parse_detail(body).unwrap();
    assert_eq!(detail.year, "");
    assert_eq!(detail.make, "");
    assert_eq!(detail.model, "");
    assert_eq!(detail.trim, "");
    assert_eq!(detail.detail_page_url, "");
}

#[test]
fn price_is_taken_as_json_text() {
    assert_eq!(parse_detail(br#"{"displayPrice":18250}"#).unwrap().price, "18250");
    assert_eq!(parse_detail(br#"{"displayPrice":18250.5}"#).unwrap().price, "18250.5");
    assert_eq!(parse_detail(br#"{"displayPrice":"18,250"}"#).unwrap().price, "\"18,250\"");
    assert_eq!(parse_detail(br#"{"displayPrice":null}"#).unwrap().price, "null");
    assert_eq!(parse_detail(br#"{"displayPrice":true}"#).unwrap().price, "true");
    assert_eq!(parse_detail(br#"{"displayPrice":[1, 2]}"#).unwrap().price, "[1,2]");
}

#[test]
fn document_that_is_no_object_gives_defaults() {
    let detail = parse_detail(b"[1, 2, 3]").unwrap();
    assert_eq!(detail.year, "");
    assert_eq!(detail.price, "null");
    assert_eq!(detail.detail_page_url, "");
    let detail = parse_detail(b"\"year\"").unwrap();
    assert_eq!(detail.year, "");
    assert_eq!(detail.price, "null");
}

#[test]
fn malformed_record_is_a_parse_error() {
    assert_eq!(parse_detail(b""), Err(CrawlError::Parse));
    assert_eq!(parse_detail(b"{\"year\":"), Err(CrawlError::Parse));
    assert_eq!(parse_detail(b"<html></html>"), Err(CrawlError::Parse));
    assert_eq!(parse_detail(b"{} trailing"), Err(CrawlError::Parse));
    assert_eq!(parse_detail(&[0xff, 0xfe]), Err(CrawlError::Parse));
}

#[test]
fn escapes_in_strings_are_resolved() {
    let detail = parse_detail(br#"{"make":"Mercedes-Benz","trim":"a\"b"}"#).unwrap();
    assert_eq!(detail.make, "Mercedes-Benz");
    assert_eq!(detail.trim, "a\"b");
}

#[test]
fn detail_is_put_together_from_members() {
    let detail = detail_from_members(
        &text_member("2020"),
        &text_member("Honda"),
        &other_member("7"),
        &other_member("null"),
        &text_member("9,999"),
        &text_member("https://example.test/v"),
    );
    assert_eq!(
        detail,
        VehicleDetail {
            year: "2020".to_string(),
            make: "Honda".to_string(),
            model: "".to_string(),
            trim: "".to_string(),
            price: "\"9,999\"".to_string(),
            detail_page_url: "https://example.test/v".to_string(),
        }
    );
}

#[test]
fn price_member_is_taken_by_its_json_text_only() {
    let price = Member { text: Some("ignored".to_string()), rendered: "123".to_string() };
    let empty = other_member("null");
    let detail = detail_from_members(&empty, &empty, &empty, &empty, &price, &empty);
    assert_eq!(detail.price, "123");
    assert_eq!(detail.year, "");
    assert_eq!(detail.detail_page_url, "");
}
