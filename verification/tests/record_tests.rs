use rental_scraper::detail::VehicleDetail;
use rental_scraper::error::CrawlError;
use rental_scraper::record::{
    header_fields, VehicleRecord, FIELD_COUNT, MILEAGE_COLUMN, SITE, VALUATION_COLUMN,
};
use rental_scraper::sink::{encode_row, line_or_failure};

fn sample_detail() -> VehicleDetail {
    VehicleDetail {
        year: "2021".to_string(),
        make: "Toyota".to_string(),
        model: "Corolla".to_string(),
        trim: "LE".to_string(),
        price: "18250".to_string(),
        detail_page_url: "https://example.test/vdp/1".to_string(),
    }
}

#[test]
fn header_names_the_ten_columns() {
    let header: Vec<String> =
        ["Site", "VIN", "Year", "Make", "Model", "Trim", "Price", "Mileage", "KBB", "URL"]
            .iter()
            .map(|name| name.to_string())
            .collect();
    assert_eq!(header_fields(), header);
    assert_eq!(header_fields().len(), FIELD_COUNT);
    assert_eq!(FIELD_COUNT, 10);
}

#[test]
fn record_takes_its_fields_from_detail_and_page() {
    let record = VehicleRecord::assemble(
        "VIN1".to_string(),
        sample_detail(),
        "32,104 mi".to_string(),
        "18250.00".to_string(),
    );
    assert_eq!(
        record,
        VehicleRecord {
            site: "Enterprise".to_string(),
            vin: "VIN1".to_string(),
            year: "2021".to_string(),
            make: "Toyota".to_string(),
            model: "Corolla".to_string(),
            trim: "LE".to_string(),
            price: "18250".to_string(),
            mileage: "32,104 mi".to_string(),
            kbb_value: "18250.00".to_string(),
            url: "https://example.test/vdp/1".to_string(),
        }
    );
    assert_eq!(SITE, "Enterprise");
}

#[test]
fn row_has_ten_fields_in_column_order() {
    let record = VehicleRecord {
        site: "s".to_string(),
        vin: "v".to_string(),
        year: "y".to_string(),
        make: "ma".to_string(),
        model: "mo".to_string(),
        trim: "t".to_string(),
        price: "p".to_string(),
        mileage: "mi".to_string(),
        kbb_value: "k".to_string(),
        url: "u".to_string(),
    };
    let row: Vec<String> = ["s", "v", "y", "ma", "mo", "t", "p", "mi", "k", "u"]
        .iter()
        .map(|field| field.to_string())
        .collect();
    assert_eq!(record.fields(), row);
    assert_eq!(record.fields().len(), 10);
}

#[test]
fn header_is_written_as_one_plain_line() {
    assert_eq!(
        encode_row(&header_fields()),
        Ok(b"Site,VIN,Year,Make,Model,Trim,Price,Mileage,KBB,URL\n".to_vec())
    );
}

#[test]
fn fields_with_separators_are_quoted() {
    let record = VehicleRecord::assemble(
        "VIN1".to_string(),
        VehicleDetail { price: "\"18,250\"".to_string(), ..sample_detail() },
        "32,104 mi".to_string(),
        "Unknown".to_string(),
    );
    assert_eq!(
        encode_row(&record.fields()),
        Ok(b"Enterprise,VIN1,2021,Toyota,Corolla,LE,\"\"\"18,250\"\"\",\"32,104 mi\",Unknown,https://example.test/vdp/1\n"
            .to_vec())
    );
}

#[test]
fn empty_fields_are_written_empty() {
    let fields: Vec<String> = vec!["a".to_string(), "".to_string(), "b".to_string()];
    assert_eq!(encode_row(&fields), Ok(b"a,,b\n".to_vec()));
}

#[test]
fn line_breaks_inside_fields_are_quoted() {
    let fields: Vec<String> = vec!["a\nb".to_string(), "c".to_string()];
    assert_eq!(encode_row(&fields), Ok(b"\"a\nb\",c\n".to_vec()));
}

#[test]
fn missing_line_is_a_write_failure() {
    assert_eq!(line_or_failure(None), Err(CrawlError::Write));
    assert_eq!(line_or_failure(Some(b"a,b\n".to_vec())), Ok(b"a,b\n".to_vec()));
    assert_eq!(line_or_failure(Some(Vec::new())), Ok(Vec::new()));
}

#[test]
fn mileage_and_valuation_stand_in_their_columns() {
    let record = VehicleRecord::assemble(
        "VIN1".to_string(),
        sample_detail(),
        "32,104 mi".to_string(),
        "18250.00".to_string(),
    );
    assert_eq!(record.fields()[MILEAGE_COLUMN], "32,104 mi");
    assert_eq!(record.fields()[VALUATION_COLUMN], "18250.00");
    assert_eq!(header_fields()[MILEAGE_COLUMN], "Mileage");
    assert_eq!(header_fields()[VALUATION_COLUMN], "KBB");
}

#[test]
fn every_row_has_a_line() {
    assert_eq!(encode_row(&Vec::new()), Ok(b"\"\"\n".to_vec()));
    assert_eq!(encode_row(&vec!["".to_string()]), Ok(b"\"\"\n".to_vec()));
    assert_eq!(encode_row(&vec!["\u{e9}\u{0}".to_string(), "\r".to_string()]),
        Ok("\u{e9}\u{0},\"\r\"\n".as_bytes().to_vec()));
    let long: Vec<String> = (0..500).map(|i| "x".repeat(i)).collect();
    assert!(encode_row(&long).is_ok());
}
