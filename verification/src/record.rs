//! The row that is written for one vehicle.

use vstd::prelude::*;
use crate::detail::{VehicleDetail, VehicleDetailView};
use crate::text::text_views;

verus! {

/// The site that every row of this crawl comes from.
pub const SITE: &'static str = "Enterprise";

/// How many fields a row has.
pub const FIELD_COUNT: usize = 10;

/// The column that holds the mileage.
pub const MILEAGE_COLUMN: usize = 7;

/// The column that holds the valuation.
pub const VALUATION_COLUMN: usize = 8;

/// One vehicle as it is written out.
#[derive(Clone, Debug, PartialEq, Eq)]
pub struct VehicleRecord {
    pub site: String,
    pub vin: String,
    pub year: String,
    pub make: String,
    pub model: String,
    pub trim: String,
    pub price: String,
    pub mileage: String,
    pub kbb_value: String,
    pub url: String,
}

/// What a `VehicleRecord` holds.
pub struct VehicleRecordView {
    pub site: Seq<char>,
    pub vin: Seq<char>,
    pub year: Seq<char>,
    pub make: Seq<char>,
    pub model: Seq<char>,
    pub trim: Seq<char>,
    pub price: Seq<char>,
    pub mileage: Seq<char>,
    pub kbb_value: Seq<char>,
    pub url: Seq<char>,
}

impl View for VehicleRecord {
    type V = VehicleRecordView;

    open spec fn view(&self) -> VehicleRecordView {
        VehicleRecordView {
            site: self.site@,
            vin: self.vin@,
            year: self.year@,
            make: self.make@,
            model: self.model@,
            trim: self.trim@,
            price: self.price@,
            mileage: self.mileage@,
            kbb_value: self.kbb_value@,
            url: self.url@,
        }
    }
}

/// The record of the vehicle `vin` with what its detail record and its
/// detail page gave.
pub open spec fn record_of(
    vin: Seq<char>,
    detail: VehicleDetailView,
    mileage: Seq<char>,
    valuation: Seq<char>,
) -> VehicleRecordView {
    VehicleRecordView {
        site: SITE@,
        vin,
        year: detail.year,
        make: detail.make,
        model: detail.model,
        trim: detail.trim,
        price: detail.price,
        mileage,
        kbb_value: valuation,
        url: detail.detail_page_url,
    }
}

/// The fields of a record in column order.
pub open spec fn row_of(record: VehicleRecordView) -> Seq<Seq<char>> {
    seq![
        record.site,
        record.vin,
        record.year,
        record.make,
        record.model,
        record.trim,
        record.price,
        record.mileage,
        record.kbb_value,
        record.url,
    ]
}

/// The names of the columns, in column order.
pub open spec fn header_row() -> Seq<Seq<char>> {
    seq![
        "Site"@,
        "VIN"@,
        "Year"@,
        "Make"@,
        "Model"@,
        "Trim"@,
        "Price"@,
        "Mileage"@,
        "KBB"@,
        "URL"@,
    ]
}

/// A row has ten fields, and each column holds the field it is named after.
pub proof fn lemma_row_shape(record: VehicleRecordView)
    ensures
        row_of(record).len() == FIELD_COUNT,
        header_row().len() == FIELD_COUNT,
        row_of(record)[0] == record.site,
        row_of(record)[1] == record.vin,
        row_of(record)[2] == record.year,
        row_of(record)[3] == record.make,
        row_of(record)[4] == record.model,
        row_of(record)[5] == record.trim,
        row_of(record)[6] == record.price,
        row_of(record)[7] == record.mileage,
        row_of(record)[8] == record.kbb_value,
        row_of(record)[9] == record.url,
{
}

impl VehicleRecord {
    /// Puts the record of one vehicle together.
    pub fn assemble(vin: String, detail: VehicleDetail, mileage: String, valuation: String) -> (record:
        VehicleRecord)
        ensures
            record@ == record_of(vin@, detail@, mileage@, valuation@),
    {
        VehicleRecord {
            site: String::from_str(SITE),
            vin,
            year: detail.year,
            make: detail.make,
            model: detail.model,
            trim: detail.trim,
            price: detail.price,
            mileage,
            kbb_value: valuation,
            url: detail.detail_page_url,
        }
    }

    /// The ten fields of the record, in column order.
    pub fn fields(&self) -> (row: Vec<String>)
        ensures
            text_views(row@) == row_of(self@),
            row@.len() == FIELD_COUNT,
    {
        let mut row: Vec<String> = Vec::new();
        row.push(self.site.clone());
        row.push(self.vin.clone());
        row.push(self.year.clone());
        row.push(self.make.clone());
        row.push(self.model.clone());
        row.push(self.trim.clone());
        row.push(self.price.clone());
        row.push(self.mileage.clone());
        row.push(self.kbb_value.clone());
        row.push(self.url.clone());
        assert(text_views(row@) =~= row_of(self@));
        row
    }
}

/// The ten column names, in column order.
pub fn header_fields() -> (row: Vec<String>)
    ensures
        text_views(row@) == header_row(),
        row@.len() == FIELD_COUNT,
{
    let mut row: Vec<String> = Vec::new();
    row.push(String::from_str("Site"));
    row.push(String::from_str("VIN"));
    row.push(String::from_str("Year"));
    row.push(String::from_str("Make"));
    row.push(String::from_str("Model"));
    row.push(String::from_str("Trim"));
    row.push(String::from_str("Price"));
    row.push(String::from_str("Mileage"));
    row.push(String::from_str("KBB"));
    row.push(String::from_str("URL"));
    assert(text_views(row@) =~= header_row());
    row
}

} // verus!
