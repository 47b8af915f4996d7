//! Rows as lines of comma-separated values.

use vstd::prelude::*;
use crate::error::CrawlError;
use crate::text::text_views;

verus! {

/// The bytes that `csv` writes for one record with these fields, the line
/// terminator included.
pub uninterp spec fn csv_record(fields: Seq<Seq<char>>) -> Seq<u8>;

/// Writes `fields` as one record through a `csv::Writer` over an empty byte
/// vector (`Writer::from_writer`, `Writer::write_record`) and takes the
/// vector back with `Writer::into_inner`.
///
/// Trusted: the bytes come back, and they are what `csv_record` names. The
/// writer has nothing to report: a byte vector takes every write, and the
/// first record of a writer sets the field count that later ones are held to.
#[verifier::external_body]
pub(crate) fn write_record(fields: &Vec<String>) -> (line: Option<Vec<u8>>)
    ensures
        line is Some,
        line matches Some(bytes) ==> bytes@ == csv_record(text_views(fields@)),
{
    let mut writer = csv::Writer::from_writer(Vec::new());
    match writer.write_record(fields) {
        Ok(()) => writer.into_inner().ok(),
        Err(_) => None,
    }
}

/// What a written record comes to: its bytes, or a write failure where the
/// writer gave none.
pub fn line_or_failure(line: Option<Vec<u8>>) -> (encoded: Result<Vec<u8>, CrawlError>)
    ensures
        match line {
            Some(bytes) => encoded == Ok::<Vec<u8>, CrawlError>(bytes),
            None => encoded == Err::<Vec<u8>, CrawlError>(CrawlError::Write),
        },
{
    match line {
        Some(bytes) => Ok(bytes),
        None => Err(CrawlError::Write),
    }
}

/// Encodes one row as a line of comma-separated values. Every row has a
/// line.
pub fn encode_row(fields: &Vec<String>) -> (encoded: Result<Vec<u8>, CrawlError>)
    ensures
        encoded matches Ok(bytes) && bytes@ == csv_record(text_views(fields@)),
{
    line_or_failure(write_record(fields))
}

} // verus!
