//! Reading and writing comma-separated text, through the `csv` crate.
use vstd::prelude::*;

use crate::table::TableError;

verus! {

#[verifier::external_type_specification]
#[verifier::external_body]
pub struct ExCsvError(csv::Error);

/// The records that the `csv` reader finds in `text` (comma delimiter,
/// double-quote quoting, records of any length, no record set apart as a
/// header), or `None` where it reports the text as malformed.
pub uninterp spec fn csv_records(text: Seq<char>) -> Option<Seq<Seq<Seq<char>>>>;

/// The text that the `csv` writer produces for `records` (comma delimiter,
/// fields quoted where they need it, every record ended by a line break).
pub uninterp spec fn csv_text(records: Seq<Seq<Seq<char>>>) -> Seq<char>;

/// Relies on csv::ReaderBuilder (`has_headers(false)`, `flexible(true)`) and
/// on the iterator of `Reader::records`: every record of `text`, each field as
/// text, or the first error met.
#[verifier::external_body]
fn parse_records(text: &str) -> (r: Result<Vec<Vec<String>>, csv::Error>)
    ensures
        match r {
            Ok(rows) => csv_records(text@) == Some(rows.deep_view()),
            Err(_) => csv_records(text@) is None,
        },
{
    let mut reader = csv::ReaderBuilder::new().has_headers(false).flexible(true).from_reader(
        text.as_bytes(),
    );
    reader.records().map(|rec| rec.map(|rec| rec.iter().map(|f| f.to_string()).collect())).collect()
}

/// Relies on csv::WriterBuilder (`flexible(true)`) writing into memory,
/// `Writer::write_record` once per record and `Writer::into_inner`: the
/// encoded text of `records`. With records of any length allowed, the writer's
/// only errors come from its sink, and a `Vec<u8>` sink does not fail.
#[verifier::external_body]
fn encode_records(records: &Vec<Vec<String>>) -> (r: Result<String, csv::Error>)
    ensures
        r is Ok,
        r matches Ok(text) ==> text@ == csv_text(records.deep_view()),
{
    let mut writer = csv::WriterBuilder::new().flexible(true).from_writer(Vec::new());
    for record in records {
        writer.write_record(record)?;
    }
    let bytes = writer.into_inner().map_err(|e| csv::Error::from(e.into_error()))?;
    Ok(String::from_utf8_lossy(&bytes).into_owned())
}

/// The records of the comma-separated `text`.
pub fn read_records(text: &str) -> (r: Result<Vec<Vec<String>>, TableError>)
    ensures
        match csv_records(text@) {
            Some(records) => r matches Ok(rows) && rows.deep_view() == records,
            None => r == Err::<Vec<Vec<String>>, TableError>(TableError::Parse),
        },
{
    match parse_records(text) {
        Ok(rows) => Ok(rows),
        Err(_) => Err(TableError::Parse),
    }
}

/// The comma-separated text of `records`.
pub fn write_records(records: &Vec<Vec<String>>) -> (r: String)
    ensures
        r@ == csv_text(records.deep_view()),
{
    match encode_records(records) {
        Ok(text) => text,
        Err(_) => String::new(),
    }
}

} // verus!
