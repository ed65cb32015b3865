//! The flat-file adapter: a delimited-text document, first record as header.

use vstd::prelude::*;
use crate::schema::opt_texts;
use crate::sources::{build_csv_table, csv_table_post, CsvTableError};
use crate::table::{rows_texts, ExtractedData};
use crate::text::{lemma_sorted_unique, texts};

verus! {

/// What the csv crate reads from a document: the header record and the
/// data records, or the text of the error it reports (which names the
/// position in the bytes).
pub uninterp spec fn csv_document_of(bytes: Seq<u8>) -> Result<
    (Seq<Seq<char>>, Seq<Seq<Seq<char>>>),
    Seq<char>,
>;

/// Relies on csv's `Reader` (built by `ReaderBuilder` with records of any
/// length allowed): its first record is the header, the others are the data
/// records, each field as text, or the text of its error; what it reads
/// depends on the bytes alone.
#[verifier::external_body]
fn parse_csv(bytes: &[u8]) -> (r: Result<(Vec<String>, Vec<Vec<String>>), String>)
    ensures
        match r {
            Ok((h, recs)) => csv_document_of(bytes@) == Ok::<_, Seq<char>>((texts(h@), rows_texts(recs@))),
            Err(m) => csv_document_of(bytes@) == Err::<(Seq<Seq<char>>, Seq<Seq<Seq<char>>>), _>(m@),
        },
{
    let mut reader = csv::ReaderBuilder::new().flexible(true).from_reader(bytes);
    let headers: Vec<String> = match reader.headers() {
        Ok(h) => h.iter().map(String::from).collect(),
        Err(e) => return Err(e.to_string()),
    };
    let mut records: Vec<Vec<String>> = Vec::new();
    for rec in reader.records() {
        match rec {
            Ok(r) => records.push(r.iter().map(String::from).collect()),
            Err(e) => return Err(e.to_string()),
        }
    }
    Ok((headers, records))
}

/// What reading a document yields: the parser's error text where it cannot
/// read the bytes, else what `build_csv_table` yields on what it read.
pub open spec fn read_csv_post(
    bytes: Seq<u8>,
    expected: Option<Seq<Seq<char>>>,
    r: Result<ExtractedData, CsvTableError>,
) -> bool {
    match csv_document_of(bytes) {
        Err(m) => r matches Err(CsvTableError::Malformed(x)) && x@ == m,
        Ok((h, recs)) => csv_table_post(h, recs, expected, r),
    }
}

/// The same outcome, compared by contents.
pub open spec fn same_csv_outcome(
    r1: Result<ExtractedData, CsvTableError>,
    r2: Result<ExtractedData, CsvTableError>,
) -> bool {
    match (r1, r2) {
        (Ok(t1), Ok(t2)) => t1.header_texts() == t2.header_texts() && t1.row_texts() == t2.row_texts(),
        (Err(CsvTableError::Malformed(a)), Err(CsvTableError::Malformed(b))) => a@ == b@,
        (Err(CsvTableError::Mismatch(a)), Err(CsvTableError::Mismatch(b))) => texts(a.expected@)
            == texts(b.expected@) && texts(a.discovered@) == texts(b.discovered@),
        (
            Err(CsvTableError::UnevenRecord { index: i1, fields: f1, columns: c1 }),
            Err(CsvTableError::UnevenRecord { index: i2, fields: f2, columns: c2 }),
        ) => i1 == i2 && f1 == f2 && c1 == c2,
        _ => false,
    }
}

/// Reads a delimited-text document into a table.
pub fn read_csv_bytes(bytes: &[u8], expected: &Option<Vec<String>>) -> (r: Result<
    ExtractedData,
    CsvTableError,
>)
    ensures
        read_csv_post(bytes@, opt_texts(*expected), r),
{
    match parse_csv(bytes) {
        Ok((headers, records)) => build_csv_table(&headers, &records, expected),
        Err(m) => Err(CsvTableError::Malformed(m)),
    }
}

/// Reading the same bytes against the same expected columns has no hidden
/// state: any two results that `read_csv_bytes` may return are the same
/// outcome.
pub proof fn lemma_read_csv_repeatable(
    bytes: Seq<u8>,
    expected: Option<Seq<Seq<char>>>,
    r1: Result<ExtractedData, CsvTableError>,
    r2: Result<ExtractedData, CsvTableError>,
)
    requires
        read_csv_post(bytes, expected, r1),
        read_csv_post(bytes, expected, r2),
    ensures
        same_csv_outcome(r1, r2),
{
    if let Ok((h, recs)) = csv_document_of(bytes) {
        if let (Err(CsvTableError::Mismatch(a)), Err(CsvTableError::Mismatch(b))) = (r1, r2) {
            lemma_sorted_unique(texts(a.expected@), texts(b.expected@));
        }
        if let (
            Err(CsvTableError::UnevenRecord { index: i1, .. }),
            Err(CsvTableError::UnevenRecord { index: i2, .. }),
        ) = (r1, r2) {
            if i1 < i2 {
                assert(recs[i1 as int].len() == h.len());
            } else if i2 < i1 {
                assert(recs[i2 as int].len() == h.len());
            }
        }
    }
}

} // verus!
