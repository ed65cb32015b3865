//! The source adapters' shared logic: from raw units of data to a canonical
//! table, with one reconciliation against the expected columns.

use vstd::prelude::*;
use crate::coerce::{coerce_sql_cell, sql_cell_text, SqlCell};
use crate::record::{field_names, field_names_of, record_row, record_to_row, RawRecord, records_fields};
use crate::schema::{columns_accepted, opt_texts, reconcile, reconcile_post, MismatchError};
use crate::table::{rows_texts, ExtractedData};
use crate::text::{decimal_text, decimal_u64, sort_texts, sorted_texts, texts};
use crate::schema::mismatch_text;

verus! {

broadcast use vstd::seq_lib::group_to_multiset_ensures;

/// What building a table from schema-less records yields: an empty table for
/// no records; else the first record's field names in ascending order as
/// headers, checked once against `expected`, and one row per record.
pub open spec fn document_table_post(
    recs: Seq<Seq<(String, crate::coerce::RawValue)>>,
    expected: Option<Seq<Seq<char>>>,
    r: Result<ExtractedData, MismatchError>,
) -> bool {
    if recs.len() == 0 {
        r matches Ok(t) && t.headers@.len() == 0 && t.rows@.len() == 0
    } else {
        let keys = field_names(recs[0]);
        &&& (r is Ok <==> columns_accepted(keys, expected))
        &&& (r matches Ok(t) ==> {
            &&& t.wf()
            &&& sorted_texts(t.header_texts())
            &&& t.header_texts().to_multiset() == keys.to_multiset()
            &&& t.row_texts() == recs.map_values(
                |f: Seq<(String, crate::coerce::RawValue)>| record_row(f, t.header_texts()),
            )
        })
        &&& (r matches Err(e) ==> {
            &&& sorted_texts(texts(e.discovered@))
            &&& texts(e.discovered@).to_multiset() == keys.to_multiset()
            &&& reconcile_post(texts(e.discovered@), expected, Err(e))
        })
    }
}

/// Builds the table of schema-less records: headers fixed from the first
/// record, sorted; a later record's missing fields give empty cells and its
/// extra fields are dropped.
pub fn build_document_table(records: &Vec<RawRecord>, expected: &Option<Vec<String>>) -> (r: Result<
    ExtractedData,
    MismatchError,
>)
    ensures
        document_table_post(records_fields(records@), opt_texts(*expected), r),
{
    if records.len() == 0 {
        return Ok(ExtractedData::empty());
    }
    let keys = field_names_of(&records[0]);
    let headers = sort_texts(&keys);
    let checked = reconcile(&headers, expected);
    if let Err(e) = checked {
        return Err(e);
    }
    let ghost hs = texts(headers@);
    let mut rows: Vec<Vec<String>> = Vec::new();
    let mut i: usize = 0;
    while i < records.len()
        invariant
            i <= records@.len(),
            hs == texts(headers@),
            rows_texts(rows@) == records_fields(records@.take(i as int)).map_values(
                |f: Seq<(String, crate::coerce::RawValue)>| record_row(f, hs),
            ),
            forall|k: int| 0 <= k < rows@.len() ==> (#[trigger] rows@[k])@.len() == headers@.len(),
        decreases records@.len() - i,
    {
        let row = record_to_row(&records[i].fields, &headers);
        let ghost prev = rows@;
        rows.push(row);
        assert(rows_texts(rows@) =~= rows_texts(prev).push(texts(row@)));
        assert(records_fields(records@.take(i + 1)) =~= records_fields(records@.take(i as int)).push(
            records@[i as int].fields@,
        ));
        assert(records_fields(records@.take(i + 1)).map_values(
            |f: Seq<(String, crate::coerce::RawValue)>| record_row(f, hs),
        ) =~= records_fields(records@.take(i as int)).map_values(
            |f: Seq<(String, crate::coerce::RawValue)>| record_row(f, hs),
        ).push(record_row(records@[i as int].fields@, hs)));
        i = i + 1;
    }
    assert(records@.take(records@.len() as int) =~= records@);
    Ok(ExtractedData { headers, rows })
}

/// The row that relational cells give under `n` columns: one cell per
/// column, empty where the row has no value at that position.
pub open spec fn sql_row(cells: Seq<SqlCell>, n: nat) -> Seq<Seq<char>> {
    Seq::new(n, |j: int| if j < cells.len() { sql_cell_text(cells[j]) } else { Seq::empty() })
}

/// Builds the table of a relational result: headers in the declared column
/// order, checked once (ignoring order) against `expected`; one row per
/// result row. A result with no rows gives the empty table unchecked. A
/// mismatch reports the expected columns in the caller's order.
pub fn build_relational_table(
    columns: &Vec<String>,
    rows: &Vec<Vec<SqlCell>>,
    expected: &Option<Vec<String>>,
) -> (r: Result<ExtractedData, MismatchError>)
    ensures
        rows@.len() == 0 ==> (r matches Ok(t) && t.headers@.len() == 0 && t.rows@.len() == 0),
        rows@.len() > 0 ==> (r is Ok <==> columns_accepted(texts(columns@), opt_texts(*expected))),
        rows@.len() > 0 ==> (r matches Ok(t) ==> {
            &&& t.wf()
            &&& t.header_texts() == texts(columns@)
            &&& t.row_texts() == rows@.map_values(|c: Vec<SqlCell>| sql_row(c@, columns@.len()))
        }),
        r matches Err(e) ==> (expected matches Some(x) && texts(e.expected@) == texts(x@) && texts(
            e.discovered@,
        ) == texts(columns@)),
{
    if rows.len() == 0 {
        return Ok(ExtractedData::empty());
    }
    match reconcile(columns, expected) {
        Err(e) => {
            let given = match expected {
                Some(x) => crate::table::copy_texts(x),
                None => e.expected,
            };
            return Err(MismatchError { expected: given, discovered: e.discovered });
        },
        Ok(()) => {},
    }
    let n = columns.len();
    let mut out: Vec<Vec<String>> = Vec::new();
    let mut i: usize = 0;
    while i < rows.len()
        invariant
            i <= rows@.len(),
            n == columns@.len(),
            rows_texts(out@) == rows@.take(i as int).map_values(|c: Vec<SqlCell>| sql_row(c@, n as nat)),
            forall|k: int| 0 <= k < out@.len() ==> (#[trigger] out@[k])@.len() == n,
        decreases rows@.len() - i,
    {
        let cells = &rows[i];
        let mut row: Vec<String> = Vec::new();
        let mut j: usize = 0;
        while j < n
            invariant
                j <= n,
                texts(row@) == sql_row(cells@, n as nat).take(j as int),
            decreases n - j,
        {
            let cell = if j < cells.len() {
                coerce_sql_cell(&cells[j])
            } else {
                String::new()
            };
            let ghost prev = row@;
            row.push(cell);
            assert(texts(row@) =~= texts(prev).push(cell@));
            assert(texts(row@) =~= sql_row(cells@, n as nat).take(j + 1));
            j = j + 1;
        }
        assert(texts(row@) =~= sql_row(cells@, n as nat));
        let ghost prev = out@;
        out.push(row);
        assert(rows_texts(out@) =~= rows_texts(prev).push(texts(row@)));
        assert(rows@.take(i + 1).map_values(|c: Vec<SqlCell>| sql_row(c@, n as nat)) =~= rows@.take(
            i as int,
        ).map_values(|c: Vec<SqlCell>| sql_row(c@, n as nat)).push(sql_row(rows@[i as int]@, n as nat)));
        i = i + 1;
    }
    assert(rows@.take(rows@.len() as int) =~= rows@);
    Ok(ExtractedData { headers: crate::table::copy_texts(columns), rows: out })
}

/// The table of a key/value lookup, and whether an expected column list was
/// supplied and ignored (such a source's columns are fixed).
#[derive(Debug)]
pub struct KeyValueExtraction {
    pub table: ExtractedData,
    pub expected_ignored: bool,
}

/// Builds the table of a key/value lookup: the fixed headers `Key` and
/// `Value`, one row per pair, also when there are none.
pub fn build_key_value_table(pairs: &Vec<(String, String)>, expected: &Option<Vec<String>>) -> (r:
    KeyValueExtraction)
    ensures
        r.table.header_texts() == seq!["Key"@, "Value"@],
        r.table.wf(),
        r.table.row_texts() == pairs@.map_values(|p: (String, String)| seq![p.0@, p.1@]),
        r.expected_ignored == expected is Some,
{
    let mut headers: Vec<String> = Vec::new();
    headers.push(String::from_str("Key"));
    headers.push(String::from_str("Value"));
    assert(texts(headers@) =~= seq!["Key"@, "Value"@]);
    let mut rows: Vec<Vec<String>> = Vec::new();
    let mut i: usize = 0;
    while i < pairs.len()
        invariant
            i <= pairs@.len(),
            headers@.len() == 2,
            rows_texts(rows@) == pairs@.take(i as int).map_values(
                |p: (String, String)| seq![p.0@, p.1@],
            ),
            forall|k: int| 0 <= k < rows@.len() ==> (#[trigger] rows@[k])@.len() == 2,
        decreases pairs@.len() - i,
    {
        let mut row: Vec<String> = Vec::new();
        row.push(pairs[i].0.clone());
        row.push(pairs[i].1.clone());
        let ghost prev = rows@;
        rows.push(row);
        assert(texts(row@) =~= seq![pairs@[i as int].0@, pairs@[i as int].1@]);
        assert(rows_texts(rows@) =~= rows_texts(prev).push(texts(row@)));
        assert(pairs@.take(i + 1).map_values(|p: (String, String)| seq![p.0@, p.1@]) =~= pairs@.take(
            i as int,
        ).map_values(|p: (String, String)| seq![p.0@, p.1@]).push(
            seq![pairs@[i as int].0@, pairs@[i as int].1@],
        ));
        i = i + 1;
    }
    assert(pairs@.take(pairs@.len() as int) =~= pairs@);
    KeyValueExtraction { table: ExtractedData { headers, rows }, expected_ignored: expected.is_some() }
}

/// Why a flat-file extraction failed.
#[derive(Debug)]
pub enum CsvTableError {
    /// The bytes are not a readable delimited-text document; the parser's
    /// own description.
    Malformed(String),
    Mismatch(MismatchError),
    /// Record `index` (counting data records from 0) has `fields` fields
    /// where the header has `columns`.
    UnevenRecord { index: usize, fields: usize, columns: usize },
}

/// What building a table from a flat file's header `h` and records `recs`
/// yields: the header checked first, then every record, which must have one
/// field per header and is taken as it is.
pub open spec fn csv_table_post(
    h: Seq<Seq<char>>,
    recs: Seq<Seq<Seq<char>>>,
    expected: Option<Seq<Seq<char>>>,
    r: Result<ExtractedData, CsvTableError>,
) -> bool {
    if !columns_accepted(h, expected) {
        r matches Err(CsvTableError::Mismatch(e)) && reconcile_post(h, expected, Err(e))
    } else {
        &&& (r is Ok <==> forall|i: int| 0 <= i < recs.len() ==> (#[trigger] recs[i]).len() == h.len())
        &&& (r matches Ok(t) ==> t.wf() && t.header_texts() == h && t.row_texts() == recs)
        &&& (r matches Err(e) ==> e matches CsvTableError::UnevenRecord { index, fields, columns }
            && index < recs.len() && fields == recs[index as int].len() && columns == h.len()
            && fields != columns && forall|k: int|
            0 <= k < index ==> (#[trigger] recs[k]).len() == h.len())
    }
}

/// Builds the table of a flat file: headers as the file declares them,
/// checked once (ignoring order) against `expected`, then every record
/// taken as it is, which must have one field per header.
pub fn build_csv_table(
    headers: &Vec<String>,
    records: &Vec<Vec<String>>,
    expected: &Option<Vec<String>>,
) -> (r: Result<ExtractedData, CsvTableError>)
    ensures
        csv_table_post(texts(headers@), rows_texts(records@), opt_texts(*expected), r),
{
    match reconcile(headers, expected) {
        Err(e) => {
            return Err(CsvTableError::Mismatch(e));
        },
        Ok(()) => {},
    }
    assert(columns_accepted(texts(headers@), opt_texts(*expected)));
    let mut rows: Vec<Vec<String>> = Vec::new();
    let mut i: usize = 0;
    while i < records.len()
        invariant
            i <= records@.len(),
            columns_accepted(texts(headers@), opt_texts(*expected)),
            rows_texts(rows@) == rows_texts(records@.take(i as int)),
            forall|k: int| 0 <= k < i ==> (#[trigger] records@[k])@.len() == headers@.len(),
            forall|k: int| 0 <= k < rows@.len() ==> (#[trigger] rows@[k])@.len() == headers@.len(),
        decreases records@.len() - i,
    {
        assert(rows_texts(records@)[i as int].len() == records@[i as int]@.len());
        if records[i].len() != headers.len() {
            assert(forall|k: int| 0 <= k < i ==> (#[trigger] rows_texts(records@)[k]).len() == records@[k]@.len());
            return Err(
                CsvTableError::UnevenRecord {
                    index: i,
                    fields: records[i].len(),
                    columns: headers.len(),
                },
            );
        }
        let row = crate::table::copy_texts(&records[i]);
        let ghost prev = rows@;
        rows.push(row);
        assert(rows_texts(rows@) =~= rows_texts(prev).push(texts(row@)));
        assert(rows_texts(records@.take(i + 1)) =~= rows_texts(records@.take(i as int)).push(
            texts(records@[i as int]@),
        ));
        i = i + 1;
    }
    assert(records@.take(records@.len() as int) =~= records@);
    assert(forall|k: int| 0 <= k < records@.len() ==> (#[trigger] rows_texts(records@)[k]).len() == records@[k]@.len());
    Ok(ExtractedData { headers: crate::table::copy_texts(headers), rows })
}

impl CsvTableError {
    /// The human-readable description.
    pub fn message(&self) -> (r: String)
        ensures
            self matches CsvTableError::Malformed(m) ==> r@ == m@,
            self matches CsvTableError::Mismatch(e) ==> r@ == mismatch_text(
                texts(e.expected@),
                texts(e.discovered@),
            ),
            self matches CsvTableError::UnevenRecord { index, fields, columns } ==> r@ == "record "@
                + decimal_text(index as int) + " has "@ + decimal_text(fields as int)
                + " fields where the header has "@ + decimal_text(columns as int),
    {
        match self {
            CsvTableError::Malformed(m) => m.clone(),
            CsvTableError::Mismatch(e) => e.message(),
            CsvTableError::UnevenRecord { index, fields, columns } => {
                let mut s = String::from_str("record ");
                s.append(decimal_u64(*index as u64).as_str());
                s.append(" has ");
                s.append(decimal_u64(*fields as u64).as_str());
                s.append(" fields where the header has ");
                s.append(decimal_u64(*columns as u64).as_str());
                s
            },
        }
    }
}

} // verus!
