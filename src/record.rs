//! Schema-less records: a list of named fields, and the rows they give
//! under a fixed header list.

use vstd::prelude::*;
use crate::coerce::{coerce_value, coerced, RawValue};
use crate::text::texts;

verus! {

/// One unit of data of a schema-less source: field names with their values,
/// in the source's order.
#[derive(Debug)]
pub struct RawRecord {
    pub fields: Vec<(String, RawValue)>,
}

/// The value of the first field called `name`, if any.
pub open spec fn field_lookup(fields: Seq<(String, RawValue)>, name: Seq<char>) -> Option<RawValue>
    decreases fields.len(),
{
    if fields.len() == 0 {
        None
    } else if fields[0].0@ == name {
        Some(fields[0].1)
    } else {
        field_lookup(fields.drop_first(), name)
    }
}

/// The cell that a record gives for column `name`: the coerced value, or the
/// empty string where the record has no such field.
pub open spec fn cell_text(fields: Seq<(String, RawValue)>, name: Seq<char>) -> Seq<char> {
    match field_lookup(fields, name) {
        Some(v) => coerced(v),
        None => Seq::empty(),
    }
}

/// The names of a record's fields, in order.
pub open spec fn field_names(fields: Seq<(String, RawValue)>) -> Seq<Seq<char>> {
    fields.map_values(|f: (String, RawValue)| f.0@)
}

/// The row that a record gives under `headers`.
pub open spec fn record_row(fields: Seq<(String, RawValue)>, headers: Seq<Seq<char>>) -> Seq<Seq<char>> {
    headers.map_values(|h: Seq<char>| cell_text(fields, h))
}

/// The fields of each record.
pub open spec fn records_fields(recs: Seq<RawRecord>) -> Seq<Seq<(String, RawValue)>> {
    recs.map_values(|r: RawRecord| r.fields@)
}

/// The cell that `fields` gives for column `name`.
pub fn lookup_text(fields: &Vec<(String, RawValue)>, name: &String) -> (r: String)
    ensures
        r@ == cell_text(fields@, name@),
{
    let mut i: usize = 0;
    assert(fields@.skip(0) =~= fields@);
    while i < fields.len()
        invariant
            i <= fields@.len(),
            field_lookup(fields@, name@) == field_lookup(fields@.skip(i as int), name@),
        decreases fields@.len() - i,
    {
        if fields[i].0 == *name {
            return coerce_value(&fields[i].1);
        }
        assert(fields@.skip(i as int).drop_first() =~= fields@.skip(i + 1));
        i = i + 1;
    }
    String::new()
}

/// The names of the fields of `rec`, in order.
pub fn field_names_of(rec: &RawRecord) -> (r: Vec<String>)
    ensures
        texts(r@) == field_names(rec.fields@),
{
    let mut r: Vec<String> = Vec::new();
    let mut i: usize = 0;
    while i < rec.fields.len()
        invariant
            i <= rec.fields@.len(),
            texts(r@) == field_names(rec.fields@.take(i as int)),
        decreases rec.fields@.len() - i,
    {
        let ghost prev = r@;
        r.push(rec.fields[i].0.clone());
        assert(texts(r@) =~= texts(prev).push(rec.fields@[i as int].0@));
        assert(field_names(rec.fields@.take(i + 1)) =~= field_names(rec.fields@.take(i as int)).push(
            rec.fields@[i as int].0@,
        ));
        i = i + 1;
    }
    assert(rec.fields@.take(rec.fields@.len() as int) =~= rec.fields@);
    r
}

/// The row that `fields` gives under `headers`: one cell per header.
pub fn record_to_row(fields: &Vec<(String, RawValue)>, headers: &Vec<String>) -> (r: Vec<String>)
    ensures
        texts(r@) == record_row(fields@, texts(headers@)),
        r@.len() == headers@.len(),
{
    let mut r: Vec<String> = Vec::new();
    let mut j: usize = 0;
    while j < headers.len()
        invariant
            j <= headers@.len(),
            texts(r@) == record_row(fields@, texts(headers@.take(j as int))),
        decreases headers@.len() - j,
    {
        let ghost prev = r@;
        let cell = lookup_text(fields, &headers[j]);
        r.push(cell);
        assert(texts(r@) =~= texts(prev).push(cell@));
        assert(texts(headers@.take(j + 1)) =~= texts(headers@.take(j as int)).push(headers@[j as int]@));
        assert(record_row(fields@, texts(headers@.take(j + 1))) =~= record_row(
            fields@,
            texts(headers@.take(j as int)),
        ).push(cell_text(fields@, headers@[j as int]@)));
        j = j + 1;
    }
    assert(headers@.take(headers@.len() as int) =~= headers@);
    r
}

} // verus!
