//! The search-engine adapter: the conventional `hits.hits` envelope of a
//! search response, and the `_source` document of each hit.

use vstd::prelude::*;
use crate::coerce::RawValue;
use crate::record::{records_fields, RawRecord};
use crate::schema::{opt_texts, MismatchError};
use crate::sources::{build_document_table, document_table_post};
use crate::table::ExtractedData;
use crate::schema::mismatch_text;
use crate::text::texts;

verus! {

/// A JSON value. Arrays and objects also carry their compact serialised
/// text, which is the cell they give when they stand in a field.
#[derive(Debug)]
pub enum JsonNode {
    Null,
    Bool(bool),
    /// A number, in its JSON text.
    Number(String),
    Str(String),
    Array(Vec<JsonNode>, String),
    Object(Vec<(String, JsonNode)>, String),
}

/// Why a search response could not be read.
#[derive(Debug)]
pub enum SearchError {
    /// The response lacks the `hits.hits` array.
    MissingHits,
    Mismatch(MismatchError),
}

/// The value of the first member called `key`, if any.
pub open spec fn member(members: Seq<(String, JsonNode)>, key: Seq<char>) -> Option<JsonNode>
    decreases members.len(),
{
    if members.len() == 0 {
        None
    } else if members[0].0@ == key {
        Some(members[0].1)
    } else {
        member(members.drop_first(), key)
    }
}

/// A field value of a hit's document as a native value: strings are text,
/// null is null, numbers and booleans keep their kind, and arrays and
/// objects stay one cell with their serialised text.
pub open spec fn json_raw(v: JsonNode) -> RawValue {
    match v {
        JsonNode::Null => RawValue::Null,
        JsonNode::Bool(b) => RawValue::Boolean(b),
        JsonNode::Number(s) => RawValue::Number(s),
        JsonNode::Str(s) => RawValue::Text(s),
        JsonNode::Array(_, t) => RawValue::Composite(t),
        JsonNode::Object(_, t) => RawValue::Composite(t),
    }
}

/// The hits of a response that has the `hits.hits` array.
pub open spec fn envelope_hits(resp: JsonNode) -> Option<Seq<JsonNode>> {
    match resp {
        JsonNode::Object(m, _) => match member(m@, "hits"@) {
            Some(JsonNode::Object(inner, _)) => match member(inner@, "hits"@) {
                Some(JsonNode::Array(h, _)) => Some(h@),
                _ => None,
            },
            _ => None,
        },
        _ => None,
    }
}

/// The fields of a hit's `_source` document, where it has one.
pub open spec fn hit_source(hit: JsonNode) -> Option<Seq<(String, RawValue)>> {
    match hit {
        JsonNode::Object(m, _) => match member(m@, "_source"@) {
            Some(JsonNode::Object(fs, _)) => Some(
                fs@.map_values(|f: (String, JsonNode)| (f.0, json_raw(f.1))),
            ),
            _ => None,
        },
        _ => None,
    }
}

/// The documents of the hits that have one, in order.
pub open spec fn hit_sources(hits: Seq<JsonNode>) -> Seq<Seq<(String, RawValue)>>
    decreases hits.len(),
{
    if hits.len() == 0 {
        Seq::empty()
    } else {
        let rest = hit_sources(hits.drop_last());
        match hit_source(hits.last()) {
            Some(f) => rest.push(f),
            None => rest,
        }
    }
}

/// The first member of `members` called `key`.
pub fn find_member<'a>(members: &'a Vec<(String, JsonNode)>, key: &String) -> (r: Option<&'a JsonNode>)
    ensures
        match r {
            Some(n) => member(members@, key@) == Some(*n),
            None => member(members@, key@) is None,
        },
{
    let mut i: usize = 0;
    assert(members@.skip(0) =~= members@);
    while i < members.len()
        invariant
            i <= members@.len(),
            member(members@, key@) == member(members@.skip(i as int), key@),
        decreases members@.len() - i,
    {
        if members[i].0 == *key {
            return Some(&members[i].1);
        }
        assert(members@.skip(i as int).drop_first() =~= members@.skip(i + 1));
        i = i + 1;
    }
    None
}

fn raw_of(v: &JsonNode) -> (r: RawValue)
    ensures
        r == json_raw(*v),
{
    match v {
        JsonNode::Null => RawValue::Null,
        JsonNode::Bool(b) => RawValue::Boolean(*b),
        JsonNode::Number(s) => RawValue::Number(s.clone()),
        JsonNode::Str(s) => RawValue::Text(s.clone()),
        JsonNode::Array(_, t) => RawValue::Composite(t.clone()),
        JsonNode::Object(_, t) => RawValue::Composite(t.clone()),
    }
}

/// The record of a hit's `_source` document, where it has one.
pub fn source_record(hit: &JsonNode) -> (r: Option<RawRecord>)
    ensures
        match r {
            Some(rec) => hit_source(*hit) == Some(rec.fields@),
            None => hit_source(*hit) is None,
        },
{
    if let JsonNode::Object(m, _) = hit {
        if let Some(JsonNode::Object(fs, _)) = find_member(m, &String::from_str("_source")) {
            let mut fields: Vec<(String, RawValue)> = Vec::new();
            let mut i: usize = 0;
            while i < fs.len()
                invariant
                    i <= fs@.len(),
                    fields@ == fs@.take(i as int).map_values(
                        |f: (String, JsonNode)| (f.0, json_raw(f.1)),
                    ),
                decreases fs@.len() - i,
            {
                fields.push((fs[i].0.clone(), raw_of(&fs[i].1)));
                assert(fields@ =~= fs@.take(i + 1).map_values(
                    |f: (String, JsonNode)| (f.0, json_raw(f.1)),
                ));
                i = i + 1;
            }
            assert(fs@.take(fs@.len() as int) =~= fs@);
            return Some(RawRecord { fields });
        }
    }
    None
}

/// Reads a search response into a table: the response must have the
/// `hits.hits` array; each hit with a `_source` document is a record, and
/// the records make a table as schema-less records do.
pub fn extract_search_hits(response: &JsonNode, expected: &Option<Vec<String>>) -> (r: Result<
    ExtractedData,
    SearchError,
>)
    ensures
        envelope_hits(*response) is None <==> r matches Err(SearchError::MissingHits),
        envelope_hits(*response) matches Some(h) ==> match r {
            Ok(t) => document_table_post(hit_sources(h), opt_texts(*expected), Ok(t)),
            Err(SearchError::Mismatch(e)) => document_table_post(
                hit_sources(h),
                opt_texts(*expected),
                Err(e),
            ),
            Err(SearchError::MissingHits) => false,
        },
{
    let hits = match response {
        JsonNode::Object(m, _) => match find_member(m, &String::from_str("hits")) {
            Some(JsonNode::Object(inner, _)) => match find_member(inner, &String::from_str("hits")) {
                Some(JsonNode::Array(h, _)) => h,
                _ => {
                    return Err(SearchError::MissingHits);
                },
            },
            _ => {
                return Err(SearchError::MissingHits);
            },
        },
        _ => {
            return Err(SearchError::MissingHits);
        },
    };
    let mut records: Vec<RawRecord> = Vec::new();
    let mut i: usize = 0;
    while i < hits.len()
        invariant
            i <= hits@.len(),
            records_fields(records@) == hit_sources(hits@.take(i as int)),
        decreases hits@.len() - i,
    {
        let ghost prev = records@;
        assert(hits@.take(i + 1).drop_last() =~= hits@.take(i as int));
        match source_record(&hits[i]) {
            Some(rec) => {
                records.push(rec);
                assert(records_fields(records@) =~= records_fields(prev).push(
                    records@[prev.len() as int].fields@,
                ));
            },
            None => {},
        }
        i = i + 1;
    }
    assert(hits@.take(hits@.len() as int) =~= hits@);
    match build_document_table(&records, expected) {
        Ok(t) => Ok(t),
        Err(e) => Err(SearchError::Mismatch(e)),
    }
}

impl SearchError {
    /// The human-readable description.
    pub fn message(&self) -> (r: String)
        ensures
            self matches SearchError::MissingHits ==> r@ == "Elasticsearch response missing 'hits.hits' array"@,
            self matches SearchError::Mismatch(e) ==> r@ == mismatch_text(
                texts(e.expected@),
                texts(e.discovered@),
            ),
    {
        match self {
            SearchError::MissingHits => String::from_str("Elasticsearch response missing 'hits.hits' array"),
            SearchError::Mismatch(e) => e.message(),
        }
    }
}

} // verus!
