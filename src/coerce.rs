//! Coercion of native values of any backend into the canonical string form.

use vstd::prelude::*;
use crate::text::{decimal_i64, decimal_text};

verus! {

/// A native value as a backend hands it over, classified by kind. Values
/// whose text only the backend's own library can render (floating-point
/// numbers, dates, decimals, object identifiers, nested values) arrive with
/// that rendering.
#[derive(Debug)]
pub enum RawValue {
    Null,
    Text(String),
    Integer(i64),
    Boolean(bool),
    /// A number in its natural decimal form.
    Number(String),
    /// A date, time, decimal, identifier or other structured scalar, in its
    /// canonical string form.
    Scalar(String),
    /// An array or nested document, in its debug form; never split into
    /// further columns.
    Composite(String),
    /// A native type that has no documented string form.
    Unsupported,
}

/// The canonical string of a value.
pub open spec fn coerced(v: RawValue) -> Seq<char> {
    match v {
        RawValue::Null => Seq::empty(),
        RawValue::Text(s) => s@,
        RawValue::Integer(i) => decimal_text(i as int),
        RawValue::Boolean(b) => if b {
            "true"@
        } else {
            "false"@
        },
        RawValue::Number(s) => s@,
        RawValue::Scalar(s) => s@,
        RawValue::Composite(s) => s@,
        RawValue::Unsupported => Seq::empty(),
    }
}

/// The canonical string of `v`; never fails.
pub fn coerce_value(v: &RawValue) -> (r: String)
    ensures
        r@ == coerced(*v),
{
    match v {
        RawValue::Null => String::new(),
        RawValue::Text(s) => s.clone(),
        RawValue::Integer(i) => decimal_i64(*i),
        RawValue::Boolean(b) => if *b {
            String::from_str("true")
        } else {
            String::from_str("false")
        },
        RawValue::Number(s) => s.clone(),
        RawValue::Scalar(s) => s.clone(),
        RawValue::Composite(s) => s.clone(),
        RawValue::Unsupported => String::new(),
    }
}

/// The outcome of each typed read of one relational cell, in the order in
/// which they are tried: `Some` where the read succeeded on a non-null value.
#[derive(Debug)]
pub struct SqlCell {
    pub text: Option<String>,
    pub integer: Option<i64>,
    /// A double, in its natural decimal form.
    pub double: Option<String>,
    pub boolean: Option<bool>,
    /// Structured JSON, serialised.
    pub json: Option<String>,
    /// A timestamp, in its canonical string form.
    pub timestamp: Option<String>,
    /// An arbitrary-precision decimal, in its canonical string form.
    pub decimal: Option<String>,
}

/// The value of the first typed read that succeeded; null when none did.
pub open spec fn sql_cell_value(c: SqlCell) -> RawValue {
    if c.text is Some {
        RawValue::Text(c.text.unwrap())
    } else if c.integer is Some {
        RawValue::Integer(c.integer.unwrap())
    } else if c.double is Some {
        RawValue::Number(c.double.unwrap())
    } else if c.boolean is Some {
        RawValue::Boolean(c.boolean.unwrap())
    } else if c.json is Some {
        RawValue::Scalar(c.json.unwrap())
    } else if c.timestamp is Some {
        RawValue::Scalar(c.timestamp.unwrap())
    } else if c.decimal is Some {
        RawValue::Scalar(c.decimal.unwrap())
    } else {
        RawValue::Null
    }
}

/// The canonical string of a relational cell.
pub open spec fn sql_cell_text(c: SqlCell) -> Seq<char> {
    coerced(sql_cell_value(c))
}

/// The canonical string of a relational cell: the first typed read that
/// succeeded, in the fixed order text, integer, double, boolean, JSON,
/// timestamp, decimal; empty when none did.
pub fn coerce_sql_cell(c: &SqlCell) -> (r: String)
    ensures
        r@ == sql_cell_text(*c),
{
    let v = match c {
        SqlCell { text: Some(s), .. } => RawValue::Text(s.clone()),
        SqlCell { integer: Some(i), .. } => RawValue::Integer(*i),
        SqlCell { double: Some(s), .. } => RawValue::Number(s.clone()),
        SqlCell { boolean: Some(b), .. } => RawValue::Boolean(*b),
        SqlCell { json: Some(s), .. } => RawValue::Scalar(s.clone()),
        SqlCell { timestamp: Some(s), .. } => RawValue::Scalar(s.clone()),
        SqlCell { decimal: Some(s), .. } => RawValue::Scalar(s.clone()),
        _ => RawValue::Null,
    };
    coerce_value(&v)
}

/// Coercion is total and follows the documented forms: absent and null
/// values and unsupported types give the empty string, text is kept as it
/// is, integers give their decimal text, booleans `true` or `false`.
pub proof fn lemma_coercion_forms(v: RawValue)
    ensures
        v is Null ==> coerced(v).len() == 0,
        v is Unsupported ==> coerced(v).len() == 0,
        v matches RawValue::Text(s) ==> coerced(v) == s@,
        v matches RawValue::Integer(i) ==> coerced(v) == decimal_text(i as int),
        v matches RawValue::Boolean(b) ==> coerced(v) == (if b {
            "true"@
        } else {
            "false"@
        }),
        v matches RawValue::Number(s) ==> coerced(v) == s@,
        v matches RawValue::Scalar(s) ==> coerced(v) == s@,
        v matches RawValue::Composite(s) ==> coerced(v) == s@,
{
}

} // verus!
