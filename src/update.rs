//! The remote update client's logic: the request's address and body, and
//! what a response means.

use vstd::prelude::*;
use crate::text::{decimal_text, decimal_u64, digit_char};

verus! {

/// The API's base address.
pub const API_BASE_URL: &'static str = "https://true.tabs.sale/fusion/v1";

/// A lowercase hexadecimal digit (for `d < 16`).
pub open spec fn hex_digit(d: int) -> char {
    if d < 10 {
        digit_char(d as nat)
    } else if d == 10 {
        'a'
    } else if d == 11 {
        'b'
    } else if d == 12 {
        'c'
    } else if d == 13 {
        'd'
    } else if d == 14 {
        'e'
    } else {
        'f'
    }
}

/// How a character stands inside a JSON string literal: quote and backslash
/// escaped, the five named control characters by their short escapes, the
/// other control characters as `\u00XX`, everything else as it is.
pub open spec fn json_escaped_char(c: char) -> Seq<char> {
    if c == '"' {
        seq!['\\', '"']
    } else if c == '\\' {
        seq!['\\', '\\']
    } else if c == '\x08' {
        seq!['\\', 'b']
    } else if c == '\x0c' {
        seq!['\\', 'f']
    } else if c == '\n' {
        seq!['\\', 'n']
    } else if c == '\r' {
        seq!['\\', 'r']
    } else if c == '\t' {
        seq!['\\', 't']
    } else if (c as int) < 32 {
        seq!['\\', 'u', '0', '0', hex_digit((c as int) / 16), hex_digit((c as int) % 16)]
    } else {
        seq![c]
    }
}

/// The characters of a text, each as it stands inside a JSON string.
pub open spec fn json_escaped(s: Seq<char>) -> Seq<char>
    decreases s.len(),
{
    if s.len() == 0 {
        Seq::empty()
    } else {
        json_escaped(s.drop_last()) + json_escaped_char(s.last())
    }
}

/// The JSON string literal of a text.
pub open spec fn json_quoted(s: Seq<char>) -> Seq<char> {
    seq!['"'] + json_escaped(s) + seq!['"']
}

/// Whether serde_json reads a text as one JSON value.
pub uninterp spec fn json_valid_of(s: Seq<char>) -> bool;

/// The canonical reason phrase of an HTTP status code, where it has one.
pub uninterp spec fn status_reason_of(code: u16) -> Option<Seq<char>>;

/// Relies on `serde_json::to_string` on a `str`: the string literal that
/// its escape table gives; serialising a `str` does not fail.
#[verifier::external_body]
fn quote_json(s: &str) -> (r: String)
    ensures
        r@ == json_quoted(s@),
{
    match serde_json::to_string(s) {
        Ok(q) => q,
        Err(_) => String::new(),
    }
}

/// Relies on `serde_json::from_str` into a `serde_json::Value`: whether
/// the text is one JSON value.
#[verifier::external_body]
fn is_json(s: &str) -> (r: bool)
    ensures
        r == json_valid_of(s@),
{
    serde_json::from_str::<serde_json::Value>(s).is_ok()
}

/// Relies on `StatusCode::from_u16` and `StatusCode::canonical_reason`:
/// the reason phrase of a status code.
#[verifier::external_body]
fn canonical_reason(code: u16) -> (r: Option<String>)
    ensures
        match r {
            Some(s) => status_reason_of(code) == Some(s@),
            None => status_reason_of(code) is None,
        },
{
    match reqwest::StatusCode::from_u16(code) {
        Ok(c) => c.canonical_reason().map(String::from),
        Err(_) => None,
    }
}

/// Why an update failed.
#[derive(Debug)]
pub enum UpdateError {
    /// The field updates are not one JSON value.
    InvalidFields,
    /// The API answered with a status outside 200..=299.
    Rejected { status: u16, reason: Option<String>, body: String },
}

/// The address of the records of a datasheet.
pub open spec fn records_url_text(datasheet_id: Seq<char>) -> Seq<char> {
    API_BASE_URL@ + "/datasheets/"@ + datasheet_id + "/records"@
}

/// The request body: a batch of one record update, with the field key.
pub open spec fn update_body_text(record_id: Seq<char>, field_key: Seq<char>, fields: Seq<char>) -> Seq<char> {
    "{\"records\":[{\"recordId\":"@ + json_quoted(record_id) + ",\"fields\":"@ + fields + "}],\"fieldKey\":"@
        + json_quoted(field_key) + "}"@
}

/// A status code that means success.
pub open spec fn success_status(status: u16) -> bool {
    200 <= status <= 299
}

/// The status as the HTTP library shows it: the code and its reason phrase.
pub open spec fn status_text(status: u16, reason: Option<Seq<char>>) -> Seq<char> {
    decimal_text(status as int) + " "@ + match reason {
        Some(r) => r,
        None => "<unknown status code>"@,
    }
}

pub open spec fn opt_view(s: Option<String>) -> Option<Seq<char>> {
    match s {
        Some(s) => Some(s@),
        None => None,
    }
}

impl UpdateError {
    /// The human-readable description; a rejection names the status and
    /// the response body as they came.
    pub fn message(&self) -> (r: String)
        ensures
            self matches UpdateError::InvalidFields ==> r@ == "Invalid JSON for field updates"@,
            self matches UpdateError::Rejected { status, reason, body } ==> r@
                == "API request failed with status: "@ + status_text(*status, opt_view(*reason))
                + ". Response body: "@ + body@,
    {
        match self {
            UpdateError::InvalidFields => String::from_str("Invalid JSON for field updates"),
            UpdateError::Rejected { status, reason, body } => {
                let mut s = String::from_str("API request failed with status: ");
                s.append(decimal_u64(*status as u64).as_str());
                s.append(" ");
                match reason {
                    Some(t) => s.append(t.as_str()),
                    None => s.append("<unknown status code>"),
                }
                s.append(". Response body: ");
                s.append(body.as_str());
                s
            },
        }
    }
}

/// The address of the records of `datasheet_id`.
pub fn records_url(datasheet_id: &str) -> (r: String)
    ensures
        r@ == records_url_text(datasheet_id@),
{
    let mut s = String::from_str(API_BASE_URL);
    s.append("/datasheets/");
    s.append(datasheet_id);
    s.append("/records");
    s
}

/// The request body that updates `fields_json` (a JSON value) of one
/// record, or `InvalidFields` where it is not a JSON value.
pub fn update_body(record_id: &str, field_key: &str, fields_json: &str) -> (r: Result<String, UpdateError>)
    ensures
        !json_valid_of(fields_json@) <==> r matches Err(UpdateError::InvalidFields),
        r matches Ok(b) ==> b@ == update_body_text(record_id@, field_key@, fields_json@),
        r is Err ==> r matches Err(UpdateError::InvalidFields),
{
    if !is_json(fields_json) {
        return Err(UpdateError::InvalidFields);
    }
    let mut s = String::from_str("{\"records\":[{\"recordId\":");
    s.append(quote_json(record_id).as_str());
    s.append(",\"fields\":");
    s.append(fields_json);
    s.append("}],\"fieldKey\":");
    s.append(quote_json(field_key).as_str());
    s.append("}");
    Ok(s)
}

/// What a response means: its body on a success status, else a rejection
/// that keeps the status and the body as they came.
pub fn classify_response(status: u16, body: String) -> (r: Result<String, UpdateError>)
    ensures
        success_status(status) ==> (r matches Ok(b) && b@ == body@),
        !success_status(status) ==> (r matches Err(UpdateError::Rejected { status: s, reason, body: b })
            && s == status && b@ == body@ && opt_view(reason) == status_reason_of(status)),
{
    if 200 <= status && status <= 299 {
        Ok(body)
    } else {
        Err(UpdateError::Rejected { status, reason: canonical_reason(status), body })
    }
}

} // verus!
