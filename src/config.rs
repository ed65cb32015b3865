//! The choices a caller makes: action, source kind, the parameters each
//! source needs, the destination and the expected column list.

use vstd::prelude::*;
use vstd::string::*;
use crate::text::texts;

verus! {

/// The list of strings that serde_json reads from a JSON text, or none
/// where the text is not a JSON array of strings.
pub uninterp spec fn json_string_list_of(s: Seq<char>) -> Option<Seq<Seq<char>>>;

/// Relies on `serde_json::from_str` into a `Vec<String>`: the array's
/// strings in order, or its error.
#[verifier::external_body]
fn read_string_list(s: &str) -> (r: Result<Vec<String>, serde_json::Error>)
    ensures
        match r {
            Ok(v) => json_string_list_of(s@) == Some(texts(v@)),
            Err(_) => json_string_list_of(s@) is None,
        },
{
    serde_json::from_str::<Vec<String>>(s)
}

#[verifier::external_type_specification]
#[verifier::external_body]
pub struct ExJsonError(serde_json::Error);

/// Reads an expected column list written as a JSON array of strings; the
/// error names the parser's complaint.
pub fn parse_json_string(arg: &str) -> (r: Result<Vec<String>, String>)
    ensures
        json_string_list_of(arg@) is None <==> r is Err,
        r matches Ok(v) ==> json_string_list_of(arg@) == Some(texts(v@)),
        r matches Err(m) ==> m@.len() >= "Invalid JSON string: "@.len() && m@.take(
            "Invalid JSON string: "@.len() as int,
        ) == "Invalid JSON string: "@,
{
    match read_string_list(arg) {
        Ok(v) => Ok(v),
        Err(e) => {
            let mut m = String::from_str("Invalid JSON string: ");
            let ghost prefix = m@;
            m.append(e.to_string().as_str());
            assert(m@.take(prefix.len() as int) =~= prefix);
            Err(m)
        },
    }
}

/// `c` with ASCII capitals made small.
pub open spec fn ascii_lower(c: char) -> char {
    if 'A' <= c && c <= 'Z' {
        ((c as u8) + 32) as char
    } else {
        c
    }
}

/// The same text up to ASCII case.
pub open spec fn same_ignoring_case(a: Seq<char>, b: Seq<char>) -> bool {
    a.len() == b.len() && forall|i: int| 0 <= i < a.len() ==> ascii_lower(#[trigger] a[i]) == ascii_lower(b[i])
}

fn lower(c: char) -> (r: char)
    ensures
        r == ascii_lower(c),
{
    if 'A' <= c && c <= 'Z' {
        ((c as u8) + 32) as char
    } else {
        c
    }
}

/// Whether `a` and `b` are the same text up to ASCII case.
pub fn eq_ignoring_case(a: &str, b: &str) -> (r: bool)
    ensures
        r == same_ignoring_case(a@, b@),
{
    let n = a.unicode_len();
    if n != b.unicode_len() {
        return false;
    }
    let mut i: usize = 0;
    while i < n
        invariant
            i <= n,
            n == a@.len(),
            n == b@.len(),
            forall|k: int| 0 <= k < i ==> ascii_lower(#[trigger] a@[k]) == ascii_lower(b@[k]),
        decreases n - i,
    {
        if lower(a.get_char(i)) != lower(b.get_char(i)) {
            return false;
        }
        i = i + 1;
    }
    true
}

/// Whether a destination names an `.xlsx` file (in any ASCII case).
pub open spec fn xlsx_path(p: Seq<char>) -> bool {
    p.len() >= 5 && same_ignoring_case(p.subrange(p.len() - 5, p.len() as int), ".xlsx"@)
}

/// Whether the destination names an `.xlsx` file, the only output format.
pub fn is_xlsx_path(path: &str) -> (r: bool)
    ensures
        r == xlsx_path(path@),
{
    let n = path.unicode_len();
    if n < 5 {
        return false;
    }
    let tail = path.substring_char(n - 5, n);
    eq_ignoring_case(tail, ".xlsx")
}

/// What to do.
#[derive(PartialEq, Eq, Structural, Clone, Copy, Debug)]
pub enum Action {
    Extract,
    Update,
}

/// Where the data comes from.
#[derive(PartialEq, Eq, Structural, Clone, Copy, Debug)]
pub enum SourceKind {
    Postgres,
    MySql,
    Sqlite,
    MongoDb,
    Redis,
    Elasticsearch,
    Csv,
    TrueTabs,
}

/// The action that a name selects, up to ASCII case.
pub open spec fn action_named(s: Seq<char>) -> Option<Action> {
    if same_ignoring_case(s, "extract"@) {
        Some(Action::Extract)
    } else if same_ignoring_case(s, "update"@) {
        Some(Action::Update)
    } else {
        None
    }
}

/// The source kind that a name selects, up to ASCII case.
pub open spec fn source_named(s: Seq<char>) -> Option<SourceKind> {
    if same_ignoring_case(s, "postgres"@) {
        Some(SourceKind::Postgres)
    } else if same_ignoring_case(s, "mysql"@) {
        Some(SourceKind::MySql)
    } else if same_ignoring_case(s, "sqlite"@) {
        Some(SourceKind::Sqlite)
    } else if same_ignoring_case(s, "mongodb"@) {
        Some(SourceKind::MongoDb)
    } else if same_ignoring_case(s, "redis"@) {
        Some(SourceKind::Redis)
    } else if same_ignoring_case(s, "elasticsearch"@) {
        Some(SourceKind::Elasticsearch)
    } else if same_ignoring_case(s, "csv"@) {
        Some(SourceKind::Csv)
    } else if same_ignoring_case(s, "truetabs"@) {
        Some(SourceKind::TrueTabs)
    } else {
        None
    }
}

/// The action named `s`.
pub fn parse_action(s: &str) -> (r: Option<Action>)
    ensures
        r == action_named(s@),
{
    if eq_ignoring_case(s, "extract") {
        Some(Action::Extract)
    } else if eq_ignoring_case(s, "update") {
        Some(Action::Update)
    } else {
        None
    }
}

/// The source kind named `s`.
pub fn parse_source_kind(s: &str) -> (r: Option<SourceKind>)
    ensures
        r == source_named(s@),
{
    if eq_ignoring_case(s, "postgres") {
        Some(SourceKind::Postgres)
    } else if eq_ignoring_case(s, "mysql") {
        Some(SourceKind::MySql)
    } else if eq_ignoring_case(s, "sqlite") {
        Some(SourceKind::Sqlite)
    } else if eq_ignoring_case(s, "mongodb") {
        Some(SourceKind::MongoDb)
    } else if eq_ignoring_case(s, "redis") {
        Some(SourceKind::Redis)
    } else if eq_ignoring_case(s, "elasticsearch") {
        Some(SourceKind::Elasticsearch)
    } else if eq_ignoring_case(s, "csv") {
        Some(SourceKind::Csv)
    } else if eq_ignoring_case(s, "truetabs") {
        Some(SourceKind::TrueTabs)
    } else {
        None
    }
}

/// Which of the optional parameters the caller supplied.
#[derive(Clone, Copy, Debug)]
pub struct Supplied {
    pub query: bool,
    pub db_name: bool,
    pub collection: bool,
    pub key_pattern: bool,
    pub index: bool,
    pub record_id: bool,
    pub field_updates: bool,
}

/// A parameter that the chosen source needs and the caller left out.
#[derive(PartialEq, Eq, Structural, Clone, Copy, Debug)]
pub enum MissingParameter {
    Query,
    DbName,
    Collection,
    KeyPattern,
    Index,
    RecordId,
    FieldUpdates,
}

/// The first parameter that `kind` needs and `p` lacks: a query for the
/// relational sources; database and collection names for the document
/// store; a key pattern for the key-value store; an index, then a query,
/// for the search engine; a datasheet (given as collection), a record and
/// field updates for the remote update; nothing for flat files.
pub open spec fn first_missing(kind: SourceKind, p: Supplied) -> Option<MissingParameter> {
    match kind {
        SourceKind::Postgres | SourceKind::MySql | SourceKind::Sqlite => if !p.query {
            Some(MissingParameter::Query)
        } else {
            None
        },
        SourceKind::MongoDb => if !p.db_name {
            Some(MissingParameter::DbName)
        } else if !p.collection {
            Some(MissingParameter::Collection)
        } else {
            None
        },
        SourceKind::Redis => if !p.key_pattern {
            Some(MissingParameter::KeyPattern)
        } else {
            None
        },
        SourceKind::Elasticsearch => if !p.index {
            Some(MissingParameter::Index)
        } else if !p.query {
            Some(MissingParameter::Query)
        } else {
            None
        },
        SourceKind::Csv => None,
        SourceKind::TrueTabs => if !p.collection {
            Some(MissingParameter::Collection)
        } else if !p.record_id {
            Some(MissingParameter::RecordId)
        } else if !p.field_updates {
            Some(MissingParameter::FieldUpdates)
        } else {
            None
        },
    }
}

/// The first parameter that `kind` needs and `p` lacks, if any.
pub fn missing_parameter(kind: SourceKind, p: Supplied) -> (r: Option<MissingParameter>)
    ensures
        r == first_missing(kind, p),
{
    match kind {
        SourceKind::Postgres | SourceKind::MySql | SourceKind::Sqlite => if !p.query {
            Some(MissingParameter::Query)
        } else {
            None
        },
        SourceKind::MongoDb => if !p.db_name {
            Some(MissingParameter::DbName)
        } else if !p.collection {
            Some(MissingParameter::Collection)
        } else {
            None
        },
        SourceKind::Redis => if !p.key_pattern {
            Some(MissingParameter::KeyPattern)
        } else {
            None
        },
        SourceKind::Elasticsearch => if !p.index {
            Some(MissingParameter::Index)
        } else if !p.query {
            Some(MissingParameter::Query)
        } else {
            None
        },
        SourceKind::Csv => None,
        SourceKind::TrueTabs => if !p.collection {
            Some(MissingParameter::Collection)
        } else if !p.record_id {
            Some(MissingParameter::RecordId)
        } else if !p.field_updates {
            Some(MissingParameter::FieldUpdates)
        } else {
            None
        },
    }
}

impl MissingParameter {
    /// The command-line option that supplies the parameter.
    pub fn option_name(&self) -> (r: &'static str)
        ensures
            *self == MissingParameter::Query ==> r@ == "--query"@,
            *self == MissingParameter::DbName ==> r@ == "--db-name"@,
            *self == MissingParameter::Collection ==> r@ == "--collection"@,
            *self == MissingParameter::KeyPattern ==> r@ == "--key-pattern"@,
            *self == MissingParameter::Index ==> r@ == "--index"@,
            *self == MissingParameter::RecordId ==> r@ == "--record-id"@,
            *self == MissingParameter::FieldUpdates ==> r@ == "--field-updates"@,
    {
        match self {
            MissingParameter::Query => "--query",
            MissingParameter::DbName => "--db-name",
            MissingParameter::Collection => "--collection",
            MissingParameter::KeyPattern => "--key-pattern",
            MissingParameter::Index => "--index",
            MissingParameter::RecordId => "--record-id",
            MissingParameter::FieldUpdates => "--field-updates",
        }
    }
}

} // verus!
