use data_extractor::config::{
    is_xlsx_path, missing_parameter, parse_action, parse_json_string, parse_source_kind, Action,
    MissingParameter, SourceKind, Supplied,
};
use data_extractor::flatfile::read_csv_bytes;
use data_extractor::search::{extract_search_hits, JsonNode, SearchError};
use data_extractor::sink::{table_to_xlsx, SinkError};
use data_extractor::sources::CsvTableError;
use data_extractor::text::{decimal_u64, join_texts, sort_texts, text_less};
use data_extractor::update::{classify_response, records_url, update_body, UpdateError};
use data_extractor::ExtractedData;

fn strings(v: &[&str]) -> Vec<String> {
    v.iter().map(|s| s.to_string()).collect()
}

fn obj(members: Vec<(&str, JsonNode)>, text: &str) -> JsonNode {
    JsonNode::Object(members.into_iter().map(|(k, v)| (k.to_string(), v)).collect(), text.to_string())
}

fn response(hits: Vec<JsonNode>) -> JsonNode {
    obj(vec![("took", JsonNode::Number("3".to_string())), ("hits", obj(vec![("hits", JsonNode::Array(hits, String::new()))], ""))], "")
}

#[test]
fn text_order_and_sort() {
    assert!(text_less("a", "b"));
    assert!(text_less("a", "ab"));
    assert!(!text_less("b", "ab"));
    assert!(!text_less("a", "a"));
    assert!(text_less("Z", "a"));
    assert_eq!(sort_texts(&strings(&["name", "id", "Age", "id"])), strings(&["Age", "id", "id", "name"]));
    assert_eq!(join_texts(&strings(&["a", "b", "c"]), ", "), "a, b, c");
    assert_eq!(join_texts(&vec![], ", "), "");
    assert_eq!(decimal_u64(65535), "65535");
}

#[test]
fn search_hits_into_table() {
    let hits = vec![
        obj(vec![("_id", JsonNode::Str("1".to_string())), ("_source", obj(vec![
            ("title", JsonNode::Str("x".to_string())),
            ("count", JsonNode::Number("4".to_string())),
            ("tags", JsonNode::Array(vec![JsonNode::Str("t".to_string())], "[\"t\"]".to_string())),
        ], ""))], ""),
        obj(vec![("_id", JsonNode::Str("2".to_string()))], ""),
        obj(vec![("_source", obj(vec![("title", JsonNode::Null), ("count", JsonNode::Bool(false))], ""))], ""),
    ];
    let t = extract_search_hits(&response(hits), &Some(strings(&["title", "tags", "count"]))).unwrap();
    assert_eq!(t.headers, strings(&["count", "tags", "title"]));
    assert_eq!(t.rows, vec![strings(&["4", "[\"t\"]", "x"]), strings(&["false", "", ""])]);
}

#[test]
fn search_without_envelope_fails() {
    let e = extract_search_hits(&obj(vec![("error", JsonNode::Str("x".to_string()))], ""), &None).unwrap_err();
    assert!(matches!(e, SearchError::MissingHits));
    assert_eq!(e.message(), "Elasticsearch response missing 'hits.hits' array");
    let e = extract_search_hits(&JsonNode::Null, &None).unwrap_err();
    assert!(matches!(e, SearchError::MissingHits));
}

#[test]
fn search_zero_hits_is_empty() {
    let t = extract_search_hits(&response(vec![]), &Some(strings(&["a"]))).unwrap();
    assert!(t.headers.is_empty());
    assert!(t.rows.is_empty());
}

#[test]
fn csv_bytes_into_table() {
    let t = read_csv_bytes(b"name,id\nAlice,1\n\"B, b\",2\n", &Some(strings(&["id", "name"]))).unwrap();
    assert_eq!(t.headers, strings(&["name", "id"]));
    assert_eq!(t.rows, vec![strings(&["Alice", "1"]), strings(&["B, b", "2"])]);
    let e = read_csv_bytes(b"a,b\n1\n", &None).unwrap_err();
    assert!(matches!(e, CsvTableError::UnevenRecord { index: 0, fields: 1, columns: 2 }));
    let e = read_csv_bytes(b"a,b\n\xff\xfe,1\n", &None).unwrap_err();
    assert!(matches!(e, CsvTableError::Malformed(_)));
    let first = read_csv_bytes(b"a,b\n\xff\xfe,1\n", &None).unwrap_err().message();
    let second = read_csv_bytes(b"a,b\n\xff\xfe,1\n", &None).unwrap_err().message();
    assert_eq!(first, second);
    let t = read_csv_bytes(b"a,b\n", &None).unwrap();
    assert_eq!(t.headers, strings(&["a", "b"]));
    assert!(t.rows.is_empty());
}

#[test]
fn spreadsheet_bytes() {
    let t = ExtractedData { headers: strings(&["id", "name"]), rows: vec![strings(&["1", "Alice"]), strings(&["2", ""])] };
    let bytes = table_to_xlsx(&t).unwrap();
    assert!(bytes.starts_with(b"PK"));
    let ragged = ExtractedData { headers: strings(&["id"]), rows: vec![strings(&["1", "2"])] };
    assert!(matches!(table_to_xlsx(&ragged), Err(SinkError::RaggedTable)));
    let long = ExtractedData { headers: strings(&["id"]), rows: vec![vec!["x".repeat(32768)]] };
    let e = table_to_xlsx(&long).unwrap_err();
    assert!(matches!(e, SinkError::CellTooLong { row: 1, col: 0 }));
    assert_eq!(e.message(), "the text of cell (1, 0) is longer than a cell holds");
}

#[test]
fn update_rejected_keeps_status_and_body() {
    let body = "{\"success\":false,\"code\":401,\"message\":\"bad token\"}".to_string();
    let e = classify_response(401, body.clone()).unwrap_err();
    assert!(matches!(&e, UpdateError::Rejected { status: 401, .. }));
    assert_eq!(
        e.message(),
        format!("API request failed with status: 401 Unauthorized. Response body: {}", body)
    );
    let e = classify_response(599, "oops".to_string()).unwrap_err();
    assert_eq!(e.message(), "API request failed with status: 599 <unknown status code>. Response body: oops");
    assert_eq!(classify_response(200, "{}".to_string()).unwrap(), "{}");
}

#[test]
fn update_request_parts() {
    assert_eq!(records_url("dst1"), "https://true.tabs.sale/fusion/v1/datasheets/dst1/records");
    let b = update_body("rec\"1", "name", "{\"Title\": \"x\"}").unwrap();
    assert_eq!(b, "{\"records\":[{\"recordId\":\"rec\\\"1\",\"fields\":{\"Title\": \"x\"}}],\"fieldKey\":\"name\"}");
    assert!(matches!(update_body("r", "name", "{oops"), Err(UpdateError::InvalidFields)));
    let b = update_body("a\nb\u{1}\\", "k\t", "1").unwrap();
    assert_eq!(b, "{\"records\":[{\"recordId\":\"a\\nb\\u0001\\\\\",\"fields\":1}],\"fieldKey\":\"k\\t\"}");
}

#[test]
fn configuration_choices() {
    assert_eq!(parse_action("EXTRACT"), Some(Action::Extract));
    assert_eq!(parse_action("Update"), Some(Action::Update));
    assert_eq!(parse_action("delete"), None);
    assert_eq!(parse_source_kind("MongoDB"), Some(SourceKind::MongoDb));
    assert_eq!(parse_source_kind("csv"), Some(SourceKind::Csv));
    assert_eq!(parse_source_kind("oracle"), None);
    assert!(is_xlsx_path("out/report.XLSX"));
    assert!(!is_xlsx_path("report.csv"));
    assert!(!is_xlsx_path("xlsx"));
    let none = Supplied { query: false, db_name: false, collection: false, key_pattern: false, index: false, record_id: false, field_updates: false };
    assert_eq!(missing_parameter(SourceKind::Postgres, none), Some(MissingParameter::Query));
    assert_eq!(missing_parameter(SourceKind::Csv, none), None);
    let es = Supplied { index: true, ..none };
    assert_eq!(missing_parameter(SourceKind::Elasticsearch, es), Some(MissingParameter::Query));
    assert_eq!(MissingParameter::Query.option_name(), "--query");
    assert_eq!(parse_json_string("[\"id\", \"name\"]").unwrap(), strings(&["id", "name"]));
    assert!(parse_json_string("[1, 2]").unwrap_err().starts_with("Invalid JSON string: "));
}
