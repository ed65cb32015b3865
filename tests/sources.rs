use data_extractor::coerce::{coerce_sql_cell, coerce_value, RawValue, SqlCell};
use data_extractor::record::RawRecord;
use data_extractor::sources::{
    build_csv_table, build_document_table, build_key_value_table, build_relational_table,
    CsvTableError,
};
use data_extractor::{reconcile, ExtractedData};

fn strings(v: &[&str]) -> Vec<String> {
    v.iter().map(|s| s.to_string()).collect()
}

fn no_cell() -> SqlCell {
    SqlCell {
        text: None,
        integer: None,
        double: None,
        boolean: None,
        json: None,
        timestamp: None,
        decimal: None,
    }
}

fn record(fields: Vec<(&str, RawValue)>) -> RawRecord {
    RawRecord { fields: fields.into_iter().map(|(k, v)| (k.to_string(), v)).collect() }
}

fn assert_rows_aligned(t: &ExtractedData) {
    for row in &t.rows {
        assert_eq!(row.len(), t.headers.len());
    }
}

#[test]
fn coercion_forms() {
    assert_eq!(coerce_value(&RawValue::Null), "");
    assert_eq!(coerce_value(&RawValue::Unsupported), "");
    assert_eq!(coerce_value(&RawValue::Text("a \"b\"".to_string())), "a \"b\"");
    assert_eq!(coerce_value(&RawValue::Integer(0)), "0");
    assert_eq!(coerce_value(&RawValue::Integer(-42)), "-42");
    assert_eq!(coerce_value(&RawValue::Integer(i64::MIN)), "-9223372036854775808");
    assert_eq!(coerce_value(&RawValue::Integer(i64::MAX)), "9223372036854775807");
    assert_eq!(coerce_value(&RawValue::Boolean(true)), "true");
    assert_eq!(coerce_value(&RawValue::Boolean(false)), "false");
    assert_eq!(coerce_value(&RawValue::Number(2.5f64.to_string())), "2.5");
    assert_eq!(coerce_value(&RawValue::Scalar("2024-01-02 03:04:05".to_string())), "2024-01-02 03:04:05");
    assert_eq!(coerce_value(&RawValue::Composite("[1, 2]".to_string())), "[1, 2]");
}

#[test]
fn sql_cell_priority_order() {
    assert_eq!(coerce_sql_cell(&no_cell()), "");
    let mut c = no_cell();
    c.decimal = Some("1.50".to_string());
    assert_eq!(coerce_sql_cell(&c), "1.50");
    c.timestamp = Some("2024-01-02 03:04:05".to_string());
    assert_eq!(coerce_sql_cell(&c), "2024-01-02 03:04:05");
    c.boolean = Some(true);
    assert_eq!(coerce_sql_cell(&c), "true");
    c.double = Some("0.25".to_string());
    assert_eq!(coerce_sql_cell(&c), "0.25");
    c.integer = Some(7);
    assert_eq!(coerce_sql_cell(&c), "7");
    c.text = Some("seven".to_string());
    assert_eq!(coerce_sql_cell(&c), "seven");
}

#[test]
fn relational_matching_schema() {
    let columns = strings(&["id", "name"]);
    let mut id1 = no_cell();
    id1.integer = Some(1);
    let mut name1 = no_cell();
    name1.text = Some("Alice".to_string());
    let mut id2 = no_cell();
    id2.integer = Some(2);
    let rows = vec![vec![id1, name1], vec![id2, no_cell()]];
    let t = build_relational_table(&columns, &rows, &Some(strings(&["name", "id"]))).unwrap();
    assert_eq!(t.headers, strings(&["id", "name"]));
    assert_eq!(t.rows, vec![strings(&["1", "Alice"]), strings(&["2", ""])]);
    assert_rows_aligned(&t);
}

#[test]
fn relational_schema_mismatch() {
    let columns = strings(&["id", "name"]);
    let mut id1 = no_cell();
    id1.integer = Some(1);
    let rows = vec![vec![id1, no_cell()]];
    let e = build_relational_table(&columns, &rows, &Some(strings(&["id", "email"]))).unwrap_err();
    assert_eq!(e.expected, strings(&["id", "email"]));
    assert_eq!(e.discovered, strings(&["id", "name"]));
    assert_eq!(e.message(), "Column mismatch: Expected [id, email], Got [id, name]");
}

#[test]
fn relational_zero_rows_is_empty() {
    let columns = strings(&["id", "name"]);
    let t = build_relational_table(&columns, &vec![], &Some(strings(&["other"]))).unwrap();
    assert!(t.headers.is_empty());
    assert!(t.rows.is_empty());
}

#[test]
fn relational_short_row_pads_with_empty() {
    let columns = strings(&["a", "b"]);
    let mut a = no_cell();
    a.text = Some("x".to_string());
    let t = build_relational_table(&columns, &vec![vec![a]], &None).unwrap();
    assert_eq!(t.rows, vec![strings(&["x", ""])]);
}

#[test]
fn documents_heterogeneous_fields() {
    let recs = vec![
        record(vec![("b", RawValue::Integer(2)), ("a", RawValue::Text("x".to_string()))]),
        record(vec![("a", RawValue::Text("y".to_string())), ("c", RawValue::Boolean(true))]),
    ];
    let t = build_document_table(&recs, &None).unwrap();
    assert_eq!(t.headers, strings(&["a", "b"]));
    assert_eq!(t.rows, vec![strings(&["x", "2"]), strings(&["y", ""])]);
    assert_rows_aligned(&t);
}

#[test]
fn documents_expected_any_order() {
    let recs = vec![record(vec![("b", RawValue::Null), ("a", RawValue::Integer(1))])];
    let t = build_document_table(&recs, &Some(strings(&["b", "a"]))).unwrap();
    assert_eq!(t.headers, strings(&["a", "b"]));
    assert_eq!(t.rows, vec![strings(&["1", ""])]);
}

#[test]
fn documents_mismatch_lists_both() {
    let recs = vec![record(vec![("b", RawValue::Null), ("a", RawValue::Null)])];
    let e = build_document_table(&recs, &Some(strings(&["c", "a"]))).unwrap_err();
    assert_eq!(e.expected, strings(&["a", "c"]));
    assert_eq!(e.discovered, strings(&["a", "b"]));
}

#[test]
fn documents_zero_records_is_empty() {
    let t = build_document_table(&vec![], &Some(strings(&["a"]))).unwrap();
    assert!(t.headers.is_empty());
    assert!(t.rows.is_empty());
}

#[test]
fn key_value_zero_keys() {
    let r = build_key_value_table(&vec![], &Some(strings(&["x", "y"])));
    assert_eq!(r.table.headers, strings(&["Key", "Value"]));
    assert!(r.table.rows.is_empty());
    assert!(r.expected_ignored);
}

#[test]
fn key_value_pairs() {
    let pairs = vec![("k1".to_string(), "v1".to_string()), ("k2".to_string(), "".to_string())];
    let r = build_key_value_table(&pairs, &None);
    assert_eq!(r.table.headers, strings(&["Key", "Value"]));
    assert_eq!(r.table.rows, vec![strings(&["k1", "v1"]), strings(&["k2", ""])]);
    assert!(!r.expected_ignored);
}

#[test]
fn csv_table_checks_header_then_records() {
    let h = strings(&["x", "y"]);
    let recs = vec![strings(&["1", "2"]), strings(&["3"])];
    let e = build_csv_table(&h, &recs, &Some(strings(&["z"]))).unwrap_err();
    assert!(matches!(e, CsvTableError::Mismatch(_)));
    let e = build_csv_table(&h, &recs, &Some(strings(&["y", "x"]))).unwrap_err();
    assert!(matches!(e, CsvTableError::UnevenRecord { index: 1, fields: 1, columns: 2 }));
    assert_eq!(e.message(), "record 1 has 1 fields where the header has 2");
    let t = build_csv_table(&h, &recs[..1].to_vec(), &None).unwrap();
    assert_eq!(t.headers, h);
    assert_eq!(t.rows, vec![strings(&["1", "2"])]);
}

#[test]
fn reconcile_is_repeatable() {
    let d = strings(&["b", "a", "a"]);
    let e = Some(strings(&["a", "b"]));
    let first = reconcile(&d, &e).unwrap_err();
    let second = reconcile(&d, &e).unwrap_err();
    assert_eq!(first.expected, second.expected);
    assert_eq!(first.discovered, second.discovered);
    assert!(reconcile(&d, &None).is_ok());
    assert!(reconcile(&d, &Some(strings(&["a", "b", "a"]))).is_ok());
    assert!(reconcile(&d, &Some(strings(&["a", "b", "b"]))).is_err());
}
