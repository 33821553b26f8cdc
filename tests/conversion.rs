use csvgz_json::cell::{infer_cell, infer_with_lowered, is_identifier_column, Cell, NumberParse};
use csvgz_json::converter::{parse_column_list, Converter, RowError};
use csvgz_json::projection::{position, project};

fn strings(v: &[&str]) -> Vec<String> {
    v.iter().map(|s| s.to_string()).collect()
}

fn number_of(text: &str) -> NumberParse {
    match text.parse::<f64>() {
        Ok(x) if x.is_finite() => NumberParse::Finite(serde_json::to_string(&x).unwrap()),
        Ok(_) => NumberParse::NonFinite,
        Err(_) => NumberParse::NotNumber,
    }
}

fn numbers_of(row: &[String]) -> Vec<NumberParse> {
    row.iter().map(|c| number_of(c)).collect()
}

fn push(c: &mut Converter, row: &[&str]) -> Result<(), RowError> {
    let row = strings(row);
    let numbers = numbers_of(&row);
    c.push_row(&row, &numbers)
}

#[test]
fn header_without_rows_gives_empty_array() {
    let c = Converter::new(strings(&["ra", "dec"]), &strings(&["ra"]));
    assert_eq!(c.record_count(), 0);
    assert_eq!(c.to_json(), "[]");
}

#[test]
fn empty_cell_is_empty_string() {
    let col = "ra".to_string();
    let text = String::new();
    match infer_cell(&col, &text, &NumberParse::NotNumber) {
        Cell::Text(s) => assert_eq!(s, ""),
        other => panic!("unexpected {:?}", other),
    }
    let mut c = Converter::new(strings(&["ra", "source_id"]), &strings(&["ra", "source_id"]));
    push(&mut c, &["", ""]).unwrap();
    assert_eq!(c.to_json(), r#"[{"ra":"","source_id":""}]"#);
}

#[test]
fn identifier_column_stays_text() {
    for col in ["source_id", "solution_id", "designation"] {
        assert!(is_identifier_column(&col.to_string()));
        let text = "12345".to_string();
        match infer_cell(&col.to_string(), &text, &number_of("12345")) {
            Cell::Text(s) => assert_eq!(s, "12345"),
            other => panic!("unexpected {:?}", other),
        }
    }
    assert!(!is_identifier_column(&"ra".to_string()));
    let mut c = Converter::new(strings(&["source_id", "ra"]), &strings(&["source_id", "ra"]));
    push(&mut c, &["12345", "12345"]).unwrap();
    assert_eq!(c.to_json(), r#"[{"source_id":"12345","ra":12345.0}]"#);
}

#[test]
fn cells_get_their_types() {
    let header = strings(&["a", "b", "c", "d", "e"]);
    let mut c = Converter::new(header.clone(), &header);
    push(&mut c, &["42", "3.14", "true", "null", ""]).unwrap();
    assert_eq!(c.to_json(), r#"[{"a":42.0,"b":3.14,"c":true,"d":null,"e":""}]"#);
}

#[test]
fn words_are_matched_without_case() {
    let col = "flag".to_string();
    let cases = [("TRUE", "true"), ("False", "false"), ("NULL", "null")];
    for (text, _) in cases {
        let t = text.to_string();
        let cell = infer_cell(&col, &t, &NumberParse::NotNumber);
        match (text, cell) {
            ("TRUE", Cell::Bool(true)) | ("False", Cell::Bool(false)) | ("NULL", Cell::Null) => {}
            (_, other) => panic!("unexpected {:?} for {}", other, text),
        }
    }
    let t = "maybe".to_string();
    match infer_cell(&col, &t, &NumberParse::NotNumber) {
        Cell::Text(s) => assert_eq!(s, "maybe"),
        other => panic!("unexpected {:?}", other),
    }
}

#[test]
fn lowered_form_decides_words() {
    let col = "flag".to_string();
    let text = "Yes".to_string();
    let lowered = "true".to_string();
    assert!(matches!(
        infer_with_lowered(&col, &text, &NumberParse::NotNumber, &lowered),
        Cell::Bool(true)
    ));
    let lowered = "yes".to_string();
    match infer_with_lowered(&col, &text, &NumberParse::NotNumber, &lowered) {
        Cell::Text(s) => assert_eq!(s, "Yes"),
        other => panic!("unexpected {:?}", other),
    }
}

#[test]
fn non_finite_number_is_null() {
    let header = strings(&["x", "y", "z"]);
    let mut c = Converter::new(header.clone(), &header);
    push(&mut c, &["NaN", "inf", "1e400"]).unwrap();
    assert_eq!(c.to_json(), r#"[{"x":null,"y":null,"z":null}]"#);
}

#[test]
fn absent_column_gives_no_key() {
    let mut c = Converter::new(strings(&["ra", "dec"]), &strings(&["missing", "dec"]));
    assert_eq!(push(&mut c, &["1", "2"]), Ok(()));
    assert_eq!(c.to_json(), r#"[{"dec":2.0}]"#);
}

#[test]
fn records_follow_rows_in_order() {
    let mut c = Converter::new(strings(&["name", "n"]), &strings(&["name"]));
    push(&mut c, &["first", "1"]).unwrap();
    push(&mut c, &["second", "2"]).unwrap();
    push(&mut c, &["third", "3"]).unwrap();
    assert_eq!(c.record_count(), 3);
    assert_eq!(
        c.to_json(),
        r#"[{"name":"first"},{"name":"second"},{"name":"third"}]"#
    );
}

#[test]
fn keys_are_requested_columns_in_request_order() {
    let mut c = Converter::new(
        strings(&["ra", "dec", "z"]),
        &strings(&["dec", "x", "ra", "dec"]),
    );
    push(&mut c, &["1", "2", "3"]).unwrap();
    let text = c.to_json();
    assert_eq!(text, r#"[{"dec":2.0,"ra":1.0}]"#);
    let decoded: serde_json::Value = serde_json::from_str(&text).unwrap();
    let obj = decoded[0].as_object().unwrap();
    let mut keys: Vec<&String> = obj.keys().collect();
    keys.sort();
    assert_eq!(keys, vec!["dec", "ra"]);
}

#[test]
fn projection_positions() {
    let header = strings(&["a", "b", "c", "b"]);
    assert_eq!(position(&header, &"b".to_string()), Some(1));
    assert_eq!(position(&header, &"q".to_string()), None);
    assert_eq!(project(&header, &strings(&["c", "q", "b", "a", "c"])), vec![2, 1, 0]);
    assert_eq!(project(&header, &Vec::new()), Vec::<usize>::new());
}

#[test]
fn wrong_cell_count_is_refused() {
    let mut c = Converter::new(strings(&["a", "b"]), &strings(&["a"]));
    assert_eq!(push(&mut c, &["1"]), Err(RowError::FieldCount));
    assert_eq!(push(&mut c, &["1", "2", "3"]), Err(RowError::FieldCount));
    let row = strings(&["1", "2"]);
    assert_eq!(
        c.push_row(&row, &vec![NumberParse::NotNumber]),
        Err(RowError::NumberCount)
    );
    assert_eq!(c.record_count(), 0);
    assert_eq!(c.to_json(), "[]");
}

#[test]
fn text_is_escaped() {
    let mut c = Converter::new(strings(&["say \"hi\""]), &strings(&["say \"hi\""]));
    push(&mut c, &["a\"b\\c\nd"]).unwrap();
    assert_eq!(c.to_json(), r#"[{"say \"hi\"":"a\"b\\c\nd"}]"#);
}

#[test]
fn column_list_must_be_array_of_strings() {
    assert_eq!(parse_column_list("not json"), None);
    assert_eq!(parse_column_list("{\"a\":1}"), None);
    assert_eq!(parse_column_list("[1, 2]"), None);
    assert_eq!(parse_column_list("\"ra\""), None);
    assert_eq!(
        parse_column_list("[\"source_id\", \"ra\", \"dec\"]"),
        Some(strings(&["source_id", "ra", "dec"]))
    );
    assert_eq!(parse_column_list("[]"), Some(Vec::new()));
}
