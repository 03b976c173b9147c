use qrn::logger::Logger;
use qrn::logger::QueryLog;

#[test]
fn renders_a_plain_entry_exactly() {
    let entry = QueryLog { query: String::from("SELECT 1"), response_time_ms: 42 };
    assert_eq!(entry.to_json_line(), "{\"query\":\"SELECT 1\",\"response_time\":42}");
}

#[test]
fn renders_zero_and_large_times() {
    let entry = QueryLog { query: String::from("Q"), response_time_ms: 0 };
    assert_eq!(entry.to_json_line(), "{\"query\":\"Q\",\"response_time\":0}");
    let entry = QueryLog { query: String::from("Q"), response_time_ms: 1234567890 };
    assert_eq!(entry.to_json_line(), "{\"query\":\"Q\",\"response_time\":1234567890}");
}

#[test]
fn escapes_quotes_backslashes_and_control_characters() {
    let entry = QueryLog {
        query: String::from("a\"b\\c\nd\te"),
        response_time_ms: 7,
    };
    assert_eq!(
        entry.to_json_line(),
        "{\"query\":\"a\\\"b\\\\c\\u000ad\\u0009e\",\"response_time\":7}"
    );
}

#[test]
fn rendered_lines_parse_back_as_json() {
    let entry = QueryLog {
        query: String::from("SELECT * FROM t WHERE s = \"x\\y\"\n"),
        response_time_ms: 99,
    };
    let line = entry.to_json_line();
    let doc: serde_json::Value = serde_json::from_str(&line).expect("line must be valid JSON");
    let query = doc.get("query").and_then(|v| v.as_str()).expect("query field");
    assert_eq!(query, "SELECT * FROM t WHERE s = \"x\\y\"\n");
    let ms = doc.get("response_time").and_then(|v| v.as_u64()).expect("time field");
    assert_eq!(ms, 99);
}

#[test]
fn entry_lines_end_with_a_newline() {
    let logger = Logger::new(&None);
    assert_eq!(logger.destination, None);
    let entry = QueryLog { query: String::from("SELECT 1"), response_time_ms: 3 };
    assert_eq!(
        logger.render_entry(&entry),
        "{\"query\":\"SELECT 1\",\"response_time\":3}\n"
    );
}

#[test]
fn logger_keeps_its_destination() {
    let logger = Logger::new(&Some(String::from("queries.log")));
    assert_eq!(logger.destination.as_deref(), Some("queries.log"));
}
