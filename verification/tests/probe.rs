use cargo_frc::actions::deploy_descriptor::{
    parse_pinger, parse_serial_getter, ParserFormat, Pinger, SerialGetter,
};
use cargo_frc::actions::probe::{extract_serial, find_serial, follow, StatusLine};
use cargo_frc::document::Document;

fn text(s: &str) -> Document {
    Document::String(s.to_string())
}

fn object(entries: Vec<(&str, Document)>) -> Document {
    Document::Object(entries.into_iter().map(|(k, v)| (k.to_string(), v)).collect())
}

fn getter(format: &str, paths: Vec<&str>) -> SerialGetter {
    let doc = object(vec![
        ("url", text("http://example.com/serial")),
        ("format", text(format)),
        ("paths", Document::Array(paths.into_iter().map(text).collect())),
    ]);
    parse_serial_getter(&doc, "robot.json").unwrap()
}

fn pinger() -> Pinger {
    parse_pinger(&object(vec![("url", text("http://example.com/ping"))]), "robot.json").unwrap()
}

fn status(code: u16, line: &str) -> Result<StatusLine, String> {
    Ok(StatusLine { code, text: line.to_string() })
}

fn paths(list: Vec<&str>) -> Vec<String> {
    list.into_iter().map(|p| p.to_string()).collect()
}

const BODY: &str = r#"{"a":{"serial":"XYZ123"}}"#;

#[test]
fn first_matching_path_gives_the_serial() {
    let probe = getter("json", vec!["a.serial", "b.serial"]);
    assert_eq!(probe.extract_json(BODY.to_string()), Ok("XYZ123".to_string()));
}

#[test]
fn missing_path_finds_no_serial() {
    let probe = getter("json", vec!["missing.path"]);
    assert_eq!(
        probe.extract_json(BODY.to_string()),
        Err("Failed to find serial in json".to_string())
    );
}

#[test]
fn first_path_wins_over_later_ones() {
    let body = r#"{"a":{"serial":"first"},"b":{"serial":"second"}}"#;
    let probe = getter("json", vec!["a.serial", "b.serial"]);
    assert_eq!(probe.extract_json(body.to_string()), Ok("first".to_string()));
    let probe = getter("json", vec!["b.serial", "a.serial"]);
    assert_eq!(probe.extract_json(body.to_string()), Ok("second".to_string()));
    let probe = getter("json", vec!["c.serial", "b.serial", "a.serial"]);
    assert_eq!(probe.extract_json(body.to_string()), Ok("second".to_string()));
}

#[test]
fn path_that_ends_on_no_string_is_passed_over() {
    let body = r#"{"a":{"serial":7},"b":{"serial":["x"]},"c":{"serial":null},"d":"D1"}"#;
    let probe = getter("json", vec!["a.serial", "b.serial", "c.serial", "a", "d"]);
    assert_eq!(probe.extract_json(body.to_string()), Ok("D1".to_string()));
}

#[test]
fn path_that_runs_into_a_string_is_passed_over() {
    let body = r#"{"a":"early","b":{"serial":"late"}}"#;
    let probe = getter("json", vec!["a.serial", "b.serial"]);
    assert_eq!(probe.extract_json(body.to_string()), Ok("late".to_string()));
    let probe = getter("json", vec!["a.serial"]);
    assert_eq!(
        probe.extract_json(body.to_string()),
        Err("Failed to find serial in json".to_string())
    );
}

#[test]
fn keys_are_what_stands_between_the_dots() {
    let body = r#"{"":{"":"both empty"},"a":{"":"empty behind"},"x.y":"never"}"#;
    assert_eq!(getter("json", vec!["."]).extract_json(body.to_string()), Ok("both empty".into()));
    assert_eq!(getter("json", vec!["a."]).extract_json(body.to_string()), Ok("empty behind".into()));
    assert_eq!(
        getter("json", vec!["x.y"]).extract_json(body.to_string()),
        Err("Failed to find serial in json".to_string())
    );
    let body = r#"{"":"no key"}"#;
    assert_eq!(getter("json", vec![""]).extract_json(body.to_string()), Ok("no key".into()));
}

#[test]
fn arrays_are_not_walked_into() {
    let body = r#"{"a":["zero","one"]}"#;
    let probe = getter("json", vec!["a.0", "a.1"]);
    assert_eq!(
        probe.extract_json(body.to_string()),
        Err("Failed to find serial in json".to_string())
    );
}

#[test]
fn body_that_is_a_string_is_found_by_no_path() {
    let probe = getter("json", vec!["a"]);
    assert_eq!(
        probe.extract_json(r#""XYZ123""#.to_string()),
        Err("Failed to find serial in json".to_string())
    );
}

#[test]
fn last_of_repeated_keys_in_a_body_is_read() {
    let probe = getter("json", vec!["a"]);
    assert_eq!(probe.extract_json(r#"{"a":"one","a":"two"}"#.to_string()), Ok("two".into()));
}

#[test]
fn serial_keeps_its_characters() {
    let probe = getter("json", vec!["s\u{e9}rie.n\u{b0}"]);
    let body = "{\"s\u{e9}rie\":{\"n\u{b0}\":\"\\u00e9t\\u00e9 \\\"42\\\"\"}}";
    assert_eq!(probe.extract_json(body.to_string()), Ok("\u{e9}t\u{e9} \"42\"".to_string()));
}

#[test]
fn body_that_is_no_json_is_reported() {
    let probe = getter("json", vec!["a.serial"]);
    let failure = probe.extract_json("{not json".to_string()).unwrap_err();
    assert_eq!(failure, "Failed to parse json: key must be a string at line 1 column 2");
    let failure = probe.extract_json(String::new()).unwrap_err();
    assert_eq!(failure, "Failed to parse json: EOF while parsing a value at line 1 column 0");
}

#[test]
fn json_text_is_read_into_a_document() {
    let doc = Document::parse_json(r#"{"b":[null,true,-1.5,"s"],"a":{"n":18446744073709551615}}"#);
    let doc = doc.unwrap();
    let list = doc.get("b").unwrap().as_array().unwrap();
    assert_eq!(list.len(), 4);
    assert!(matches!(list[0], Document::Null));
    assert!(matches!(list[1], Document::Bool(true)));
    assert!(matches!(&list[2], Document::Number(written) if written == "-1.5"));
    assert_eq!(list[3].as_str(), Some("s"));
    assert_eq!(doc.get("a").unwrap().get("n").unwrap().as_u64(), Some(u64::MAX));
    assert_eq!(list[2].as_u64(), None);
    assert_eq!(
        Document::parse_json("[1,").unwrap_err(),
        "EOF while parsing a value at line 1 column 3"
    );
    let value = serde_json::Value::Array(vec![
        serde_json::Value::from("x"),
        serde_json::Value::from(7u64),
        serde_json::Value::from(-7i64),
    ]);
    let doc = Document::from_json(&value);
    let list = doc.as_array().unwrap();
    assert_eq!(list[0].as_str(), Some("x"));
    assert_eq!(list[1].as_u64(), Some(7));
    assert!(matches!(&list[2], Document::Number(written) if written == "-7"));
}

#[test]
fn reading_that_is_handed_in_decides() {
    let doc = object(vec![("a", object(vec![("serial", text("XYZ123"))]))]);
    assert_eq!(
        extract_serial(&Ok(doc), &paths(vec!["a.serial", "b.serial"])),
        Ok("XYZ123".to_string())
    );
    let doc = object(vec![("a", object(vec![("serial", text("XYZ123"))]))]);
    assert_eq!(
        extract_serial(&Ok(doc), &paths(vec!["missing.path"])),
        Err("Failed to find serial in json".to_string())
    );
    assert_eq!(
        extract_serial(&Err("bad".to_string()), &paths(vec!["a"])),
        Err("Failed to parse json: bad".to_string())
    );
    let doc = object(vec![("a", text("x"))]);
    assert_eq!(extract_serial(&Ok(doc), &paths(vec![])), Err("Failed to find serial in json".into()));
}

#[test]
fn keys_are_followed_one_by_one() {
    let doc = object(vec![("a", object(vec![("b", text("leaf"))]))]);
    assert!(matches!(follow(&doc, &paths(vec![])), Some(Document::Object(_))));
    assert!(matches!(follow(&doc, &paths(vec!["a"])), Some(Document::Object(_))));
    assert!(matches!(follow(&doc, &paths(vec!["a", "b"])), Some(Document::String(_))));
    assert!(follow(&doc, &paths(vec!["a", "c"])).is_none());
    assert!(follow(&doc, &paths(vec!["a", "b", "c"])).is_none());
    assert_eq!(find_serial(&doc, &paths(vec!["a", "a.b"])), Some("leaf".to_string()));
    assert_eq!(find_serial(&doc, &paths(vec!["a"])), None);
}

#[test]
fn only_json_is_extracted() {
    for (word, label) in [("xml", "XML"), ("regex", "REGEX")] {
        let probe = getter(word, vec!["a.serial"]);
        let failure = format!("Unsupported format: {}", label);
        assert_eq!(probe.judge(&status(200, "200 OK")), Err(failure.clone()));
        assert_eq!(probe.read_body(Ok(BODY.to_string())), Err(failure.clone()));
        assert_eq!(probe.read_body(Ok("<a/>".to_string())), Err(failure.clone()));
        assert_eq!(probe.read_body(Err("timed out".to_string())), Err(failure.clone()));
        assert_eq!(probe.unsupported(), failure);
        assert_ne!(probe.format, ParserFormat::JSON);
    }
}

#[test]
fn serial_probe_reads_the_body_after_success_alone() {
    let probe = getter("json", vec!["a.serial"]);
    assert_eq!(probe.judge(&status(200, "200 OK")), Ok(()));
    assert_eq!(probe.judge(&status(204, "204 No Content")), Ok(()));
    assert_eq!(probe.judge(&status(299, "299 <unknown status code>")), Ok(()));
    assert_eq!(
        probe.judge(&status(199, "199 <unknown status code>")),
        Err("Failed to get body: 199 <unknown status code>".to_string())
    );
    assert_eq!(
        probe.judge(&status(300, "300 Multiple Choices")),
        Err("Failed to get body: 300 Multiple Choices".to_string())
    );
    assert_eq!(
        probe.judge(&status(404, "404 Not Found")),
        Err("Failed to get body: 404 Not Found".to_string())
    );
    assert_eq!(
        probe.judge(&Err("connection refused".to_string())),
        Err("Failed to get body: connection refused".to_string())
    );
    let probe = getter("xml", vec![]);
    assert_eq!(
        probe.judge(&status(500, "500 Internal Server Error")),
        Err("Failed to get body: 500 Internal Server Error".to_string())
    );
}

#[test]
fn serial_probe_makes_the_serial_of_the_body() {
    let probe = getter("json", vec!["a.serial", "b.serial"]);
    assert_eq!(probe.read_body(Ok(BODY.to_string())), Ok("XYZ123".to_string()));
    assert_eq!(
        probe.read_body(Err("body cut short".to_string())),
        Err("Failed to get body: body cut short".to_string())
    );
    assert_eq!(
        probe.read_body(Ok("{}".to_string())),
        Err("Failed to find serial in json".to_string())
    );
}

#[test]
fn ping_goes_by_the_status_class() {
    let probe = pinger();
    assert_eq!(probe.judge(&status(200, "200 OK")), Ok(()));
    assert_eq!(probe.judge(&status(299, "299 <unknown status code>")), Ok(()));
    assert_eq!(
        probe.judge(&status(404, "404 Not Found")),
        Err("Failed to ping: 404 Not Found".to_string())
    );
    assert_eq!(
        probe.judge(&status(500, "500 Internal Server Error")),
        Err("Failed to ping: 500 Internal Server Error".to_string())
    );
    assert_eq!(
        probe.judge(&status(199, "199 <unknown status code>")),
        Err("Failed to ping: 199 <unknown status code>".to_string())
    );
    assert_eq!(
        probe.judge(&status(300, "300 Multiple Choices")),
        Err("Failed to ping: 300 Multiple Choices".to_string())
    );
    assert_eq!(
        probe.judge(&Err("operation timed out".to_string())),
        Err("Failed to ping: operation timed out".to_string())
    );
}
