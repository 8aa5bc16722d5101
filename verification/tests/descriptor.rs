use cargo_frc::actions::deploy_descriptor::{
    defaulted_str, headers_from, parse_descriptor, parse_pinger, parse_serial_getter,
    pinger_with_url, required_str, required_value, serial_getter_with_url, DescriptorParseError,
    HttpMethod, ParserFormat,
};
use cargo_frc::document::Document;

fn text(s: &str) -> Document {
    Document::String(s.to_string())
}

fn object(entries: Vec<(&str, Document)>) -> Document {
    Document::Object(entries.into_iter().map(|(k, v)| (k.to_string(), v)).collect())
}

fn array(items: Vec<Document>) -> Document {
    Document::Array(items)
}

fn serial_getter_entries() -> Vec<(&'static str, Document)> {
    vec![
        ("url", text("http://EXAMPLE.com/serial")),
        ("format", text("json")),
        ("paths", array(vec![text("a.serial"), text("b.serial")])),
    ]
}

fn pinger_entries() -> Vec<(&'static str, Document)> {
    vec![("url", text("http://example.com"))]
}

fn minimal() -> Vec<(&'static str, Document)> {
    vec![
        ("root_user", text("admin")),
        ("start_cmd", text("start")),
        ("stop_cmd", text("stop")),
        ("serial_getter", object(serial_getter_entries())),
        ("pinger", object(pinger_entries())),
    ]
}

fn without(entries: Vec<(&'static str, Document)>, name: &str) -> Vec<(&'static str, Document)> {
    entries.into_iter().filter(|(k, _)| *k != name).collect()
}

fn with(
    entries: Vec<(&'static str, Document)>,
    name: &'static str,
    value: Document,
) -> Vec<(&'static str, Document)> {
    let mut entries = without(entries, name);
    entries.push((name, value));
    entries
}

fn expect_missing<T: std::fmt::Debug>(read: Result<T, DescriptorParseError>, attribute: &str) {
    match read {
        Err(DescriptorParseError::MissingAttribute { name, file_name }) => {
            assert_eq!(name, attribute);
            assert_eq!(file_name, "robot.json");
        },
        other => panic!("{:?}", other),
    }
}

fn expect_malformed<T: std::fmt::Debug>(
    read: Result<T, DescriptorParseError>,
    attribute: &str,
    expected: &str,
) {
    match read {
        Err(DescriptorParseError::ParseAttribute { name, hint, file_name }) => {
            assert_eq!(name, attribute);
            assert_eq!(hint, expected);
            assert_eq!(file_name, "robot.json");
        },
        other => panic!("{:?}", other),
    }
}

#[test]
fn minimal_descriptor_takes_the_defaults() {
    let descriptor = parse_descriptor(&object(minimal()), "robot.json").unwrap();
    assert_eq!(descriptor.root_user, "admin");
    assert_eq!(descriptor.root_password, "");
    assert_eq!(descriptor.path, "~");
    assert_eq!(descriptor.start_cmd, "start");
    assert_eq!(descriptor.stop_cmd, "stop");
    assert_eq!(descriptor.dep_lib_path, "./lib");
    assert_eq!(descriptor.serial_getter.method, HttpMethod::Post);
    assert_eq!(descriptor.serial_getter.format, ParserFormat::JSON);
    assert_eq!(
        descriptor.serial_getter.paths,
        vec!["a.serial".to_string(), "b.serial".to_string()]
    );
    assert!(descriptor.serial_getter.headers.is_empty());
    assert_eq!(descriptor.pinger.method, HttpMethod::Get);
    assert!(descriptor.pinger.headers.is_empty());
}

#[test]
fn given_attributes_replace_the_defaults() {
    let mut entries = minimal();
    entries.push(("root_pass", text("secret")));
    entries.push(("path", text("/home/lvuser")));
    entries.push(("dep_lib_path", text("./deps")));
    let descriptor = parse_descriptor(&object(entries), "robot.json").unwrap();
    assert_eq!(descriptor.root_password, "secret");
    assert_eq!(descriptor.path, "/home/lvuser");
    assert_eq!(descriptor.dep_lib_path, "./deps");
}

#[test]
fn password_may_be_empty() {
    let entries = with(minimal(), "root_pass", text(""));
    let descriptor = parse_descriptor(&object(entries), "robot.json").unwrap();
    assert_eq!(descriptor.root_password, "");
    let entries = with(minimal(), "root_user", text(""));
    assert_eq!(parse_descriptor(&object(entries), "robot.json").unwrap().root_user, "");
}

#[test]
fn url_is_kept_in_normal_form() {
    let descriptor = parse_descriptor(&object(minimal()), "robot.json").unwrap();
    assert_eq!(descriptor.serial_getter.url, "http://example.com/serial");
    assert_eq!(descriptor.pinger.url, "http://example.com/");
}

#[test]
fn url_may_hold_the_address_placeholder() {
    let doc = object(vec![("url", text("http://$ADDR$/ping"))]);
    let pinger = parse_pinger(&doc, "robot.json").unwrap();
    assert_eq!(pinger.url, "http://$addr$/ping");
}

#[test]
fn missing_required_attribute_is_named() {
    for name in ["root_user", "start_cmd", "stop_cmd", "serial_getter", "pinger"] {
        expect_missing(parse_descriptor(&object(without(minimal(), name)), "robot.json"), name);
    }
}

#[test]
fn first_missing_attribute_decides() {
    let entries = without(without(minimal(), "pinger"), "root_user");
    expect_missing(parse_descriptor(&object(entries), "robot.json"), "root_user");
}

#[test]
fn document_that_is_no_object_lacks_root_user() {
    expect_missing(parse_descriptor(&text("descriptor"), "robot.json"), "root_user");
    expect_missing(parse_descriptor(&Document::Null, "robot.json"), "root_user");
    expect_missing(parse_descriptor(&array(vec![]), "robot.json"), "root_user");
}

#[test]
fn text_attribute_of_another_shape_is_refused() {
    let cases = [
        ("root_user", "the username of the root user on the target"),
        ("root_pass", "the password of the root user on the target"),
        ("path", "the unix path to the deploy directory on the target"),
        ("start_cmd", "the command to start the robot-code on the target"),
        ("stop_cmd", "the command to stop the robot-code on the target"),
        (
            "dep_lib_path",
            "the path to the deploy libraries relative to the deploy directory on the target",
        ),
    ];
    for (name, hint) in cases {
        let entries = with(minimal(), name, Document::Number("5".to_string()));
        expect_malformed(parse_descriptor(&object(entries), "robot.json"), name, hint);
    }
}

#[test]
fn probe_that_is_no_object_lacks_its_url() {
    let entries = with(minimal(), "serial_getter", text("http://example.com"));
    expect_missing(parse_descriptor(&object(entries), "robot.json"), "url");
    let entries = with(minimal(), "pinger", Document::Null);
    expect_missing(parse_descriptor(&object(entries), "robot.json"), "url");
}

#[test]
fn serial_getter_is_read_before_pinger_is_looked_for() {
    let broken = with(serial_getter_entries(), "format", text("yaml"));
    let entries = without(with(minimal(), "serial_getter", object(broken)), "pinger");
    expect_malformed(
        parse_descriptor(&object(entries), "robot.json"),
        "format",
        "a string that can be parsed as a format [json, xml, regex]",
    );
}

#[test]
fn serial_getter_needs_url_format_and_paths() {
    for name in ["url", "format", "paths"] {
        let doc = object(without(serial_getter_entries(), name));
        expect_missing(parse_serial_getter(&doc, "robot.json"), name);
    }
}

#[test]
fn url_of_another_shape_is_refused() {
    let doc = object(with(serial_getter_entries(), "url", Document::Bool(true)));
    expect_malformed(
        parse_serial_getter(&doc, "robot.json"),
        "url",
        "the url to get the serial number from, will interpolate $ADDR$ with the address of the target",
    );
    let doc = object(vec![("url", array(vec![]))]);
    expect_malformed(
        parse_pinger(&doc, "robot.json"),
        "url",
        "the url to use, will interpolate $ADDR$ with the address of the target",
    );
}

#[test]
fn relative_url_is_refused() {
    let doc = object(vec![("url", text("/serial"))]);
    expect_malformed(parse_pinger(&doc, "robot.json"), "url", "a string that can be parsed as a url");
    let doc = object(with(serial_getter_entries(), "url", text("not a url")));
    expect_malformed(
        parse_serial_getter(&doc, "robot.json"),
        "url",
        "a string that can be parsed as a url",
    );
}

#[test]
fn url_result_that_is_handed_in_decides() {
    let doc = object(serial_getter_entries());
    expect_malformed(
        serial_getter_with_url(&doc, "robot.json", None),
        "url",
        "a string that can be parsed as a url",
    );
    let probe = serial_getter_with_url(&doc, "robot.json", Some("ftp://x/".to_string())).unwrap();
    assert_eq!(probe.url, "ftp://x/");
    let doc = object(vec![]);
    expect_malformed(
        pinger_with_url(&doc, "robot.json", None),
        "url",
        "a string that can be parsed as a url",
    );
    let probe = pinger_with_url(&doc, "robot.json", Some("http://y/".to_string())).unwrap();
    assert_eq!(probe.url, "http://y/");
    assert_eq!(probe.method, HttpMethod::Get);
}

#[test]
fn every_verb_is_read() {
    let verbs = [
        ("GET", HttpMethod::Get),
        ("POST", HttpMethod::Post),
        ("PUT", HttpMethod::Put),
        ("DELETE", HttpMethod::Delete),
        ("HEAD", HttpMethod::Head),
        ("OPTIONS", HttpMethod::Options),
        ("CONNECT", HttpMethod::Connect),
        ("PATCH", HttpMethod::Patch),
    ];
    for (word, verb) in verbs {
        let doc = object(with(pinger_entries(), "method", text(word)));
        assert_eq!(parse_pinger(&doc, "robot.json").unwrap().method, verb);
        let doc = object(with(serial_getter_entries(), "method", text(word)));
        assert_eq!(parse_serial_getter(&doc, "robot.json").unwrap().method, verb);
        assert_eq!(HttpMethod::from_word(word), Some(verb));
        assert_eq!(verb.as_str(), word);
    }
}

#[test]
fn unknown_method_is_refused() {
    for word in ["get", "Post", "TRACE", "", " GET", "BREW"] {
        let doc = object(with(pinger_entries(), "method", text(word)));
        expect_malformed(
            parse_pinger(&doc, "robot.json"),
            "method",
            "a string that can be parsed as a method",
        );
        let doc = object(with(serial_getter_entries(), "method", text(word)));
        expect_malformed(
            parse_serial_getter(&doc, "robot.json"),
            "method",
            "a string that can be parsed as a method",
        );
        assert_eq!(HttpMethod::from_word(word), None);
    }
}

#[test]
fn method_of_another_shape_is_refused() {
    let doc = object(with(pinger_entries(), "method", Document::Null));
    expect_malformed(
        parse_pinger(&doc, "robot.json"),
        "method",
        "the method to use to ping the target",
    );
    let doc = object(with(serial_getter_entries(), "method", Document::Bool(false)));
    expect_malformed(
        parse_serial_getter(&doc, "robot.json"),
        "method",
        "the method to use to get the serial number from the target",
    );
}

#[test]
fn every_format_is_read() {
    let formats =
        [("json", ParserFormat::JSON), ("xml", ParserFormat::XML), ("regex", ParserFormat::REGEX)];
    for (word, format) in formats {
        let doc = object(with(serial_getter_entries(), "format", text(word)));
        assert_eq!(parse_serial_getter(&doc, "robot.json").unwrap().format, format);
        assert_eq!(ParserFormat::from_word(word), Some(format));
        assert_eq!(format.as_str(), word);
    }
    assert_eq!(ParserFormat::JSON.variant_name(), "JSON");
    assert_eq!(ParserFormat::XML.variant_name(), "XML");
    assert_eq!(ParserFormat::REGEX.variant_name(), "REGEX");
}

#[test]
fn unknown_format_is_refused() {
    for word in ["yaml", "JSON", "", "json "] {
        let doc = object(with(serial_getter_entries(), "format", text(word)));
        expect_malformed(
            parse_serial_getter(&doc, "robot.json"),
            "format",
            "a string that can be parsed as a format [json, xml, regex]",
        );
    }
    let doc = object(with(serial_getter_entries(), "format", Document::Number("1".to_string())));
    expect_malformed(parse_serial_getter(&doc, "robot.json"), "format", "the format of the keys");
}

#[test]
fn paths_must_be_an_array_of_strings() {
    let doc = object(with(serial_getter_entries(), "paths", text("a.serial")));
    expect_malformed(
        parse_serial_getter(&doc, "robot.json"),
        "paths",
        "The keys to the serial number in the response",
    );
    let doc = object(with(
        serial_getter_entries(),
        "paths",
        array(vec![text("a"), Document::Number("1".to_string())]),
    ));
    expect_malformed(parse_serial_getter(&doc, "robot.json"), "paths", "an array of strings");
}

#[test]
fn json_probe_needs_a_path() {
    let doc = object(with(serial_getter_entries(), "paths", array(vec![])));
    expect_malformed(
        parse_serial_getter(&doc, "robot.json"),
        "paths",
        "The keys to the serial number in the response",
    );
    let entries = with(serial_getter_entries(), "paths", array(vec![]));
    let doc = object(with(entries, "format", text("xml")));
    let probe = parse_serial_getter(&doc, "robot.json").unwrap();
    assert!(probe.paths.is_empty());
    assert_eq!(probe.format, ParserFormat::XML);
}

#[test]
fn headers_are_kept_in_lower_case() {
    let doc = object(vec![
        ("url", text("http://example.com")),
        ("headers", object(vec![("X-Token", text("abc")), ("Accept", text("text/plain"))])),
    ]);
    let pinger = parse_pinger(&doc, "robot.json").unwrap();
    assert_eq!(pinger.headers.len(), 2);
    assert_eq!(pinger.headers.get("x-token").unwrap(), "abc");
    assert_eq!(pinger.headers.get("accept").unwrap(), "text/plain");
    let names: Vec<&str> = pinger.headers.keys().map(|name| name.as_str()).collect();
    assert!(names.contains(&"x-token"));
    assert!(!names.contains(&"X-Token"));
}

#[test]
fn headers_of_one_name_are_kept_in_their_order() {
    let doc = object(with(
        serial_getter_entries(),
        "headers",
        object(vec![("Accept", text("a")), ("x", text("b")), ("ACCEPT", text("c"))]),
    ));
    let probe = parse_serial_getter(&doc, "robot.json").unwrap();
    assert_eq!(probe.headers.len(), 3);
    assert_eq!(probe.headers.keys_len(), 2);
    let values: Vec<&str> =
        probe.headers.get_all("accept").iter().map(|value| value.to_str().unwrap()).collect();
    assert_eq!(values, vec!["a", "c"]);
}

#[test]
fn header_value_keeps_its_bytes() {
    let doc = object(with(
        pinger_entries(),
        "headers",
        object(vec![("x-name", text("caf\u{e9}\tbar"))]),
    ));
    let pinger = parse_pinger(&doc, "robot.json").unwrap();
    assert_eq!(pinger.headers.get("x-name").unwrap().as_bytes(), "caf\u{e9}\tbar".as_bytes());
}

#[test]
fn headers_must_be_an_object() {
    for value in [Document::Null, text("x"), array(vec![])] {
        let doc = object(with(pinger_entries(), "headers", value));
        expect_malformed(
            parse_pinger(&doc, "robot.json"),
            "headers",
            "Additional headers to send with the request",
        );
    }
}

#[test]
fn header_that_cannot_be_sent_is_refused() {
    let bad = [
        ("x-number", Document::Number("1".to_string())),
        ("x-null", Document::Null),
        ("", text("empty name")),
        ("two words", text("space in name")),
        ("x\u{e9}", text("letter outside the alphabet")),
        ("x:y", text("colon in name")),
        ("x-value", text("line\nbreak")),
        ("x-value", text("delete\u{7f}")),
        ("x-value", text("\u{0}")),
    ];
    for (name, value) in bad {
        let headers = object(vec![("accept", text("fine")), (name, value)]);
        let doc = object(with(pinger_entries(), "headers", headers));
        expect_malformed(parse_pinger(&doc, "robot.json"), "headers", "an object of strings");
    }
}

#[test]
fn every_token_character_may_stand_in_a_header_name() {
    let name = "!#$%&'*+-.^_`|~0123456789abcdefghijklmnopqrstuvwxyzABCDEFGHIJKLMNOPQRSTUVWXYZ";
    let entries = vec![(name.to_string(), text("v"))];
    let map = headers_from(&entries).unwrap();
    assert_eq!(map.len(), 1);
    assert_eq!(map.get(name.to_lowercase().as_str()).unwrap(), "v");
    for c in "\"(),/:;<=>?@[\\]{} \t".chars() {
        let entries = vec![(format!("x{}", c), text("v"))];
        assert!(headers_from(&entries).is_none());
    }
}

#[test]
fn header_name_may_be_as_long_as_the_limit() {
    let longest = "a".repeat(65535);
    let entries = vec![(longest.clone(), text("v"))];
    assert_eq!(headers_from(&entries).unwrap().get(longest.as_str()).unwrap(), "v");
    let entries = vec![("a".repeat(65536), text("v"))];
    assert!(headers_from(&entries).is_none());
}

#[test]
fn many_headers_are_taken() {
    let entries: Vec<(String, Document)> =
        (0..6554).map(|i| (format!("x-{}", i), text("v"))).collect();
    let map = headers_from(&entries).unwrap();
    assert_eq!(map.len(), 6554);
    assert_eq!(map.get("x-6553").unwrap(), "v");
}

#[test]
fn first_entry_of_a_repeated_key_is_read() {
    let doc = Document::Object(vec![
        ("url".to_string(), text("http://first.example/")),
        ("url".to_string(), text("http://second.example/")),
    ]);
    assert_eq!(parse_pinger(&doc, "robot.json").unwrap().url, "http://first.example/");
}

#[test]
fn field_rules_read_what_is_there() {
    let doc = object(vec![("name", text("value")), ("count", Document::Number("3".to_string()))]);
    assert_eq!(required_str(&doc, "name", "a text", "robot.json").unwrap(), "value");
    assert_eq!(defaulted_str(&doc, "name", "a text", "robot.json", "none").unwrap(), "value");
    assert_eq!(defaulted_str(&doc, "other", "a text", "robot.json", "none").unwrap(), "none");
    expect_missing(required_str(&doc, "other", "a text", "robot.json"), "other");
    expect_malformed(required_str(&doc, "count", "a text", "robot.json"), "count", "a text");
    expect_malformed(
        defaulted_str(&doc, "count", "a text", "robot.json", "none"),
        "count",
        "a text",
    );
    assert!(matches!(required_value(&doc, "count", "robot.json"), Ok(Document::Number(_))));
    expect_missing(required_value(&doc, "other", "robot.json"), "other");
}

#[test]
fn failures_are_reported_in_a_sentence() {
    let missing = DescriptorParseError::MissingAttribute { name: "pinger", file_name: "robot.json" };
    assert_eq!(missing.message(), "Failed to get attribute pinger from robot.json");
    let malformed = DescriptorParseError::ParseAttribute {
        name: "method",
        hint: "a string that can be parsed as a method",
        file_name: "robot.json",
    };
    assert_eq!(
        malformed.message(),
        "Failed to parse attribute method from robot.json, should be a string that can be parsed as a method"
    );
}

#[test]
fn read_probe_gives_its_words_back() {
    let entries = with(serial_getter_entries(), "method", text("PUT"));
    let probe = parse_serial_getter(&object(entries), "robot.json").unwrap();
    assert_eq!(probe.method.as_str(), "PUT");
    assert_eq!(probe.format.as_str(), "json");
    assert_eq!(HttpMethod::from_word(probe.method.as_str()), Some(HttpMethod::Put));
    assert_eq!(ParserFormat::from_word(probe.format.as_str()), Some(ParserFormat::JSON));
    let again = object(vec![
        ("url", text(&probe.url)),
        ("method", text(probe.method.as_str())),
        ("format", text(probe.format.as_str())),
        ("paths", array(probe.paths.iter().map(|p| text(p)).collect())),
    ]);
    let second = parse_serial_getter(&again, "robot.json").unwrap();
    assert_eq!(second.url, probe.url);
    assert_eq!(second.method, probe.method);
    assert_eq!(second.format, probe.format);
    assert_eq!(second.paths, probe.paths);
}
