use cargo_frc::configs::global_config::GlobalConfig;
use cargo_frc::configs::project_config::{
    read_address, read_default_check, read_deploy_dir, read_project_config, read_robot,
    read_robots, read_serials, read_team, Ipv4Address, Runtimes, TargetDirs, TeamNumber, DEFAULT_CFG,
    DEV_CFG, RUNTIME_REAL_CFG, RUNTIME_SIM_CFG,
};
use cargo_frc::document::Document;
use cargo_frc::errors::{
    CheckSubcommandError, ProjectConfigError, RuntimeError, TestSubcommandError,
};

fn text(s: &str) -> Document {
    Document::String(s.to_string())
}

fn number(s: &str) -> Document {
    Document::Number(s.to_string())
}

fn object(entries: Vec<(&str, Document)>) -> Document {
    Document::Object(entries.into_iter().map(|(k, v)| (k.to_string(), v)).collect())
}

fn array(items: Vec<Document>) -> Document {
    Document::Array(items)
}

fn dirs() -> TargetDirs {
    TargetDirs {
        real_dev: "target/real-dev".to_string(),
        real: "target/real".to_string(),
        sim_dev: "target/sim-dev".to_string(),
        sim: "target/sim".to_string(),
    }
}

fn robot(name: &str, serials: Vec<&str>) -> Document {
    object(vec![("name", text(name)), ("serials", array(serials.into_iter().map(text).collect()))])
}

fn settings() -> Vec<(&'static str, Document)> {
    vec![
        ("team", number("1234")),
        ("robots", array(vec![robot("comp", vec!["A1", "B2"]), robot("practice", vec!["C3"])])),
        ("default-check", text("sim")),
    ]
}

fn with(
    entries: Vec<(&'static str, Document)>,
    name: &'static str,
    value: Document,
) -> Vec<(&'static str, Document)> {
    let mut entries: Vec<_> = entries.into_iter().filter(|(k, _)| *k != name).collect();
    entries.push((name, value));
    entries
}

fn missing<T: std::fmt::Debug>(read: Result<T, ProjectConfigError>, attribute: &str) {
    match read {
        Err(ProjectConfigError::MissingAttribute(name)) => assert_eq!(name, attribute),
        other => panic!("{:?}", other),
    }
}

fn malformed<T: std::fmt::Debug>(read: Result<T, ProjectConfigError>, attribute: &str, expected: &str) {
    match read {
        Err(ProjectConfigError::ParseAttribute(name, hint)) => {
            assert_eq!(name, attribute);
            assert_eq!(hint, expected);
        },
        other => panic!("{:?}", other),
    }
}

const TEAM_HINT: &str = "a number or a string that can be parsed as a number thats less than 65536";
const ADDRESS_HINT: &str = "a string that can be parsed as an ipv4 address";

#[test]
fn settings_are_read() {
    let mut entries = settings();
    entries.push(("override-address", text("10.12.34.2")));
    entries.push(("deploy-dir", text("robot")));
    let config = read_project_config(&object(entries), dirs()).unwrap();
    assert_eq!(config.team, TeamNumber(1234));
    assert_eq!(config.robots.len(), 2);
    assert_eq!(config.robots[0].name, "comp");
    assert_eq!(config.robots[0].serials, vec!["A1".to_string(), "B2".to_string()]);
    assert_eq!(config.robots[1].name, "practice");
    assert_eq!(config.robots[1].serials, vec!["C3".to_string()]);
    assert_eq!(config.address, Some(Ipv4Address(10, 12, 34, 2)));
    assert_eq!(config.deploy_dir, Some("robot".to_string()));
    assert_eq!(config.default_check, Runtimes::Sim);
    assert_eq!(config.target_dirs.real_dev, "target/real-dev");
    assert_eq!(config.target_dirs.real, "target/real");
    assert_eq!(config.target_dirs.sim_dev, "target/sim-dev");
    assert_eq!(config.target_dirs.sim, "target/sim");
}

#[test]
fn optional_settings_may_be_left_out() {
    let config = read_project_config(&object(settings()), dirs()).unwrap();
    assert_eq!(config.address, None);
    assert_eq!(config.deploy_dir, None);
}

#[test]
fn settings_fail_on_the_first_attribute_that_fails() {
    missing(read_project_config(&object(vec![]), dirs()), "team");
    missing(read_project_config(&text("x"), dirs()), "team");
    missing(read_project_config(&object(vec![("team", number("1"))]), dirs()), "robots");
    let entries = vec![("team", number("1")), ("robots", array(vec![]))];
    missing(read_project_config(&object(entries), dirs()), "default-check");
    let entries = with(with(settings(), "override-address", number("1")), "team", text("x"));
    malformed(read_project_config(&object(entries), dirs()), "team", TEAM_HINT);
    let entries = with(with(settings(), "deploy-dir", number("1")), "override-address", number("1"));
    malformed(read_project_config(&object(entries), dirs()), "override-address", ADDRESS_HINT);
}

#[test]
fn team_is_a_number_or_a_string_that_writes_one() {
    let team = |value: Document| read_team(&object(vec![("team", value)]));
    assert_eq!(team(number("0")).unwrap(), TeamNumber(0));
    assert_eq!(team(number("1234")).unwrap(), TeamNumber(1234));
    assert_eq!(team(number("65535")).unwrap(), TeamNumber(65535));
    assert_eq!(team(text("1234")).unwrap(), TeamNumber(1234));
    assert_eq!(team(text("+1234")).unwrap(), TeamNumber(1234));
    assert_eq!(team(text("0042")).unwrap(), TeamNumber(42));
    assert_eq!(team(text("65535")).unwrap(), TeamNumber(65535));
    for value in ["65536", "-1", "1.0", "1e3", "18446744073709551616", "99999999999999999999999"] {
        malformed(team(number(value)), "team", TEAM_HINT);
    }
    for value in ["65536", "-1", "", "+", "++1", "12 ", " 12", "1_000", "0x10", "12a", "\u{663}"] {
        malformed(team(text(value)), "team", TEAM_HINT);
    }
    malformed(team(Document::Null), "team", TEAM_HINT);
    malformed(team(Document::Bool(true)), "team", TEAM_HINT);
    malformed(team(array(vec![number("1")])), "team", TEAM_HINT);
    missing(read_team(&object(vec![])), "team");
}

#[test]
fn robots_are_read_in_their_order() {
    let doc = object(vec![("robots", array(vec![robot("b", vec![]), robot("a", vec!["x"])]))]);
    let robots = read_robots(&doc).unwrap();
    assert_eq!(robots.len(), 2);
    assert_eq!(robots[0].name, "b");
    assert!(robots[0].serials.is_empty());
    assert_eq!(robots[1].name, "a");
    assert_eq!(robots[1].serials, vec!["x".to_string()]);
    assert!(read_robots(&object(vec![("robots", array(vec![]))])).unwrap().is_empty());
}

#[test]
fn each_serial_is_kept_once() {
    let robot = read_robot(&robot("comp", vec!["A1", "B2", "A1", "C3", "B2", "A1"])).unwrap();
    assert_eq!(robot.serials, vec!["A1".to_string(), "B2".to_string(), "C3".to_string()]);
    let serials = read_serials(&vec![text("x"), text("x"), text("X")]).unwrap();
    assert_eq!(serials, vec!["x".to_string(), "X".to_string()]);
    assert_eq!(read_serials(&vec![]), Some(vec![]));
    assert_eq!(read_serials(&vec![text("x"), number("1")]), None);
}

#[test]
fn robots_of_another_shape_are_refused() {
    let hint = "an array of objects with a name and serials attribute";
    missing(read_robots(&object(vec![])), "robots");
    malformed(read_robots(&object(vec![("robots", text("comp"))])), "robots", hint);
    malformed(read_robots(&object(vec![("robots", object(vec![]))])), "robots", hint);
    let list = |robots: Vec<Document>| read_robots(&object(vec![("robots", array(robots))]));
    missing(list(vec![text("comp")]), "robots[i].name");
    missing(list(vec![object(vec![("serials", array(vec![]))])]), "robots[i].name");
    malformed(list(vec![object(vec![("name", number("1"))])]), "robots[i].name", "a string");
    missing(list(vec![object(vec![("name", text("comp"))])]), "robots[i].serials");
    let serials_hint = "an array of strings";
    malformed(
        list(vec![object(vec![("name", text("comp")), ("serials", text("A1"))])]),
        "robots[i].serials",
        serials_hint,
    );
    malformed(
        list(vec![object(vec![("name", text("comp")), ("serials", array(vec![number("1")]))])]),
        "robots[i].serials",
        serials_hint,
    );
}

#[test]
fn first_robot_that_fails_decides() {
    let list = |robots: Vec<Document>| read_robots(&object(vec![("robots", array(robots))]));
    let nameless = object(vec![("serials", array(vec![]))]);
    let without_serials = object(vec![("name", text("b"))]);
    missing(
        list(vec![robot("a", vec![]), without_serials, nameless]),
        "robots[i].serials",
    );
    let nameless = object(vec![("serials", array(vec![]))]);
    let without_serials = object(vec![("name", text("b"))]);
    missing(list(vec![nameless, without_serials]), "robots[i].name");
}

#[test]
fn override_address_is_written_in_dotted_notation() {
    let address = |value: &str| read_address(&object(vec![("override-address", text(value))]));
    assert_eq!(address("10.12.34.2").unwrap(), Some(Ipv4Address(10, 12, 34, 2)));
    assert_eq!(address("0.0.0.0").unwrap(), Some(Ipv4Address(0, 0, 0, 0)));
    assert_eq!(address("255.255.255.255").unwrap(), Some(Ipv4Address(255, 255, 255, 255)));
    assert_eq!(address("192.168.0.1").unwrap(), Some(Ipv4Address(192, 168, 0, 1)));
    let refused = [
        "", "10.12.34", "10.12.34.2.1", "10.12.34.256", "10.12.34.-2", "10.12.34.02", "10.012.34.2",
        "00.1.2.3", "10.12.34.", ".10.12.34", "10..34.2", "10.12.34.2 ", " 10.12.34.2",
        "10.12.34.0x2", "a.b.c.d", "10,12,34,2", "10.12.34.+2", "1000.1.1.1", "localhost",
        "::1", "10.12.34.\u{662}",
    ];
    for value in refused {
        malformed(address(value), "override-address", ADDRESS_HINT);
    }
    assert_eq!(read_address(&object(vec![])).unwrap(), None);
    let doc = object(vec![("override-address", number("10"))]);
    malformed(read_address(&doc), "override-address", ADDRESS_HINT);
    let doc = object(vec![("override-address", Document::Null)]);
    malformed(read_address(&doc), "override-address", ADDRESS_HINT);
}

#[test]
fn written_address_has_four_plain_numbers() {
    let samples = [
        ("10.12.34.2", Some(Ipv4Address(10, 12, 34, 2))),
        ("9.9.9.9", Some(Ipv4Address(9, 9, 9, 9))),
        ("127.0.0.1", Some(Ipv4Address(127, 0, 0, 1))),
        ("1.2.3", None),
        ("1.2.3.4.5", None),
        ("01.2.3.4", None),
        ("1.2.3.04", None),
        ("099.1.1.1", None),
        ("0.00.0.0", None),
        ("256.1.1.1", None),
        ("1.1.1.256", None),
        (".", None),
        ("...", None),
        ("1.2.3.", None),
        ("1..2.3", None),
        ("+1.2.3.4", None),
        ("1.2.3.4\n", None),
        ("1.2.3.a", None),
    ];
    for (written, expected) in samples {
        let read = read_address(&object(vec![("override-address", text(written))])).ok();
        assert_eq!(read, expected.map(Some));
    }
}

#[test]
fn written_team_agrees_with_the_standard_reading() {
    let samples = [
        "0", "1", "1234", "65535", "65536", "+0", "+65535", "+65536", "-0", "-1", "", "+", "-",
        "00000000000000000001", "000065535", "000065536", "1 ", "١", "1e2", "99999999999999999999",
    ];
    for written in samples {
        let read = read_team(&object(vec![("team", text(written))])).ok();
        let standard = written.parse::<u16>().ok().map(TeamNumber);
        assert_eq!(read, standard);
    }
}

#[test]
fn deploy_dir_is_a_string_where_it_is_there() {
    assert_eq!(read_deploy_dir(&object(vec![])).unwrap(), None);
    let doc = object(vec![("deploy-dir", text("robot/code"))]);
    assert_eq!(read_deploy_dir(&doc).unwrap(), Some("robot/code".to_string()));
    let doc = object(vec![("deploy-dir", text(""))]);
    assert_eq!(read_deploy_dir(&doc).unwrap(), Some(String::new()));
    let doc = object(vec![("deploy-dir", number("1"))]);
    malformed(
        read_deploy_dir(&doc),
        "deploy-dir",
        "a string that can be used as a unix path, will be used relative to the deploy user's home directory",
    );
}

#[test]
fn default_check_is_real_or_sim() {
    let hint = "a string that is either \"real\" or \"sim\"";
    let check = |value: Document| read_default_check(&object(vec![("default-check", value)]));
    assert_eq!(check(text("real")).unwrap(), Runtimes::Real);
    assert_eq!(check(text("sim")).unwrap(), Runtimes::Sim);
    for word in ["Real", "SIM", "", "simulation", "real "] {
        malformed(check(text(word)), "default-check", hint);
    }
    malformed(check(Document::Bool(true)), "default-check", hint);
    missing(read_default_check(&object(vec![])), "default-check");
}

#[test]
fn configuration_flags_are_named() {
    assert_eq!(RUNTIME_REAL_CFG, "frc_real");
    assert_eq!(RUNTIME_SIM_CFG, "frc_sim");
    assert_eq!(DEV_CFG, "frc_dev");
    assert_eq!(DEFAULT_CFG, "frc");
}

#[test]
fn failures_are_collected_by_command() {
    let check = CheckSubcommandError::FailedCargoCheck { code: Some(101) };
    assert!(matches!(
        RuntimeError::from(check),
        RuntimeError::Check(CheckSubcommandError::FailedCargoCheck { code: Some(101) })
    ));
    assert!(matches!(
        RuntimeError::from(TestSubcommandError::FailedToSpawnCargoTest),
        RuntimeError::Test(TestSubcommandError::FailedToSpawnCargoTest)
    ));
    assert!(matches!(
        RuntimeError::from(ProjectConfigError::MissingAttribute("team")),
        RuntimeError::Config(ProjectConfigError::MissingAttribute("team"))
    ));
    assert!(matches!(
        RuntimeError::from(ProjectConfigError::MissingFrcMetadata),
        RuntimeError::Config(ProjectConfigError::MissingFrcMetadata)
    ));
}

#[test]
fn global_settings_hold_team_and_paths() {
    let config = GlobalConfig { team: Some(1234), deploy_descriptor_paths: vec!["a".to_string()] };
    assert_eq!(config.team, Some(1234));
    assert_eq!(config.deploy_descriptor_paths, vec!["a".to_string()]);
}

#[test]
fn number_of_a_document_is_read_from_its_digits() {
    assert_eq!(number("0").as_u64(), Some(0));
    assert_eq!(number("18446744073709551615").as_u64(), Some(u64::MAX));
    assert_eq!(number("18446744073709551616").as_u64(), None);
    assert_eq!(number("-1").as_u64(), None);
    assert_eq!(number("1.5").as_u64(), None);
    assert_eq!(number("").as_u64(), None);
    assert_eq!(text("1").as_u64(), None);
    assert_eq!(Document::Null.as_u64(), None);
}
