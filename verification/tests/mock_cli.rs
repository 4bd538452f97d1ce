use rusty_claw::json::codec::decode;
use rusty_claw::mock_cli::{
    load_fixture, CliArgs, Invocation, DEFAULT_DELAY_MS, HELP_TEXT, VERSION,
};
use rusty_claw::text::{parse_u64, strip_prefix};
use rusty_claw::transport::CliDiscovery;

fn args(list: &[&str]) -> Vec<String> {
    list.iter().map(|arg| arg.to_string()).collect()
}

fn replay(list: &[&str]) -> CliArgs {
    match CliArgs::parse(&args(list)).unwrap() {
        Invocation::Replay(found) => found,
        other => panic!("unexpected {:?}", other),
    }
}

#[test]
fn numbers_in_decimal_notation() {
    assert_eq!(parse_u64("0"), Some(0));
    assert_eq!(parse_u64("20"), Some(20));
    assert_eq!(parse_u64("+7"), Some(7));
    assert_eq!(parse_u64("007"), Some(7));
    assert_eq!(parse_u64("18446744073709551615"), Some(u64::MAX));
    assert_eq!(parse_u64("+18446744073709551615"), Some(u64::MAX));
    assert_eq!(parse_u64("000018446744073709551615"), Some(u64::MAX));
    for text in [
        "", "+", "-1", "-0", "1.5", " 1", "1 ", "1_000", "0x10", "++1", "1+", "٣",
        "18446744073709551616", "18446744073709551620", "99999999999999999999",
        "184467440737095516150", "1e3",
    ] {
        assert_eq!(parse_u64(text), None, "{:?}", text);
        assert_eq!(parse_u64(text), text.parse::<u64>().ok(), "{:?}", text);
    }
    for text in ["0", "+7", "007", "18446744073709551615"] {
        assert_eq!(parse_u64(text), text.parse::<u64>().ok(), "{:?}", text);
    }
}

#[test]
fn what_is_left_after_a_prefix() {
    assert_eq!(strip_prefix("--delay=50", "--delay="), Some("50"));
    assert_eq!(strip_prefix("--delay=", "--delay="), Some(""));
    assert_eq!(strip_prefix("--delay", "--delay="), None);
    assert_eq!(strip_prefix("-delay=50", "--delay="), None);
    assert_eq!(strip_prefix("anything", ""), Some("anything"));
    assert_eq!(strip_prefix("", ""), Some(""));
    assert_eq!(strip_prefix("", "a"), None);
    assert_eq!(strip_prefix("épée", "ép"), Some("ée"));
}

#[test]
fn the_arguments_of_a_replay() {
    let found = replay(&["mock_cli", "--fixture=simple_query.ndjson"]);
    assert_eq!(found.fixture_path.as_deref(), Some("simple_query.ndjson"));
    assert_eq!(found.delay_ms, DEFAULT_DELAY_MS);
    assert_eq!(DEFAULT_DELAY_MS, 20);
    let found = replay(&["mock_cli", "--fixture=a", "--delay=50", "--fixture=b", "--delay=0"]);
    assert_eq!(found.fixture_path.as_deref(), Some("b"));
    assert_eq!(found.delay_ms, 0);
    let found = replay(&["mock_cli", "--output-format=stream-json", "--model=m", "--model="]);
    assert_eq!(found.fixture_path, None);
    assert_eq!(found.delay_ms, 20);
    let found = replay(&["mock_cli"]);
    assert_eq!(found.fixture_path, None);
    let found = replay(&[]);
    assert_eq!(found.fixture_path, None);
    assert_eq!(found.delay_ms, 20);
    let found = replay(&["--version"]);
    assert_eq!(found.fixture_path, None);
    let found = replay(&["mock_cli", "--fixture="]);
    assert_eq!(found.fixture_path.as_deref(), Some(""));
}

#[test]
fn version_and_help_end_the_reading() {
    assert!(matches!(
        CliArgs::parse(&args(&["mock_cli", "--version", "--bogus"])),
        Ok(Invocation::Version)
    ));
    assert!(matches!(
        CliArgs::parse(&args(&["mock_cli", "--fixture=a", "--help", "--version"])),
        Ok(Invocation::Help)
    ));
}

#[test]
fn arguments_that_are_refused() {
    for (list, message) in [
        (vec!["mock_cli", "--bogus"], "Unknown argument: --bogus"),
        (vec!["mock_cli", "--bogus", "--version"], "Unknown argument: --bogus"),
        (vec!["mock_cli", "fixture.ndjson"], "Unknown argument: fixture.ndjson"),
        (vec!["mock_cli", "--model"], "Unknown argument: --model"),
        (vec!["mock_cli", "--output-format"], "Unknown argument: --output-format"),
        (vec!["mock_cli", "--delay=abc"], "Invalid delay value: abc"),
        (vec!["mock_cli", "--delay="], "Invalid delay value: "),
        (vec!["mock_cli", "--delay=-5", "--help"], "Invalid delay value: -5"),
        (
            vec!["mock_cli", "--delay=18446744073709551616"],
            "Invalid delay value: 18446744073709551616",
        ),
        (vec!["mock_cli", "--versions"], "Unknown argument: --versions"),
        (vec!["mock_cli", ""], "Unknown argument: "),
    ] {
        assert_eq!(CliArgs::parse(&args(&list)).unwrap_err(), message, "{:?}", list);
    }
}

#[test]
fn the_lines_of_a_fixture() {
    let lines = args(&[r#"{"type":"system"}"#, "", "   ", "[1, 2]", "\t", "null", r#" {"a": 1} "#]);
    assert_eq!(
        load_fixture(lines).unwrap(),
        args(&[r#"{"type":"system"}"#, "[1, 2]", "null", r#" {"a": 1} "#])
    );
    assert!(load_fixture(vec![]).unwrap().is_empty());
    assert!(load_fixture(args(&["", " "])).unwrap().is_empty());
}

#[test]
fn a_fixture_with_a_line_that_is_no_json() {
    let refused = load_fixture(args(&["{"])).unwrap_err();
    assert_eq!(refused.message, "Invalid JSON at line 1");
    assert_eq!(refused.line, 1);
    assert_eq!(refused.detail, decode("{").unwrap_err().to_string());
    assert!(!refused.detail.is_empty());
    let refused = load_fixture(args(&["{}", "", "not json", "{", "{}"])).unwrap_err();
    assert_eq!(refused.message, "Invalid JSON at line 3");
    assert_eq!(refused.line, 3);
    assert_eq!(refused.detail, decode("not json").unwrap_err().to_string());
    let mut many = vec!["1".to_string(); 11];
    many.push("{]".to_string());
    let refused = load_fixture(many).unwrap_err();
    assert_eq!(refused.message, "Invalid JSON at line 12");
    assert_eq!(refused.line, 12);
}

#[test]
fn test_mock_cli_version() {
    assert!(matches!(CliArgs::parse(&args(&["mock_cli", "--version"])), Ok(Invocation::Version)));
    assert!(VERSION.starts_with("2.0.0"));
    assert_eq!(CliDiscovery::validate_version(true, VERSION, "").unwrap(), "2.0.0");
}

#[test]
fn test_mock_cli_help() {
    assert!(matches!(CliArgs::parse(&args(&["mock_cli", "--help"])), Ok(Invocation::Help)));
    assert!(HELP_TEXT.contains("mock_cli"));
    assert!(HELP_TEXT.contains("--fixture"));
}

#[test]
fn test_mock_cli_replay_simple() {
    let found = replay(&["mock_cli", "--fixture=simple_query.ndjson", "--delay=0"]);
    assert_eq!(found.fixture_path.as_deref(), Some("simple_query.ndjson"));
    assert_eq!(found.delay_ms, 0);
    let lines = args(&[
        r#"{"type":"system","subtype":"init","session_id":"sess_simple_001","tools":[],"mcp_servers":[]}"#,
        r#"{"type":"assistant","message":{"role":"assistant","content":[{"type":"text","text":"hi"}]}}"#,
        "",
        r#"{"type":"result","subtype":"success","result":"done","num_turns":1}"#,
    ]);
    let replayed = load_fixture(lines).unwrap();
    let mut line_count = 0;
    for line in &replayed {
        decode(line).unwrap();
        line_count += 1;
    }
    assert_eq!(line_count, 3);
}
