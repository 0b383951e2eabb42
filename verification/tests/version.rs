use serde_json::Value;
use std::cmp::Ordering;
use tensorzero_core::client_input::{
    try_adjust_tool_call_arguments, ClientInput, ClientInputMessage, ClientInputMessageContent,
    ToolCallInput,
};
use tensorzero_core::numeral::{
    parse_bounded, parse_numeral, rank_versions, split_dots, ParseFault, Rank, VersionFault,
};
use tensorzero_core::types::Role;
use tensorzero_core::version::{compare_versions, supports_tool_call_arguments_object};

#[test]
fn test_compare_versions() {
    assert_eq!(compare_versions("2025.01.1", "2025.01.1").unwrap(), Ordering::Equal);
    assert_eq!(compare_versions("2025.01.1", "2025.01.01").unwrap(), Ordering::Equal);
    assert_eq!(compare_versions("2025.01.1", "2025.01.10").unwrap(), Ordering::Less);
    assert_eq!(compare_versions("2026.01.1", "2025.07.8").unwrap(), Ordering::Greater);

    let missing_component = compare_versions("2025.01", "2025.01.1").unwrap_err();
    assert!(
        missing_component.message().contains("component"),
        "Unexpected error: {}",
        missing_component.message()
    );

    let invalid_version = compare_versions("2025.01.1", "2025.01.a").unwrap_err();
    assert!(
        invalid_version.message().contains("invalid digit"),
        "Unexpected error: {}",
        invalid_version.message()
    );
}

fn tool_call(name: &str, arguments: Value) -> ClientInputMessageContent {
    ClientInputMessageContent::ToolCall(ToolCallInput {
        name: Some(name.to_string()),
        arguments: Some(arguments),
        raw_arguments: Some("My raw args".to_string()),
        id: "My id".to_string(),
        raw_name: Some("test_raw_name".to_string()),
    })
}

fn object() -> Value {
    serde_json::from_str(r#"{"key": "value"}"#).unwrap()
}

fn array() -> Value {
    Value::Array(vec![Value::String("First entry".to_string()), Value::Bool(true)])
}

#[test]
fn test_adjust_tool_call_args() {
    let input = ClientInput {
        system: None,
        messages: vec![ClientInputMessage {
            role: Role::User,
            content: vec![
                tool_call("test_name", object()),
                tool_call("other_test_name", Value::String("Initial string args".to_string())),
                tool_call("other_test_name", array()),
            ],
        }],
    };

    let expected_adjusted = ClientInput {
        system: None,
        messages: vec![ClientInputMessage {
            role: Role::User,
            content: vec![
                tool_call("test_name", Value::String(r#"{"key":"value"}"#.to_string())),
                tool_call("other_test_name", Value::String("Initial string args".to_string())),
                tool_call("other_test_name", array()),
            ],
        }],
    };

    // Versions greater or equal to `2025.03.3` leave the input as it is
    let mut non_adjusted = input.clone();
    try_adjust_tool_call_arguments(Some("2025.03.3"), &mut non_adjusted).unwrap();
    assert_eq!(input, non_adjusted);
    try_adjust_tool_call_arguments(Some("2026.01.01"), &mut non_adjusted).unwrap();
    assert_eq!(input, non_adjusted);

    // Without a gateway version, the input is adjusted
    let mut adjusted_no_version = input.clone();
    try_adjust_tool_call_arguments(None, &mut adjusted_no_version).unwrap();
    assert_eq!(expected_adjusted, adjusted_no_version);

    // With a version lower than `2025.03.3`, the input is adjusted
    let mut adjusted_with_version = input.clone();
    try_adjust_tool_call_arguments(Some("2025.03.2"), &mut adjusted_with_version).unwrap();
    assert_eq!(expected_adjusted, adjusted_with_version);
}

#[test]
fn adjusting_twice_changes_nothing_more() {
    let mut input = ClientInput {
        system: Some(Value::String("system".to_string())),
        messages: vec![ClientInputMessage {
            role: Role::Assistant,
            content: vec![
                tool_call("f", object()),
                ClientInputMessageContent::RawText { value: "raw".to_string() },
            ],
        }],
    };
    try_adjust_tool_call_arguments(None, &mut input).unwrap();
    let once = input.clone();
    try_adjust_tool_call_arguments(None, &mut input).unwrap();
    assert_eq!(once, input);
    assert_eq!(once.system, Some(Value::String("system".to_string())));
}

#[test]
fn unreadable_version_leaves_the_input() {
    let mut input = ClientInput {
        system: None,
        messages: vec![ClientInputMessage {
            role: Role::User,
            content: vec![tool_call("f", object())],
        }],
    };
    let before = input.clone();
    let err = try_adjust_tool_call_arguments(Some("2025.x.1"), &mut input).unwrap_err();
    assert_eq!(before, input);
    assert_eq!(
        err.message(),
        "Internal TensorZero Error: Internal error: Failed to parse first version string `2025.x.1`: invalid digit found in string"
    );
}

#[test]
fn supports_objects_from_the_minimum_version_on() {
    assert!(!supports_tool_call_arguments_object("2025.03.2").unwrap());
    assert!(supports_tool_call_arguments_object("2025.03.3").unwrap());
    assert!(supports_tool_call_arguments_object("2025.3.03").unwrap());
    assert!(supports_tool_call_arguments_object("2025.04.0").unwrap());
    assert!(!supports_tool_call_arguments_object("2024.12.99").unwrap());
    assert!(supports_tool_call_arguments_object("2025.03").is_err());
}

#[test]
fn version_faults() {
    assert_eq!(rank_versions("1.2", "1.3"), Ok(Rank::Less));
    assert_eq!(rank_versions("7", "7"), Ok(Rank::Equal));
    assert_eq!(rank_versions("+7", "7"), Ok(Rank::Equal));
    assert_eq!(rank_versions("", "1"), Err(VersionFault::First(ParseFault::Empty)));
    assert_eq!(rank_versions("1..2", "1.0.2"), Err(VersionFault::First(ParseFault::Empty)));
    assert_eq!(rank_versions("1.2", "1.-2"), Err(VersionFault::Second(ParseFault::InvalidDigit)));
    assert_eq!(rank_versions("1.+", "1.2"), Err(VersionFault::First(ParseFault::InvalidDigit)));
    assert_eq!(
        rank_versions("4294967296.0", "1.0"),
        Err(VersionFault::First(ParseFault::PosOverflow))
    );
    assert_eq!(rank_versions("4294967295.0", "1.0"), Ok(Rank::Greater));
    assert_eq!(rank_versions("1.2.3", "1.2"), Err(VersionFault::Components));
    // The first version is read first.
    assert_eq!(rank_versions("a", "b"), Err(VersionFault::First(ParseFault::InvalidDigit)));
    let error = compare_versions("1.2.3", "1.2").unwrap_err();
    assert_eq!(
        error.message(),
        "Internal TensorZero Error: Internal error: Version strings `1.2.3` and `1.2` have different number of components"
    );
}

#[test]
fn numerals_and_components() {
    let chars = |s: &str| s.chars().collect::<Vec<char>>();
    assert_eq!(parse_numeral(&chars("0012")), Ok(12));
    assert_eq!(parse_numeral(&chars("4294967295")), Ok(4294967295));
    assert_eq!(parse_numeral(&chars("4294967296")), Err(ParseFault::PosOverflow));
    assert_eq!(parse_numeral(&chars("99999999999a")), Err(ParseFault::PosOverflow));
    assert_eq!(parse_numeral(&chars("12a99999999999")), Err(ParseFault::InvalidDigit));
    assert_eq!(parse_bounded(&chars("18446744073709551615"), u64::MAX), Ok(u64::MAX));
    assert_eq!(
        parse_bounded(&chars("18446744073709551616"), u64::MAX),
        Err(ParseFault::PosOverflow)
    );
    assert_eq!(parse_bounded(&chars("05"), 5), Ok(5));
    assert_eq!(parse_bounded(&chars("6"), 5), Err(ParseFault::PosOverflow));
    assert_eq!(parse_bounded(&chars("10"), 5), Err(ParseFault::PosOverflow));
    assert_eq!(parse_bounded(&chars("0"), 0), Ok(0));
    assert_eq!(parse_bounded(&chars("1"), 0), Err(ParseFault::PosOverflow));
    assert_eq!(split_dots("2025.01.1"), vec![chars("2025"), chars("01"), chars("1")]);
    assert_eq!(split_dots(""), vec![chars("")]);
    assert_eq!(split_dots(".a."), vec![chars(""), chars("a"), chars("")]);
    // The same texts read as the standard library reads them.
    for text in ["0", "007", "+5", "-5", "", "+", "12x", "4294967295", "4294967296"] {
        let ours = parse_numeral(&chars(text)).ok();
        let theirs = text.parse::<u32>().ok();
        assert_eq!(ours, theirs, "{text}");
    }
}
