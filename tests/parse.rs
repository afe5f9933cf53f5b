use std::collections::VecDeque;

use run_one::{parse_args, parse_decimal, wait_notice, ParseError, WAIT_VAR};

fn make_args(args: &[&str]) -> VecDeque<String> {
    args.iter().map(|s| s.to_string()).collect()
}

fn make_vars(vars: &[(&str, &str)]) -> Vec<(String, String)> {
    vars.iter()
        .map(|(k, v)| (k.to_string(), v.to_string()))
        .collect::<Vec<_>>()
}

#[test]
fn test_parse_args_simple_command() {
    let args = make_args(&["run-one", "echo", "hello"]);
    let vars = make_vars(&[]);

    let cmd = parse_args(args, vars).unwrap();

    assert_eq!(cmd.cmd, "echo");
    assert_eq!(cmd.args, vec!["hello"]);
    assert_eq!(cmd.wait, None);
}

#[test]
fn test_parse_args_command_without_arguments() {
    let args = make_args(&["run-one", "ls"]);
    let vars = make_vars(&[]);

    let cmd = parse_args(args, vars).unwrap();

    assert_eq!(cmd.cmd, "ls");
    assert!(cmd.args.is_empty());
    assert_eq!(cmd.wait, None);
}

#[test]
fn test_parse_args_with_wait_env_var() {
    let args = make_args(&["run-one", "echo", "test"]);
    let vars = make_vars(&[("RUN_ONE_WAIT", "5")]);

    let cmd = parse_args(args, vars).unwrap();

    assert_eq!(cmd.cmd, "echo");
    assert_eq!(cmd.args, vec!["test"]);
    assert_eq!(cmd.wait, Some(5));
}

#[test]
fn test_parse_args_with_invalid_wait_env_var() {
    let args = make_args(&["run-one", "echo"]);
    let vars = make_vars(&[("RUN_ONE_WAIT", "not_a_number")]);

    let cmd = parse_args(args, vars).unwrap();

    assert_eq!(cmd.cmd, "echo");
    assert_eq!(cmd.wait, None);
}

#[test]
fn test_parse_args_missing_command() {
    let args = make_args(&["run-one"]);
    let vars = make_vars(&[]);

    let result = parse_args(args, vars);

    assert!(result.is_err());
    assert!(result
        .unwrap_err()
        .message()
        .contains("Unable to get the command"));
}

#[test]
fn test_parse_args_empty_args() {
    let args: VecDeque<String> = VecDeque::new();
    let vars = make_vars(&[]);

    let result = parse_args(args, vars);

    assert!(result.is_err());
    assert!(result
        .unwrap_err()
        .message()
        .contains("Unable to get the name of the program"));
}

#[test]
fn test_parse_args_multiple_arguments() {
    let args = make_args(&["run-one", "git", "commit", "-m", "test message"]);
    let vars = make_vars(&[]);

    let cmd = parse_args(args, vars).unwrap();

    assert_eq!(cmd.cmd, "git");
    assert_eq!(cmd.args, vec!["commit", "-m", "test message"]);
}

#[test]
fn error_kinds_and_messages() {
    let empty = parse_args(VecDeque::new(), Vec::new()).unwrap_err();
    assert_eq!(empty, ParseError::MissingProgramName);
    assert_eq!(empty.message(), "Unable to get the name of the program.");

    let alone = parse_args(make_args(&["run-one"]), Vec::new()).unwrap_err();
    assert_eq!(alone, ParseError::MissingCommand);
    assert_eq!(alone.message(), "Unable to get the command.");
}

#[test]
fn empty_command_token_is_missing_command() {
    let result = parse_args(make_args(&["run-one", "", "x"]), Vec::new());
    assert_eq!(result.unwrap_err(), ParseError::MissingCommand);
}

#[test]
fn tokens_pass_through_verbatim() {
    let args = make_args(&["self", "sh", "-c", "echo $HOME", "", "*", "--"]);
    let cmd = parse_args(args, Vec::new()).unwrap();
    assert_eq!(cmd.cmd, "sh");
    assert_eq!(cmd.args, vec!["-c", "echo $HOME", "", "*", "--"]);
}

#[test]
fn first_wait_setting_wins() {
    let vars = make_vars(&[("PATH", "/bin"), ("RUN_ONE_WAIT", "3"), ("RUN_ONE_WAIT", "9")]);
    let cmd = parse_args(make_args(&["run-one", "true"]), vars).unwrap();
    assert_eq!(cmd.wait, Some(3));

    let vars = make_vars(&[("RUN_ONE_WAIT", "x"), ("RUN_ONE_WAIT", "9")]);
    let cmd = parse_args(make_args(&["run-one", "true"]), vars).unwrap();
    assert_eq!(cmd.wait, None);
}

#[test]
fn wait_key_must_match_exactly() {
    let vars = make_vars(&[("run_one_wait", "4"), ("RUN_ONE_WAIT ", "4"), ("RUN_ONE_WAI", "4")]);
    let cmd = parse_args(make_args(&["run-one", "true"]), vars).unwrap();
    assert_eq!(cmd.wait, None);
    assert_eq!(WAIT_VAR, "RUN_ONE_WAIT");
}

#[test]
fn wait_values() {
    for (text, expected) in [
        ("0", Some(0)),
        ("+7", Some(7)),
        ("007", Some(7)),
        ("18446744073709551615", Some(u64::MAX)),
        ("18446744073709551616", None),
        ("-1", None),
        ("-0", None),
        ("+", None),
        ("", None),
        (" 5", None),
        ("5s", None),
        ("1.5", None),
    ] {
        let vars = make_vars(&[("RUN_ONE_WAIT", text)]);
        let cmd = parse_args(make_args(&["run-one", "true"]), vars).unwrap();
        assert_eq!(cmd.wait, expected, "value {text:?}");
    }
}

#[test]
fn decimal_reading() {
    assert_eq!(parse_decimal("5"), Some(5));
    assert_eq!(parse_decimal("1234567890"), Some(1234567890));
    assert_eq!(parse_decimal("99999999999999999999"), None);
    assert_eq!(parse_decimal("12a"), None);
    assert_eq!(parse_decimal("٣"), None);
}

#[test]
fn notice_for_unusable_wait() {
    let vars = make_vars(&[("RUN_ONE_WAIT", "not_a_number")]);
    assert_eq!(
        wait_notice(&vars),
        Some("Invalid value for RUN_ONE_WAIT: not_a_number".to_string())
    );
    assert_eq!(wait_notice(&make_vars(&[("RUN_ONE_WAIT", "5")])), None);
    assert_eq!(wait_notice(&make_vars(&[])), None);
    assert_eq!(wait_notice(&make_vars(&[("RUN_ONE_WAIT", "2"), ("RUN_ONE_WAIT", "x")])), None);
}
