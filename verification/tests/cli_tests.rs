//! The command-line parse: flags, options, positional question, failures.

use md_qa_client::{parse_cli_command_from, CliCommand};

fn args(list: &[&str]) -> Vec<String> {
    list.iter().map(|s| s.to_string()).collect()
}

#[test]
fn help_short_flag_exits_before_runtime() {
    let parsed = parse_cli_command_from(&args(&["md-qa", "-h"])).expect("parse should succeed");
    assert!(matches!(parsed, CliCommand::PrintHelp { .. }));
}

#[test]
fn help_long_flag_exits_before_runtime() {
    let parsed = parse_cli_command_from(&args(&["md-qa", "--help"])).expect("parse should succeed");
    assert!(matches!(parsed, CliCommand::PrintHelp { .. }));
}

#[test]
fn version_flag_prints_version() {
    let parsed =
        parse_cli_command_from(&args(&["md-qa", "--version"])).expect("parse should succeed");
    assert!(matches!(parsed, CliCommand::PrintVersion));
}

#[test]
fn config_flag_sets_override_path() {
    let parsed = parse_cli_command_from(&args(&["md-qa", "--config", "/tmp/config.yaml"]))
        .expect("parse should succeed");
    match parsed {
        CliCommand::Run(options) => {
            assert_eq!(options.config_path, Some("/tmp/config.yaml".to_string()));
        }
        other => panic!("expected Run command, got {other:?}"),
    }
}

#[test]
fn config_inline_value_sets_override_path() {
    let parsed = parse_cli_command_from(&args(&["md-qa", "--config=/tmp/config.yaml"]))
        .expect("parse should succeed");
    match parsed {
        CliCommand::Run(options) => {
            assert_eq!(options.config_path, Some("/tmp/config.yaml".to_string()));
        }
        other => panic!("expected Run command, got {other:?}"),
    }
}

#[test]
fn missing_config_value_returns_error() {
    let err = parse_cli_command_from(&args(&["md-qa", "--config"])).expect_err("parse should fail");
    assert!(err.contains("--config requires a value"));
}

#[test]
fn unknown_option_returns_error() {
    let err = parse_cli_command_from(&args(&["md-qa", "--wat"])).expect_err("parse should fail");
    assert!(err.contains("unknown option"));
}

#[test]
fn positional_question_is_accepted() {
    let parsed =
        parse_cli_command_from(&args(&["md-qa", "What is Rust?"])).expect("parse should succeed");
    match parsed {
        CliCommand::Run(options) => {
            assert_eq!(options.question.as_deref(), Some("What is Rust?"));
            assert_eq!(options.config_path, None);
        }
        other => panic!("expected Run command, got {other:?}"),
    }
}

#[test]
fn positional_question_with_config_is_accepted() {
    let parsed = parse_cli_command_from(&args(&["md-qa", "--config", "/tmp/config.yaml", "hello"]))
        .expect("parse should succeed");
    match parsed {
        CliCommand::Run(options) => {
            assert_eq!(options.question.as_deref(), Some("hello"));
            assert_eq!(options.config_path, Some("/tmp/config.yaml".to_string()));
        }
        other => panic!("expected Run command, got {other:?}"),
    }
}

#[test]
fn multiple_positional_arguments_return_error() {
    let err =
        parse_cli_command_from(&args(&["md-qa", "first", "second"])).expect_err("parse should fail");
    assert!(err.contains("unexpected positional argument"));
}

#[test]
fn short_config_flag_sets_override_path() {
    let parsed = parse_cli_command_from(&args(&["md-qa", "-c", "/etc/qa.yaml", "why?"]))
        .expect("parse should succeed");
    match parsed {
        CliCommand::Run(options) => {
            assert_eq!(options.config_path.as_deref(), Some("/etc/qa.yaml"));
            assert_eq!(options.question.as_deref(), Some("why?"));
        }
        other => panic!("expected Run command, got {other:?}"),
    }
}

#[test]
fn empty_inline_config_value_returns_error() {
    let err = parse_cli_command_from(&args(&["md-qa", "--config="])).expect_err("parse should fail");
    assert!(err.contains("--config requires a value"));
}

#[test]
fn no_arguments_run_with_nothing_set() {
    let parsed = parse_cli_command_from(&args(&["md-qa"])).expect("parse should succeed");
    match parsed {
        CliCommand::Run(options) => {
            assert_eq!(options.config_path, None);
            assert_eq!(options.question, None);
        }
        other => panic!("expected Run command, got {other:?}"),
    }
}

#[test]
fn later_config_flag_wins() {
    let parsed = parse_cli_command_from(&args(&["md-qa", "--config", "/a.yaml", "-c", "/b.yaml"]))
        .expect("parse should succeed");
    match parsed {
        CliCommand::Run(options) => {
            assert_eq!(options.config_path.as_deref(), Some("/b.yaml"));
        }
        other => panic!("expected Run command, got {other:?}"),
    }
}

#[test]
fn help_text_names_the_program_and_flags() {
    let help = md_qa_client::help_text("md-qa");
    assert!(help.contains("Usage:\n  md-qa [OPTIONS] [QUESTION]"));
    assert!(help.contains("-c, --config <PATH>"));
    assert!(help.contains("-V, --version"));
}
