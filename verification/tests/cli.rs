use tg::cli::{render_help, render_version, validate_startup_io, CliConfig, CliError};

fn args(list: &[&str]) -> Vec<String> {
    list.iter().map(|a| a.to_string()).collect()
}

#[test]
fn parse_accepts_help_version_and_one_file_path() {
    let config = CliConfig::parse(args(&["tg", "-h", "-V", "diagram.md"])).unwrap();

    assert_eq!(
        config,
        CliConfig {
            show_help: true,
            show_version: true,
            file_path: Some("diagram.md".to_string()),
        }
    );
}

#[test]
fn parse_rejects_unknown_flags() {
    let error = CliConfig::parse(args(&["tg", "--wat"])).unwrap_err();

    assert!(error.message().contains("unknown flag: --wat"));
    assert!(error.message().contains("Usage:"));
}

#[test]
fn parse_rejects_more_than_one_file_path() {
    let error = CliConfig::parse(args(&["tg", "one.md", "two.md"])).unwrap_err();

    assert!(error.message().contains("expected at most one file path"));
}

#[test]
fn startup_validation_rejects_redirected_stdin_or_stdout() {
    assert_eq!(
        validate_startup_io(false, true).unwrap_err().message(),
        "stdin redirection is not supported by `tg`; run it on a terminal"
    );
    assert_eq!(
        validate_startup_io(true, false).unwrap_err().message(),
        "stdout redirection is not supported by `tg`; run it on a terminal"
    );
}

#[test]
fn help_text_mentions_core_cli_behavior() {
    let help = render_help();

    assert!(help.contains("tg FILE"));
    assert!(help.contains("stdin/stdout redirection is not supported"));
    assert!(help.contains("Ctrl+S saves in file-backed mode"));
    assert!(help.contains("press ? in the editor"));
}

#[test]
fn version_text_uses_package_version() {
    assert_eq!(render_version(), format!("tg {}", "0.1.0"));
}

#[test]
fn parse_with_no_arguments_is_an_empty_scratch_request() {
    let config = CliConfig::parse(args(&["tg"])).unwrap();
    assert_eq!(
        config,
        CliConfig { show_help: false, show_version: false, file_path: None }
    );
    let config = CliConfig::parse(Vec::new()).unwrap();
    assert_eq!(config.file_path, None);
}

#[test]
fn unknown_flag_message_is_flag_then_usage() {
    let error = CliConfig::parse(args(&["tg", "a.md", "-x"])).unwrap_err();
    assert_eq!(
        error.message(),
        "unknown flag: -x\n\nUsage:\n  tg\n  tg FILE\n  tg -h | --help\n  tg -V | --version"
    );
}

#[test]
fn long_flags_are_accepted() {
    let config = CliConfig::parse(args(&["tg", "--version", "--help"])).unwrap();
    assert!(config.show_help && config.show_version);
}

#[test]
fn startup_validation_accepts_terminals_and_checks_stdin_first() {
    assert!(validate_startup_io(true, true).is_ok());
    assert_eq!(
        validate_startup_io(false, false).unwrap_err(),
        CliError::stdin_not_tty()
    );
}

#[test]
fn help_text_starts_with_description_and_usage() {
    let help = render_help();
    assert!(help.starts_with("A text diagram editor for the terminal\n\nUsage:\n  tg\n"));
    assert!(help.contains("first recognized `textagram` fence body"));
}
