use data_comparison_tool::interface::config::Config;
use data_comparison_tool::interface::log::{Log, LogTarget};
use data_comparison_tool::interface::log_options::{LogOutput, LogVerbosity};

fn console_log() -> Log {
    let mut config = Config::default_at("S");
    config.log_config.log_output_type = LogOutput::Console;
    Log::new(&config)
}

#[test]
fn log_tests_init_console_log_and_write() {
    let log = console_log();
    let info = log.entry(LogVerbosity::Info, "info statement test").unwrap();
    assert!(matches!(info.target, LogTarget::Stdout));
    assert_eq!(info.text, "<INFO>info statement test");
    let warn = log.entry(LogVerbosity::Warning, "info statement test").unwrap();
    assert_eq!(warn.text, "<WARNING>info statement test");
    let error = log.entry(LogVerbosity::Error, "error statement tunwrap();est").unwrap();
    assert!(matches!(error.target, LogTarget::Stderr));
    assert_eq!(error.text, "<ERROR>error statement tunwrap();est");
}

#[test]
fn log_test_init_console_log_and_write() {
    let log = console_log();
    assert!(log.entry(LogVerbosity::Info, "info statement test").is_some());
    assert!(log.entry(LogVerbosity::Warning, "info statement test").is_some());
    assert!(log.entry(LogVerbosity::Error, "error statement tunwrap();est").is_some());
}

#[test]
fn new_log_writes_info_and_above() {
    let log = Log::new(&Config::default_at("S"));
    assert!(matches!(log.log_type, LogOutput::File));
    assert!(matches!(log.verbose, LogVerbosity::Info));
    assert!(log.log_file_name.starts_with("data_comparison_"));
    assert!(log.log_file_name.ends_with(".log"));
    assert!(!log.log_file_name.contains(' ') && !log.log_file_name.contains(':'));
    assert!(log.entry(LogVerbosity::Debug, "hidden").is_none());
    let line = log.entry(LogVerbosity::Info, "shown").unwrap();
    assert!(matches!(line.target, LogTarget::File));
    assert_eq!(line.text, "<INFO>shown\n");
}

#[test]
fn verbosity_filters_levels() {
    let mut log = console_log();
    log.verbose = LogVerbosity::Error;
    assert!(log.entry(LogVerbosity::Warning, "w").is_none());
    assert!(log.entry(LogVerbosity::Error, "e").is_some());
    log.verbose = LogVerbosity::Debug;
    assert_eq!(log.entry(LogVerbosity::Debug, "d").unwrap().text, "<DEBUG>d");
}

#[test]
fn log_file_name_replaces_spaces_and_colons() {
    assert_eq!(
        Log::log_file_name_for("2024-01-02 03:04:05.6 +01:00"),
        "data_comparison_2024-01-02_03_04_05.6_+01_00.log"
    );
}
