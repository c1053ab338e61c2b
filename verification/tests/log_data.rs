use patch_hub::log::data::{InvalidLogLevel, LogLevel, LogMessage};

#[test]
fn test_log_level_ordering() {
    assert!(LogLevel::Info < LogLevel::Warning);
    assert!(LogLevel::Warning < LogLevel::Error);
    assert!(LogLevel::Info < LogLevel::Error);
    assert_eq!(LogLevel::Info, LogLevel::Info);
}

#[test]
fn test_log_level_display() {
    assert_eq!(LogLevel::Info.to_string(), "INFO");
    assert_eq!(LogLevel::Warning.to_string(), "WARN");
    assert_eq!(LogLevel::Error.to_string(), "ERROR");
}

#[test]
fn test_log_level_from_str() {
    assert_eq!(LogLevel::from_str("info").unwrap(), LogLevel::Info);
    assert_eq!(LogLevel::from_str("INFO").unwrap(), LogLevel::Info);
    assert_eq!(LogLevel::from_str("warn").unwrap(), LogLevel::Warning);
    assert_eq!(LogLevel::from_str("warning").unwrap(), LogLevel::Warning);
    assert_eq!(LogLevel::from_str("error").unwrap(), LogLevel::Error);
    assert!(LogLevel::from_str("notalevel").is_err());
}

#[test]
fn test_log_message_display() {
    let msg = LogMessage {
        level: LogLevel::Error,
        message: "fail".to_string(),
    };
    assert_eq!(msg.to_string(), "[ERROR] fail");
}

#[test]
fn test_log_message_ordering_and_equality() {
    let a = LogMessage {
        level: LogLevel::Info,
        message: "a".to_string(),
    };
    let b = LogMessage {
        level: LogLevel::Warning,
        message: "b".to_string(),
    };
    let c = LogMessage {
        level: LogLevel::Info,
        message: "a".to_string(),
    };
    assert!(a < b);
    assert_eq!(a, c);
}

#[test]
fn log_level_default_is_info() {
    assert_eq!(LogLevel::default(), LogLevel::Info);
}

#[test]
fn log_level_ranks_rise_with_severity() {
    assert_eq!(LogLevel::Info.rank(), 0);
    assert_eq!(LogLevel::Warning.rank(), 1);
    assert_eq!(LogLevel::Error.rank(), 2);
}

#[test]
fn log_level_from_mixed_case() {
    assert_eq!(LogLevel::from_str("WaRnInG"), Ok(LogLevel::Warning));
    assert_eq!(LogLevel::from_str("ERROR"), Ok(LogLevel::Error));
    assert_eq!(LogLevel::from_str("Warn"), Ok(LogLevel::Warning));
}

#[test]
fn log_level_from_lowercase_takes_the_word_as_it_is() {
    assert_eq!(LogLevel::from_lowercase("info", "INFO"), Ok(LogLevel::Info));
    assert_eq!(
        LogLevel::from_lowercase("INFO", "INFO"),
        Err(InvalidLogLevel { input: "INFO".to_string() })
    );
    assert_eq!(
        LogLevel::from_lowercase("", ""),
        Err(InvalidLogLevel { input: String::new() })
    );
}

#[test]
fn invalid_log_level_names_the_input() {
    let error = LogLevel::from_str("NotALevel").unwrap_err();
    assert_eq!(error.input, "NotALevel");
    assert_eq!(error.message(), "Invalid log level: NotALevel");
}

#[test]
fn log_message_lines_for_each_level() {
    let info = LogMessage { level: LogLevel::Info, message: "Application started".to_string() };
    let warn = LogMessage { level: LogLevel::Warning, message: String::new() };
    assert_eq!(info.to_string(), "[INFO] Application started");
    assert_eq!(warn.to_string(), "[WARN] ");
}
