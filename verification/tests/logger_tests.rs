use trivert::logger::{LogLevel, Logger, log_line};

#[test]
fn log_line_renders_every_level() {
    assert_eq!(
        log_line(LogLevel::Debug("a debug entry"), "Thu Jan  1 00:00:00 1970"),
        "DEBUG   (Thu Jan  1 00:00:00 1970) a debug entry\n"
    );
    assert_eq!(
        log_line(LogLevel::Info("an info entry"), "Thu Jan  1 00:00:00 1970"),
        "INFO    (Thu Jan  1 00:00:00 1970) an info entry\n"
    );
    assert_eq!(
        log_line(LogLevel::Warning("a warning"), "Thu Jan  1 00:00:00 1970"),
        "WARNING (Thu Jan  1 00:00:00 1970) a warning\n"
    );
    assert_eq!(
        log_line(LogLevel::Error("an error"), "Thu Jan  1 00:00:00 1970"),
        "ERROR   (Thu Jan  1 00:00:00 1970) an error\n"
    );
}

#[test]
fn logger_writes_banners_and_lines_when_enabled() {
    let mut logger = Logger::new(true, false);
    assert_eq!(logger.begin_log(), Some("---BEGIN LOG---\n\n"));
    let line = logger.log(LogLevel::Info("hello")).expect("an enabled, logging logger logs");
    assert!(line.starts_with("INFO    ("));
    assert!(line.ends_with(") hello\n"));
    assert_eq!(logger.end_log(), Some("\n---END LOG---\n"));
}

#[test]
fn logger_is_silent_before_begin_log() {
    let mut logger = Logger::new(true, false);
    assert!(logger.log(LogLevel::Error("too early")).is_none());
}

#[test]
fn logger_is_silent_after_end_log() {
    let mut logger = Logger::new(true, false);
    logger.begin_log();
    logger.end_log();
    assert!(logger.log(LogLevel::Error("too late")).is_none());
}

#[test]
fn disabled_logger_never_writes() {
    let mut logger = Logger::new(false, true);
    assert!(logger.begin_log().is_none());
    assert!(logger.log(LogLevel::Error("nope")).is_none());
    assert!(logger.end_log().is_none());
}

#[test]
fn debug_lines_are_skipped_unless_debug_is_on() {
    let mut quiet = Logger::new(true, false);
    quiet.begin_log();
    assert!(quiet.log(LogLevel::Debug("invisible")).is_none());
    assert!(quiet.log(LogLevel::Warning("visible")).is_some());

    let mut chatty = Logger::new(true, true);
    chatty.begin_log();
    let line = chatty.log(LogLevel::Debug("visible")).expect("debug logging is on");
    assert!(line.starts_with("DEBUG   ("));
    assert!(line.ends_with(") visible\n"));
}

#[test]
fn logged_lines_carry_a_timestamp() {
    let mut logger = Logger::new(true, false);
    logger.begin_log();
    let line = logger.log(LogLevel::Info("stamped")).expect("logging is on");
    // Between "INFO    (" and ") stamped\n" stands the clock's asctime
    // rendering, e.g. "Thu Jan  1 00:00:00 1970": never empty.
    let inner = &line["INFO    (".len()..line.len() - ") stamped\n".len()];
    assert!(!inner.is_empty());
    assert!(!inner.contains('\n'));
}
