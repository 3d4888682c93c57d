use packet_sources::relay::{report_exit, split_level, LogLevel, Output, StderrRelay};

fn log(level: LogLevel, message: &str) -> Output {
    Output::Log { level, message: message.to_string() }
}

fn print(message: &str) -> Output {
    Output::Print { message: message.to_string() }
}

#[test]
fn lines_without_a_level_are_errors_at_first() {
    let mut r = StderrRelay::new();
    assert_eq!(r.relay("plain".to_string(), false), log(LogLevel::Error, "plain"));
    assert_eq!(r.level, LogLevel::Error);
}

#[test]
fn level_is_taken_off_and_kept() {
    let mut r = StderrRelay::new();
    assert_eq!(
        r.relay("[INFO  redirector::main] started".to_string(), false),
        log(LogLevel::Info, "[redirector::main] started")
    );
    assert_eq!(r.relay("continued".to_string(), false), log(LogLevel::Info, "continued"));
    assert_eq!(r.relay("[other x".to_string(), false), log(LogLevel::Info, "[other x"));
    assert_eq!(r.relay("[WARN x] y".to_string(), false), log(LogLevel::Warn, "[x] y"));
    assert_eq!(r.relay("".to_string(), false), log(LogLevel::Warn, ""));
}

#[test]
fn every_level_in_any_case() {
    let names = [
        ("error", LogLevel::Error),
        ("Warn", LogLevel::Warn),
        ("INFO", LogLevel::Info),
        ("dEBUG", LogLevel::Debug),
        ("traCE", LogLevel::Trace),
    ];
    for (name, level) in names {
        assert_eq!(split_level(&format!("[{} text", name)), Some((level, "text")));
    }
}

#[test]
fn lines_that_name_no_level() {
    for line in ["", "[", "[INFO", "INFO text", "[OFF text", "[INFO] text", "[ INFO text", " [INFO text", "[INF\u{d8} text"] {
        assert_eq!(split_level(line), None);
    }
}

#[test]
fn only_ascii_whitespace_is_trimmed() {
    assert_eq!(split_level("[INFO \t\r\n\u{c} x "), Some((LogLevel::Info, "x ")));
    assert_eq!(split_level("[INFO \u{b}x"), Some((LogLevel::Info, "\u{b}x")));
    assert_eq!(split_level("[INFO \u{a0}x"), Some((LogLevel::Info, "\u{a0}x")));
    assert_eq!(split_level("[INFO "), Some((LogLevel::Info, "")));
    assert_eq!(split_level("[INFO    "), Some((LogLevel::Info, "")));
    assert_eq!(split_level("[INFO \u{1f600} \u{e9}"), Some((LogLevel::Info, "\u{1f600} \u{e9}")));
}

#[test]
fn nothing_is_logged_during_shutdown() {
    let mut r = StderrRelay::new();
    assert_eq!(r.relay("[INFO x] y".to_string(), true), print("[INFO x] y"));
    assert_eq!(r.level, LogLevel::Error);
}

#[test]
fn exit_reports() {
    assert_eq!(report_exit(true, true, "ok"), None);
    assert_eq!(
        report_exit(true, false, "ok"),
        Some(log(LogLevel::Debug, "[linux-redirector] exited successfully."))
    );
    assert_eq!(
        report_exit(false, true, "status 1"),
        Some(print("[linux-redirector] exited during shutdown: status 1"))
    );
    assert_eq!(
        report_exit(false, false, "status 1"),
        Some(log(LogLevel::Error, "[linux-redirector] exited: status 1"))
    );
}
