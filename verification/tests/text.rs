use console_log::level::Level;
use console_log::record::LogRecord;
use console_log::text::{styled_text, u32_to_dec, unstyled_text};

fn record(
    level: Level,
    target: &str,
    message: &str,
    file: Option<&str>,
    line: Option<u32>,
) -> LogRecord {
    LogRecord {
        level,
        target: target.to_string(),
        message: message.to_string(),
        file: file.map(|f| f.to_string()),
        line,
    }
}

#[test]
fn decimal_numerals() {
    assert_eq!(u32_to_dec(0), "0");
    assert_eq!(u32_to_dec(7), "7");
    assert_eq!(u32_to_dec(10), "10");
    assert_eq!(u32_to_dec(42), "42");
    assert_eq!(u32_to_dec(100), "100");
    assert_eq!(u32_to_dec(4294967295), "4294967295");
}

#[test]
fn unstyled_text_is_the_message() {
    let rec = record(Level::Info, "app", "It works!", None, None);
    assert_eq!(unstyled_text(&rec), "It works!");
}

#[test]
fn styled_text_with_file_and_line() {
    let rec = record(Level::Warn, "app", "disk low", Some("app.rs"), Some(42));
    let text = styled_text(&rec);
    assert_eq!(text, "%cWARN%c app.rs:42 %c\ndisk low");
    // The level label, the location, and the message appear in that order.
    let warn = text.find("WARN").unwrap();
    let location = text.find("app.rs:42").unwrap();
    let message = text.find("disk low").unwrap();
    assert!(warn < location && location < message);
}

#[test]
fn styled_text_without_file_falls_back_to_target() {
    let rec = record(Level::Info, "mytarget", "hello", None, Some(3));
    assert_eq!(styled_text(&rec), "%cINFO%c mytarget:3 %c\nhello");
}

#[test]
fn styled_text_without_line_uses_unknown_sentinel() {
    let rec = record(Level::Info, "mytarget", "hello", None, None);
    assert_eq!(styled_text(&rec), "%cINFO%c mytarget:[Unknown] %c\nhello");
}

#[test]
fn styled_text_for_every_level() {
    for (level, label) in [
        (Level::Error, "ERROR"),
        (Level::Warn, "WARN"),
        (Level::Info, "INFO"),
        (Level::Debug, "DEBUG"),
        (Level::Trace, "TRACE"),
    ] {
        let rec = record(level, "t", "m", Some("f.rs"), Some(1));
        assert_eq!(styled_text(&rec), format!("%c{}%c f.rs:1 %c\nm", label));
    }
}
