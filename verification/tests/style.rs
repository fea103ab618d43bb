use console_log::level::Level;
use console_log::style::Style;

#[test]
fn default_style_values() {
    let style = Style::default();
    assert_eq!(style.trace, "color: white; padding: 0 3px; background: gray;");
    assert_eq!(style.debug, "color: white; padding: 0 3px; background: blue;");
    assert_eq!(style.info, "color: white; padding: 0 3px; background: green;");
    assert_eq!(style.warn, "color: white; padding: 0 3px; background: orange;");
    assert_eq!(style.error, "color: white; padding: 0 3px; background: darkred;");
    assert_eq!(style.file_line, "font-weight: bold; color: inherit");
    assert_eq!(style.text, "background: inherit; color: inherit");
}

#[test]
fn warn_style_differs_from_error_style() {
    let style = Style::default();
    assert_ne!(style.warn, style.error);
}

#[test]
fn styles_are_nonempty() {
    let style = Style::default();
    for level in [Level::Error, Level::Warn, Level::Info, Level::Debug, Level::Trace] {
        assert!(!style.level_style(level).is_empty());
    }
    assert!(!style.file_line.is_empty());
    assert!(!style.text.is_empty());
}

#[test]
fn level_style_selects_the_matching_entry() {
    let style = Style::default();
    assert_eq!(style.level_style(Level::Trace), style.trace);
    assert_eq!(style.level_style(Level::Debug), style.debug);
    assert_eq!(style.level_style(Level::Info), style.info);
    assert_eq!(style.level_style(Level::Warn), style.warn);
    assert_eq!(style.level_style(Level::Error), style.error);
}
