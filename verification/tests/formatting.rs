use telegram_onedrive::formatter::{write_colored_message, write_level, EventFormatter, LogLevel};

#[test]
fn level_labels_are_right_aligned_to_five_columns() {
    assert_eq!(write_level(LogLevel::Error), "ERROR ");
    assert_eq!(write_level(LogLevel::Warn), " WARN ");
    assert_eq!(write_level(LogLevel::Info), " INFO ");
    assert_eq!(write_level(LogLevel::Debug), "DEBUG ");
    assert_eq!(write_level(LogLevel::Trace), "TRACE ");
}

#[test]
fn messages_are_painted_by_level() {
    assert_eq!(write_colored_message(LogLevel::Error, "boom"), "\u{1b}[31mboom\u{1b}[0m");
    assert_eq!(write_colored_message(LogLevel::Warn, "careful"), "\u{1b}[33mcareful\u{1b}[0m");
    assert_eq!(write_colored_message(LogLevel::Info, "done"), "\u{1b}[32mdone\u{1b}[0m");
    assert_eq!(write_colored_message(LogLevel::Debug, "state"), "\u{1b}[34mstate\u{1b}[0m");
}

#[test]
fn trace_messages_are_painted_by_direction() {
    assert_eq!(write_colored_message(LogLevel::Trace, "a->b"), "\u{1b}[35ma->b\u{1b}[0m");
    assert_eq!(write_colored_message(LogLevel::Trace, "a<-b"), "\u{1b}[36ma<-b\u{1b}[0m");
    assert_eq!(write_colored_message(LogLevel::Trace, "plain"), "plain");
    assert_eq!(write_colored_message(LogLevel::Trace, "<>-"), "<>-");
}

#[test]
fn formatter_with_color_paints_the_message() {
    let f = EventFormatter::new(true);
    assert_eq!(f.format_event(LogLevel::Error, "boom"), "ERROR \u{1b}[31mboom\u{1b}[0m\n");
}

#[test]
fn formatter_without_color_leaves_the_message_plain() {
    let f = EventFormatter::new(false);
    assert_eq!(f.format_event(LogLevel::Info, "hello"), " INFO hello\n");
    assert_eq!(f.format_event(LogLevel::Error, "boom"), "ERROR boom\n");
}
