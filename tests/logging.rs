use anevicon::logging::{associated_level, is_user_message, wants_debug_sink, LogLevel};

#[test]
fn verbosities_map_to_levels() {
    assert_eq!(associated_level(0), Some(LogLevel::Off));
    assert_eq!(associated_level(1), Some(LogLevel::Error));
    assert_eq!(associated_level(2), Some(LogLevel::Warn));
    assert_eq!(associated_level(3), Some(LogLevel::Info));
    assert_eq!(associated_level(4), Some(LogLevel::Debug));
    assert_eq!(associated_level(5), Some(LogLevel::Trace));
}

#[test]
fn unknown_verbosity_has_no_level() {
    assert_eq!(associated_level(6), None);
    assert_eq!(associated_level(-1), None);
}

#[test]
fn user_messages_and_debug_sink() {
    assert!(is_user_message(LogLevel::Info));
    assert!(is_user_message(LogLevel::Error));
    assert!(!is_user_message(LogLevel::Debug));
    assert!(!is_user_message(LogLevel::Trace));
    assert!(!wants_debug_sink(3));
    assert!(wants_debug_sink(4));
}
