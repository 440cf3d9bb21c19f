use flexion::log_to_uart::{console_command, level_tag, ConsoleCommand, Level, LevelFilter, Logger};

#[test]
fn console_keys_pick_levels() {
    assert_eq!(console_command(b'0'), ConsoleCommand::SetLevel(LevelFilter::Off));
    assert_eq!(console_command(b'1'), ConsoleCommand::SetLevel(LevelFilter::Error));
    assert_eq!(console_command(b'2'), ConsoleCommand::SetLevel(LevelFilter::Warn));
    assert_eq!(console_command(b'3'), ConsoleCommand::SetLevel(LevelFilter::Info));
    assert_eq!(console_command(b'4'), ConsoleCommand::SetLevel(LevelFilter::Debug));
    assert_eq!(console_command(b'5'), ConsoleCommand::SetLevel(LevelFilter::Trace));
    assert_eq!(console_command(b'?'), ConsoleCommand::EditFilter);
    assert_eq!(console_command(b'6'), ConsoleCommand::Ignore);
    assert_eq!(console_command(b'x'), ConsoleCommand::Ignore);
}

#[test]
fn level_tags_are_coloured_letters() {
    assert_eq!(level_tag(Level::Error), "\x1b[0;91mE\x1b[0m");
    assert_eq!(level_tag(Level::Warn), "\x1b[0;93mW\x1b[0m");
    assert_eq!(level_tag(Level::Info), "\x1b[0;92mI\x1b[0m");
    assert_eq!(level_tag(Level::Debug), "\x1b[0;97mD\x1b[0m");
    assert_eq!(level_tag(Level::Trace), "\x1b[0;90mT\x1b[0m");
}

#[test]
fn empty_filter_passes_everything() {
    let logger = Logger::<16>::new();
    assert!(logger.enabled("zero::state"));
    assert!(logger.enabled(""));
}

#[test]
fn filter_is_a_target_prefix() {
    let mut logger = Logger::<16>::new();
    for key in b"tc_" {
        assert!(!logger.edit_filter(*key));
    }
    assert!(logger.edit_filter(b'\r'));
    assert_eq!(logger.filter_str(), "tc_");
    assert!(logger.enabled("tc_charger::pack"));
    assert!(!logger.enabled("zero"));
    assert!(!logger.enabled("tc"));
}

#[test]
fn erase_keys_remove_the_last_character() {
    let mut logger = Logger::<16>::new();
    logger.edit_filter(b'a');
    logger.edit_filter(0xe9);
    assert_eq!(logger.filter_str(), "a\u{e9}");
    assert!(!logger.edit_filter(0x08));
    assert_eq!(logger.filter_str(), "a");
    assert!(!logger.edit_filter(0x7f));
    assert_eq!(logger.filter_str(), "");
    assert!(!logger.edit_filter(0x7f));
    assert_eq!(logger.filter_str(), "");
}

#[test]
fn filter_keeps_at_most_32_bytes() {
    let mut logger = Logger::<16>::new();
    for _ in 0..40 {
        logger.edit_filter(b'z');
    }
    assert_eq!(logger.filter_str().len(), 32);
    // a character of two bytes no longer fits after 31 single bytes
    logger.edit_filter(0x08);
    logger.edit_filter(0xe9);
    assert_eq!(logger.filter_str().len(), 31);
}
