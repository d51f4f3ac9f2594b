use artisan_cli::formatting::{
    byte_unit, log_lines, pad_and_color, LogEntry, paint_for, scroll_after, strip_ansi_codes, unit_name, unit_size,
    ByteUnit, LogKey, Paint,
};

#[test]
fn strip_takes_colour_codes_out() {
    assert_eq!(strip_ansi_codes("\x1b[32mRunning\x1b[0m"), "Running");
    assert_eq!(strip_ansi_codes("\x1b[1;31mStopped\x1b[39;22m"), "Stopped");
    assert_eq!(strip_ansi_codes("a\x1b[mb"), "ab");
}

#[test]
fn strip_leaves_other_text() {
    assert_eq!(strip_ansi_codes(""), "");
    assert_eq!(strip_ansi_codes("plain [0m text"), "plain [0m text");
    assert_eq!(strip_ansi_codes("\x1b[2J"), "\x1b[2J");
}

#[test]
fn a_status_has_its_colour() {
    assert!(matches!(paint_for("Running"), Paint::Green));
    assert!(matches!(paint_for("Warning"), Paint::Yellow));
    assert!(matches!(paint_for("Stopped"), Paint::Red));
    assert!(matches!(paint_for("Status"), Paint::White));
    assert!(matches!(paint_for("running"), Paint::Plain));
    assert!(matches!(paint_for(""), Paint::Plain));
}

#[test]
fn pad_and_color_paints_a_status_bold() {
    assert_eq!(
        pad_and_color("Running", 4),
        "\x1b[1m\x1b[32mRunning\x1b[39m\x1b[0m"
    );
    assert_eq!(
        pad_and_color("Warning", 4),
        "\x1b[1m\x1b[33mWarning\x1b[39m\x1b[0m"
    );
    assert_eq!(
        pad_and_color("Stopped", 9),
        "\x1b[1m\x1b[31mStopped\x1b[39m\x1b[0m"
    );
    assert_eq!(
        pad_and_color("Status", 0),
        "\x1b[1m\x1b[37mStatus\x1b[39m\x1b[0m"
    );
}

#[test]
fn pad_and_color_leaves_other_cells() {
    assert_eq!(pad_and_color("node-1", 40), "node-1");
    assert_eq!(pad_and_color("", 4), "");
}

#[test]
fn painted_status_strips_back_to_the_status() {
    assert_eq!(strip_ansi_codes(&pad_and_color("Running", 4)), "Running");
}

#[test]
fn byte_unit_changes_at_the_powers_of_1024() {
    assert_eq!(byte_unit(0), ByteUnit::Bytes);
    assert_eq!(byte_unit(1023), ByteUnit::Bytes);
    assert_eq!(byte_unit(1024), ByteUnit::Kilobytes);
    assert_eq!(byte_unit(1024 * 1024 - 1), ByteUnit::Kilobytes);
    assert_eq!(byte_unit(1024 * 1024), ByteUnit::Megabytes);
    assert_eq!(byte_unit(1024 * 1024 * 1024 - 1), ByteUnit::Megabytes);
    assert_eq!(byte_unit(1024 * 1024 * 1024), ByteUnit::Gigabytes);
    assert_eq!(byte_unit((1u64 << 40) - 1), ByteUnit::Gigabytes);
    assert_eq!(byte_unit(1u64 << 40), ByteUnit::Terabytes);
    assert_eq!(byte_unit(u64::MAX), ByteUnit::Terabytes);
}

#[test]
fn unit_sizes_and_names() {
    assert_eq!(unit_size(ByteUnit::Bytes), 1);
    assert_eq!(unit_size(ByteUnit::Kilobytes), 1024);
    assert_eq!(unit_size(ByteUnit::Megabytes), 1_048_576);
    assert_eq!(unit_size(ByteUnit::Gigabytes), 1_073_741_824);
    assert_eq!(unit_size(ByteUnit::Terabytes), 1_099_511_627_776);
    assert_eq!(unit_name(ByteUnit::Bytes), "B");
    assert_eq!(unit_name(ByteUnit::Kilobytes), "KB");
    assert_eq!(unit_name(ByteUnit::Megabytes), "MB");
    assert_eq!(unit_name(ByteUnit::Gigabytes), "GB");
    assert_eq!(unit_name(ByteUnit::Terabytes), "TB");
}

#[test]
fn scroll_follows_the_keys() {
    assert_eq!(scroll_after(0, LogKey::Down), Some(1));
    assert_eq!(scroll_after(7, LogKey::Up), Some(6));
    assert_eq!(scroll_after(0, LogKey::Up), Some(0));
    assert_eq!(scroll_after(5, LogKey::PageDown), Some(15));
    assert_eq!(scroll_after(15, LogKey::PageUp), Some(5));
    assert_eq!(scroll_after(9, LogKey::PageUp), Some(0));
    assert_eq!(scroll_after(3, LogKey::Other), Some(3));
    assert_eq!(scroll_after(3, LogKey::Quit), None);
    assert_eq!(scroll_after(u16::MAX - 1, LogKey::Down), Some(u16::MAX));
    assert_eq!(scroll_after(u16::MAX - 10, LogKey::PageDown), Some(u16::MAX));
}

#[test]
fn log_lines_are_numbered_from_one() {
    let entry = |t: &str, m: &str| LogEntry {
        timestamp: t.to_string(),
        message: m.to_string(),
    };
    let lines = log_lines(&vec![entry("12:00", "up"), entry("12:01", "down")], 100);
    assert_eq!(
        lines,
        vec!["[001 of 100] @ 12:00 -> up", "[002 of 100] @ 12:01 -> down"]
    );
    assert_eq!(log_lines(&Vec::new(), 5), Vec::<String>::new());
    assert_eq!(
        log_lines(&vec![entry("", "")], 5),
        vec!["[001 of 005] @  -> "]
    );
    assert_eq!(
        log_lines(&vec![entry("t", "m")], 12345),
        vec!["[001 of 12345] @ t -> m"]
    );
    assert_eq!(
        log_lines(&vec![entry("t", "m")], 42),
        vec!["[001 of 042] @ t -> m"]
    );
}
