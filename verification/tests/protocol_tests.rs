use recorder::protocol::{handle_line, parse_line, time_reply, Command};
use recorder::text::{decimal_string, display_duration, padded2_string};

#[test]
fn parses_the_two_commands_and_nothing_else() {
    assert_eq!(parse_line("time"), Some(Command::Time));
    assert_eq!(parse_line("stop"), Some(Command::Stop));
    assert_eq!(parse_line(""), None);
    assert_eq!(parse_line("TIME"), None);
    assert_eq!(parse_line("time "), None);
    assert_eq!(parse_line("pause"), None);
}

#[test]
fn time_while_recording_reports_elapsed_milliseconds() {
    // 500 ms into a recording, `time` answers with the decimal count.
    let (reply, quit) = handle_line("time", true, 500);
    assert_eq!(reply.as_deref(), Some("500"));
    assert!(!quit);
    let (reply, _) = handle_line("time", true, 599);
    assert_eq!(reply.as_deref(), Some("599"));
}

#[test]
fn time_outside_recording_is_null() {
    let (reply, quit) = handle_line("time", false, 0);
    assert_eq!(reply.as_deref(), Some("null"));
    assert!(!quit);
    assert_eq!(time_reply(false, 123456), "null");
}

#[test]
fn stop_ends_the_loop_silently() {
    let (reply, quit) = handle_line("stop", true, 99);
    assert_eq!(reply, None);
    assert!(quit);
}

#[test]
fn unrecognized_lines_are_ignored() {
    for line in ["", "  ", "quit", "time now", "null"] {
        let (reply, quit) = handle_line(line, true, 1);
        assert_eq!(reply, None);
        assert!(!quit);
    }
}

#[test]
fn decimal_rendering() {
    assert_eq!(decimal_string(0), "0");
    assert_eq!(decimal_string(7), "7");
    assert_eq!(decimal_string(10), "10");
    assert_eq!(decimal_string(500), "500");
    assert_eq!(decimal_string(18446744073709551615), "18446744073709551615");
}

#[test]
fn two_digit_padding() {
    assert_eq!(padded2_string(0), "00");
    assert_eq!(padded2_string(9), "09");
    assert_eq!(padded2_string(59), "59");
    assert_eq!(padded2_string(100), "100");
}

#[test]
fn clock_display() {
    assert_eq!(display_duration(0), "00:00:00");
    assert_eq!(display_duration(59), "00:00:59");
    assert_eq!(display_duration(60), "00:01:00");
    assert_eq!(display_duration(3661), "01:01:01");
    assert_eq!(display_duration(45296), "12:34:56");
    assert_eq!(display_duration(360000), "100:00:00");
}
