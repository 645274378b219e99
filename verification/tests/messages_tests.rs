use alchemist::drain::StreamTag;
use alchemist::messages::launch_message;
use alchemist::messages::log_line;
use alchemist::messages::pid_display;
use alchemist::messages::read_error_message;
use alchemist::numerals::u64_to_string;
use alchemist::opener::open_attempt_message;
use alchemist::opener::open_error_message;
use alchemist::opener::OsFamily;

#[test]
fn decimal_rendering_is_exact() {
    assert_eq!(u64_to_string(0), "0");
    assert_eq!(u64_to_string(7), "7");
    assert_eq!(u64_to_string(10), "10");
    assert_eq!(u64_to_string(42), "42");
    assert_eq!(u64_to_string(1234), "1234");
    assert_eq!(u64_to_string(u64::MAX), "18446744073709551615");
}

#[test]
fn pid_display_shows_number_or_placeholder() {
    assert_eq!(pid_display(Some(99)), "99");
    assert_eq!(pid_display(None), "N/A");
}

#[test]
fn launch_message_names_the_pid() {
    assert_eq!(
        launch_message(Some(1234)),
        "Python backend started with PID: 1234"
    );
    assert_eq!(launch_message(None), "Python backend started with PID: N/A");
}

#[test]
fn log_lines_carry_their_stream_tag() {
    assert_eq!(
        log_line(StreamTag::Stdout, "server up"),
        "[Python Backend stdout]: server up"
    );
    assert_eq!(
        log_line(StreamTag::Stderr, "oops"),
        "[Python Backend stderr]: oops"
    );
}

#[test]
fn read_errors_name_their_stream() {
    assert_eq!(
        read_error_message(StreamTag::Stdout, "pipe broke"),
        "Error reading stdout: pipe broke"
    );
    assert_eq!(
        read_error_message(StreamTag::Stderr, "pipe broke"),
        "Error reading stderr: pipe broke"
    );
}

#[test]
fn open_messages_are_exact() {
    assert_eq!(
        open_attempt_message("/home/u/file.txt"),
        "[Rust Command] Attempting to open path: /home/u/file.txt"
    );
    assert_eq!(
        open_error_message(OsFamily::Windows, "no cmd"),
        "Failed to open path on Windows with start: no cmd"
    );
    assert_eq!(
        open_error_message(OsFamily::MacOs, "no open"),
        "Failed to open path on macOS: no open"
    );
    assert_eq!(
        open_error_message(OsFamily::Linux, "no xdg-open"),
        "Failed to open path on Linux: no xdg-open"
    );
}
