use alchemist::opener::open_command;
use alchemist::opener::OsFamily;

#[test]
fn windows_opens_through_cmd_start_with_empty_title() {
    let c = open_command(OsFamily::Windows, "C:\\Users\\u\\report.pdf".to_string());
    assert_eq!(c.program, "cmd");
    assert_eq!(c.args, vec!["/C", "start", "", "C:\\Users\\u\\report.pdf"]);
}

#[test]
fn macos_opens_through_open() {
    let c = open_command(OsFamily::MacOs, "/Users/u/report.pdf".to_string());
    assert_eq!(c.program, "open");
    assert_eq!(c.args, vec!["/Users/u/report.pdf"]);
}

#[test]
fn linux_opens_through_xdg_open() {
    let c = open_command(OsFamily::Linux, "/home/u/report.pdf".to_string());
    assert_eq!(c.program, "xdg-open");
    assert_eq!(c.args, vec!["/home/u/report.pdf"]);
}
