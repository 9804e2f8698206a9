use utillib::errors::Errors;
use utillib::utils::{delete_file, join, must_delete, strip_trailing_newline, Outcome, Platform, Probe};

#[test]
fn strip_trailing_newline_removes_one_line_ending() {
    assert_eq!(strip_trailing_newline("1440\r\n"), "1440");
    assert_eq!(strip_trailing_newline("1440\n"), "1440");
    assert_eq!(strip_trailing_newline("1440"), "1440");
    assert_eq!(strip_trailing_newline(""), "");
    assert_eq!(strip_trailing_newline("\n"), "");
    assert_eq!(strip_trailing_newline("\r\n"), "");
}

#[test]
fn strip_trailing_newline_removes_no_more_than_one() {
    assert_eq!(strip_trailing_newline("1440\n\n"), "1440\n");
    assert_eq!(strip_trailing_newline("1440\r\n\r\n"), "1440\r\n");
    assert_eq!(strip_trailing_newline("1440\n\r\n"), "1440\n");
    assert_eq!(strip_trailing_newline("1440\r"), "1440\r");
    assert_eq!(strip_trailing_newline("\n1440"), "\n1440");
    assert_eq!(strip_trailing_newline("14\n40"), "14\n40");
}

#[test]
fn strip_trailing_newline_counts_characters_not_bytes() {
    assert_eq!(strip_trailing_newline("é\n"), "é");
    assert_eq!(strip_trailing_newline("帧数\r\n"), "帧数");
    assert_eq!(strip_trailing_newline("帧数"), "帧数");
}

#[test]
fn strip_trailing_newline_agrees_with_strip_suffix() {
    for text in ["", "\n", "\r\n", "\r", "a", "a\n", "a\r\n", "a\r", "a\n\r", "\r\n\n", "ab\r\n\r\n"] {
        let expected =
            text.strip_suffix("\r\n").or_else(|| text.strip_suffix('\n')).unwrap_or(text);
        assert_eq!(strip_trailing_newline(text), expected);
    }
}

#[test]
fn join_puts_one_separator_between_directory_and_name() {
    assert_eq!(join("C:\\movie", "frame.png", Platform::Windows), "C:\\movie\\frame.png");
    assert_eq!(join("/home/rei", "frame.png", Platform::Other), "/home/rei/frame.png");
}

#[test]
fn join_adds_no_separator_after_one() {
    assert_eq!(join("C:\\", "frame.png", Platform::Windows), "C:\\frame.png");
    assert_eq!(join("C:/movie/", "frame.png", Platform::Windows), "C:/movie/frame.png");
    assert_eq!(join("/", "frame.png", Platform::Other), "/frame.png");
    assert_eq!(join("/home/rei/", "frame.png", Platform::Other), "/home/rei/frame.png");
}

#[test]
fn join_takes_a_backslash_for_a_separator_on_windows_only() {
    assert_eq!(join("dir\\", "x", Platform::Windows), "dir\\x");
    assert_eq!(join("dir\\", "x", Platform::Other), "dir\\/x");
}

#[test]
fn join_below_nothing_is_the_name() {
    assert_eq!(join("", "frame.png", Platform::Windows), "frame.png");
    assert_eq!(join("", "frame.png", Platform::Other), "frame.png");
}

#[test]
fn join_agrees_with_the_standard_path_on_this_platform() {
    let platform = if std::path::MAIN_SEPARATOR == '\\' { Platform::Windows } else { Platform::Other };
    let root = if platform == Platform::Windows { "C:\\" } else { "/" };
    let deep = if platform == Platform::Windows { "C:\\a\\b" } else { "/a/b" };
    for dir in [root, deep, ""] {
        let mut expected = std::path::PathBuf::from(dir);
        expected.push("config.json");
        assert_eq!(join(dir, "config.json", platform), expected.display().to_string());
    }
}

#[test]
fn only_a_file_that_is_there_is_deleted() {
    assert!(must_delete(Probe::Present));
    assert!(!must_delete(Probe::Absent));
    assert!(!must_delete(Probe::Unknown));
}

#[test]
fn delete_file_fails_only_where_a_removal_failed() {
    assert_eq!(delete_file(Probe::Present, Outcome::Done), Ok(()));
    assert_eq!(
        delete_file(Probe::Present, Outcome::Failed("Access is denied.".to_string())),
        Err(Errors::DeleteFileError("Access is denied.".to_string()))
    );
}

#[test]
fn delete_file_takes_an_absent_file_for_no_failure() {
    assert_eq!(delete_file(Probe::Absent, Outcome::Done), Ok(()));
    assert_eq!(delete_file(Probe::Absent, Outcome::Failed("not tried".to_string())), Ok(()));
    assert_eq!(delete_file(Probe::Unknown, Outcome::Done), Ok(()));
    assert_eq!(delete_file(Probe::Unknown, Outcome::Failed("not tried".to_string())), Ok(()));
}
