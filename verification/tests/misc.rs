use clippy_land::app::subscription::{
    clipboard_poll_step, key_command_for_char, key_command_for_named, KeyCommand, NavKey,
};
use clippy_land::cli::{cli_command, CliCommand};
use clippy_land::clipboard::ClipboardEntry;
use clippy_land::ipc::signal_file_path;
use clippy_land::text::{chars_of, contains_chars, slice_range, trim_bounds};

#[test]
fn signal_path_appends_file_name() {
    assert_eq!(
        signal_file_path(Some("/tmp/test-runtime".to_string())).as_deref(),
        Some("/tmp/test-runtime/clippy-land-toggle")
    );
    assert_eq!(
        signal_file_path(Some("/run/user/1000/".to_string())).as_deref(),
        Some("/run/user/1000/clippy-land-toggle")
    );
    assert_eq!(
        signal_file_path(Some(String::new())).as_deref(),
        Some("clippy-land-toggle")
    );
    assert_eq!(signal_file_path(None), None);
}

#[test]
fn cli_arguments() {
    let args = |v: &[&str]| v.iter().map(|s| s.to_string()).collect::<Vec<String>>();
    assert_eq!(cli_command(&args(&[])), CliCommand::Run);
    assert_eq!(cli_command(&args(&["--toggle"])), CliCommand::Toggle);
    assert_eq!(cli_command(&args(&["x", "-t"])), CliCommand::Toggle);
    assert_eq!(cli_command(&args(&["-h", "-t"])), CliCommand::Help);
    assert_eq!(cli_command(&args(&["--help"])), CliCommand::Help);
    assert_eq!(cli_command(&args(&["--verbose"])), CliCommand::Run);
}

#[test]
fn key_commands() {
    assert_eq!(key_command_for_named(NavKey::ArrowUp), KeyCommand::SelectionUp);
    assert_eq!(key_command_for_named(NavKey::Escape), KeyCommand::TogglePopup);
    assert_eq!(key_command_for_char('J'), Some(KeyCommand::SelectionDown));
    assert_eq!(key_command_for_char('k'), Some(KeyCommand::SelectionUp));
    assert_eq!(key_command_for_char('h'), Some(KeyCommand::FocusLeft));
    assert_eq!(key_command_for_char('L'), Some(KeyCommand::FocusRight));
    assert_eq!(key_command_for_char('\r'), Some(KeyCommand::Activate));
    assert_eq!(key_command_for_char('x'), None);
}

#[test]
fn poll_reports_only_changes() {
    let a = ClipboardEntry::Text("a".to_string());
    let b = ClipboardEntry::Text("b".to_string());
    let (seen, report) = clipboard_poll_step(None, &a);
    assert!(report);
    let (seen, report) = clipboard_poll_step(seen, &a);
    assert!(!report);
    let (seen, report) = clipboard_poll_step(seen, &b);
    assert!(report);
    assert_eq!(seen, Some(b.fingerprint()));
}

#[test]
fn text_helpers() {
    let c = chars_of(" \u{3000}ab c\t");
    assert_eq!(trim_bounds(&c), (2, 6));
    assert_eq!(slice_range(&c, 2, 6), vec!['a', 'b', ' ', 'c']);
    assert!(contains_chars(&c, &['b', ' ']));
    assert!(!contains_chars(&c, &['b', 'a']));
    assert!(contains_chars(&c, &[]));
}
