use capshift::quoting::{applescript_escape, shell_quote};

#[test]
fn quotes_paths_for_shell_commands() {
    assert_eq!(
        shell_quote("/Library/Application Support/capshift"),
        "'/Library/Application Support/capshift'"
    );
    assert_eq!(shell_quote("a'b"), "'a'\\''b'");
}

#[test]
fn quotes_empty_path() {
    assert_eq!(shell_quote(""), "''");
}

#[test]
fn quotes_only_quotes() {
    assert_eq!(shell_quote("''"), "''\\'''\\'''");
}

#[test]
fn quoting_keeps_shell_metacharacters_inside_quotes() {
    assert_eq!(shell_quote("$HOME; rm -rf *"), "'$HOME; rm -rf *'");
    assert_eq!(shell_quote("a\\b\nc"), "'a\\b\nc'");
}

#[test]
fn quoting_keeps_non_ascii_paths() {
    assert_eq!(shell_quote("/Users/Zoë/日本"), "'/Users/Zoë/日本'");
}

#[test]
fn escapes_backslashes_and_quotes_for_applescript() {
    assert_eq!(applescript_escape("a\\b\"c"), "a\\\\b\\\"c");
    assert_eq!(applescript_escape("plain text"), "plain text");
    assert_eq!(applescript_escape(""), "");
    assert_eq!(applescript_escape("\\\""), "\\\\\\\"");
}

#[test]
fn applescript_escape_leaves_single_quotes() {
    assert_eq!(applescript_escape("it's"), "it's");
}
