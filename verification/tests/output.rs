use gat::output::{json_escape, path_string, shell_escape, OutputFormat};
use std::path::Path;

#[test]
fn output_format_parses_known_values() {
    assert_eq!(OutputFormat::parse("text"), Some(OutputFormat::Text));
    assert_eq!(OutputFormat::parse("json"), Some(OutputFormat::Json));
    assert_eq!(OutputFormat::parse("shell"), Some(OutputFormat::Shell));
    assert_eq!(OutputFormat::parse("yaml"), None);
    assert_eq!(OutputFormat::parse(""), None);
}

#[test]
fn json_escape_handles_quotes_and_controls() {
    assert_eq!(json_escape("plain"), "plain");
    assert_eq!(json_escape("a\"b"), "a\\\"b");
    assert_eq!(json_escape("a\\b"), "a\\\\b");
    assert_eq!(json_escape("line1\nline2"), "line1\\nline2");
    assert_eq!(json_escape("tab\there"), "tab\\there");
    assert_eq!(json_escape("\u{7}"), "\\u0007");
}

#[test]
fn shell_escape_quotes_and_escapes_single_quotes() {
    assert_eq!(shell_escape(""), "''");
    assert_eq!(shell_escape("plain"), "'plain'");
    assert_eq!(shell_escape("with space"), "'with space'");
    assert_eq!(shell_escape("it's"), "'it'\\''s'");
    assert_eq!(shell_escape("a;b|c"), "'a;b|c'");
}

#[test]
fn path_string_renders_paths() {
    assert_eq!(path_string(Path::new("/a/b")), "/a/b");
    assert_eq!(path_string(Path::new("rel/path")), "rel/path");
}

#[test]
fn json_escape_output_decodes_back_to_the_input() {
    for s in ["plain", "quote \" and \\ slash", "ctl \u{1}\u{8}\u{c}\u{1f}\u{7f}\u{9f} end", "line\r\n\ttab", "ünïcödé ✓"] {
        let escaped = json_escape(s);
        assert!(!escaped.chars().any(|c| c.is_control()));
        let decoded: String = serde_json::from_str(&format!("\"{escaped}\"")).unwrap();
        assert_eq!(decoded, s);
    }
    assert_eq!(json_escape("ünïcödé ✓"), "ünïcödé ✓");
}

#[test]
fn shell_escape_is_one_quoted_word() {
    let quoted = shell_escape("$(rm -rf ~) `x` 'y' \"z\"");
    assert_eq!(quoted, "'$(rm -rf ~) `x` '\\''y'\\'' \"z\"'");
    assert!(quoted.starts_with('\'') && quoted.ends_with('\''));
}
