use gat::naming::{is_plain_number, normalize_prefix, sanitize_path_component, session_name, session_prefix, SESSION_DESC_MAX};
use gat::output::OutputFormat;
use gat::sessions::{collect_sessions, find_session_in, format_sessions, parse_session_line};

#[test]
fn sanitizes_path_component() {
    assert_eq!(sanitize_path_component("TICKET-12345"), "TICKET-12345");
    assert_eq!(sanitize_path_component("feature/auth login"), "feature-auth-login");
    assert_eq!(sanitize_path_component("///"), "worktree");
}

#[test]
fn detects_plain_numeric_ticket() {
    assert!(is_plain_number("12345"));
    assert!(!is_plain_number("TICKET-12345"));
    assert!(!is_plain_number("12345A"));
    assert!(!is_plain_number(""));
}

#[test]
fn normalizes_prefix() {
    assert_eq!(normalize_prefix("TICKET").unwrap(), "TICKET");
    assert_eq!(normalize_prefix("TICKET-").unwrap(), "TICKET");
    assert!(normalize_prefix("").is_err());
    assert!(normalize_prefix("TICKET/BUG").is_err());
}

#[test]
fn session_name_without_description_is_prefix() {
    assert_eq!(session_prefix("TICKET-123"), "gat-TICKET-123");
    assert_eq!(session_name("TICKET-123", None), "gat-TICKET-123");
    assert_eq!(session_name("TICKET-123", Some("   ")), "gat-TICKET-123");
}

#[test]
fn session_name_folds_in_description() {
    assert_eq!(
        session_name("TICKET-123", Some("fix login redirect")),
        "gat-TICKET-123-fix-login-redirect"
    );
    assert_eq!(
        session_name("TICKET-123", Some("feature: a.b/c")),
        "gat-TICKET-123-feature-a.b-c"
    );
}

#[test]
fn session_name_truncates_long_descriptions() {
    let long = "x".repeat(SESSION_DESC_MAX + 50);
    let name = session_name("TICKET-123", Some(&long));
    let suffix = name.strip_prefix("gat-TICKET-123-").unwrap();
    assert_eq!(suffix.len(), SESSION_DESC_MAX);
}

#[test]
fn session_name_ignores_description_that_sanitizes_to_nothing() {
    assert_eq!(session_name("TICKET-123", Some("///")), "gat-TICKET-123");
}

#[test]
fn parse_session_line_extracts_gat_fields() {
    let line = "gat-TICKET-123-fix\t1\t3\tTICKET-123\t/repo/wt\tfix login bug";
    let session = parse_session_line(line).expect("should parse gat session");
    assert_eq!(session.name, "gat-TICKET-123-fix");
    assert!(session.attached);
    assert_eq!(session.windows, 3);
    assert_eq!(session.branch.as_deref(), Some("TICKET-123"));
    assert_eq!(session.path.as_deref(), Some("/repo/wt"));
    assert_eq!(session.description.as_deref(), Some("fix login bug"));
}

#[test]
fn parse_session_line_handles_missing_metadata() {
    let line = "gat-TICKET-999\t0\t1\t\t\t";
    let session = parse_session_line(line).expect("should parse gat session");
    assert!(!session.attached);
    assert_eq!(session.windows, 1);
    assert_eq!(session.branch, None);
    assert_eq!(session.path, None);
    assert_eq!(session.description, None);
}

#[test]
fn parse_session_line_skips_non_gat_sessions() {
    assert!(parse_session_line("work\t1\t2\t\t\t").is_none());
    assert!(parse_session_line("main-session\t0\t1\t\t\t").is_none());
}

#[test]
fn format_sessions_empty_is_friendly() {
    assert_eq!(format_sessions(&[], OutputFormat::Text), "No gat tmux sessions.\n");
    assert_eq!(format_sessions(&[], OutputFormat::Json), "[]\n");
}

#[test]
fn format_sessions_json_includes_fields() {
    let session = parse_session_line("gat-TICKET-1\t1\t2\tTICKET-1\t/wt\tcache work").unwrap();
    let json = format_sessions(&[session], OutputFormat::Json);
    assert!(json.contains("\"name\":\"gat-TICKET-1\""));
    assert!(json.contains("\"attached\":true"));
    assert!(json.contains("\"windows\":2"));
    assert!(json.contains("\"branch\":\"TICKET-1\""));
    assert!(json.contains("\"description\":\"cache work\""));
}

#[test]
fn renamed_session_is_found_again_by_ticket() {
    let old_name = session_name("TICKET-1", Some("old description"));
    let listing = format!("work\n{old_name}\ngat-TICKET-10\n");
    let prefix = session_prefix("TICKET-1");
    assert_eq!(find_session_in(&listing, &prefix).as_deref(), Some(old_name.as_str()));
    assert_eq!(find_session_in("gat-TICKET-10\n", &prefix), None);
}

#[test]
fn sessions_come_out_sorted_by_name() {
    let listing = "gat-b\t0\t1\t\t\t\nwork\t1\t1\t\t\t\ngat-a\t1\t2\t\t\t\ngat-c\t0\t1\t\t\t\n";
    let names: Vec<String> = collect_sessions(listing).into_iter().map(|s| s.name).collect();
    assert_eq!(names, vec!["gat-a", "gat-b", "gat-c"]);
}
