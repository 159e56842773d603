use gat::docker::{
    build_plan, compose_file_services, dx_args, dx_doctor, parse_declared_services_simple, parse_service_header, resolve_compose_dir,
    resolve_worktree_mount, ComposeService, RunningContainer,
};
use gat::output::yes_no;

#[test]
fn service_header_accepts_two_space_indent() {
    assert_eq!(parse_service_header("  web:"), Some("web".to_string()));
    assert_eq!(parse_service_header("  dp1:"), Some("dp1".to_string()));
    assert_eq!(parse_service_header("  config-generator:"), Some("config-generator".to_string()));
}

#[test]
fn service_header_rejects_non_service_lines() {
    assert_eq!(parse_service_header("    image: x"), None);
    assert_eq!(parse_service_header("services:"), None);
    assert_eq!(parse_service_header("  image: nginx"), None);
    assert_eq!(parse_service_header("  :"), None);
}

#[test]
fn simple_parser_lists_services() {
    let services = parse_declared_services_simple("services:\n  alpha:\n    image: x\n  beta:\n    image: y\n");
    let names: Vec<&str> = services.iter().map(|s| s.name.as_str()).collect();
    assert!(names.contains(&"alpha"));
    assert!(names.contains(&"beta"));
}

#[test]
fn yes_no_renders_booleans() {
    assert_eq!(yes_no(true), "yes");
    assert_eq!(yes_no(false), "no");
}

fn service(name: &str, disabled: bool) -> ComposeService {
    ComposeService { name: name.to_string(), disabled }
}

fn container(id: &str, service: Option<&str>, root: &str) -> RunningContainer {
    RunningContainer {
        id: id.to_string(),
        name: format!("/{id}"),
        service: service.map(str::to_string),
        worktree_root: root.to_string(),
    }
}

#[test]
fn dx_plan_execs_into_running_container() {
    let plan = build_plan(
        "/repo".to_string(),
        "/repo/.docker".to_string(),
        true,
        false,
        "/cbr/apps".to_string(),
        vec![service("dp1", false)],
        vec![container("current-container", Some("dp1"), "/repo")],
        None,
        None,
        None,
    );
    let args = dx_args(&plan, &["bash".to_string()]).unwrap();
    assert_eq!(args, vec!["exec", "-ti", "current-container", "bash"]);
}

#[test]
fn dx_plan_falls_back_to_compose_run() {
    let plan = build_plan(
        "/repo".to_string(),
        "/repo/.docker".to_string(),
        true,
        false,
        "/cbr/apps".to_string(),
        vec![service("dp1", false)],
        vec![],
        None,
        None,
        None,
    );
    let args = dx_args(&plan, &[]).unwrap();
    assert_eq!(args, vec!["compose", "run", "--rm", "dp1", "bash"]);
}

#[test]
fn dx_plan_without_compose_file_reports_issue() {
    let plan = build_plan(
        "/repo".to_string(),
        "/repo/.docker".to_string(),
        false,
        false,
        "/cbr/apps".to_string(),
        vec![],
        vec![],
        None,
        None,
        None,
    );
    assert!(plan.issue.is_some());
    assert!(dx_args(&plan, &[]).is_err());
}

#[test]
fn dx_doctor_reports_selected_and_declared_services() {
    let plan = build_plan(
        "/repo".to_string(),
        "/repo/.docker".to_string(),
        true,
        false,
        "/cbr/apps".to_string(),
        vec![service("dp1", false), service("snd1", false), service("base", true)],
        vec![],
        None,
        None,
        Some("snd1"),
    );
    let report = dx_doctor(&plan, true);
    assert!(report.starts_with("gat dx doctor\nWorktree root: /repo\nCompose dir: /repo/.docker\n"));
    assert!(report.contains("Compose file: yes\nOverride file: no\nDocker available: yes\n"));
    assert!(report.contains("Selected service: snd1 (git config gat.dockerService)\n"));
    assert!(report.contains("Declared services:\n  - dp1\n  - snd1\n  - base (disabled)\n"));
    assert!(report.contains("Running containers for worktree: none\n"));
    assert!(report.ends_with("Action: docker compose run --rm snd1 <command>\n"));
}

#[test]
fn dx_doctor_lists_running_containers() {
    let plan = build_plan(
        "/repo".to_string(),
        "/repo/.docker".to_string(),
        true,
        true,
        "/cbr/apps".to_string(),
        vec![],
        vec![container("c1", None, "/repo")],
        None,
        None,
        None,
    );
    let report = dx_doctor(&plan, false);
    assert!(report.contains("Docker available: no\n"));
    assert!(report.contains("Declared services: none\n"));
    assert!(report.contains("Running containers for worktree:\n  - id=c1 name=/c1 service=<unknown> root=/repo\n"));
    assert!(report.ends_with("Action: docker exec -ti c1 <command>\n"));
}

#[test]
fn compose_dir_prefers_environment_then_git_then_default() {
    assert_eq!(resolve_compose_dir("/repo", Some("ops"), Some("git")), "/repo/ops");
    assert_eq!(resolve_compose_dir("/repo", Some(""), Some("/abs")), "/abs");
    assert_eq!(resolve_compose_dir("/repo", None, None), "/repo/.docker");
}

#[test]
fn worktree_mount_prefers_environment_then_git_then_default() {
    assert_eq!(resolve_worktree_mount(Some("/env"), Some("/git")), "/env");
    assert_eq!(resolve_worktree_mount(Some(""), Some("/git")), "/git");
    assert_eq!(resolve_worktree_mount(None, None), "/cbr/apps");
}

#[test]
fn yaml_parser_lists_services_and_disabled() {
    let services = compose_file_services(
        "services:\n  base:\n    image: x\n    profiles: [\"_disabled\"]\n  dp1:\n    image: y\n",
    );
    let base = services.iter().find(|s| s.name == "base").unwrap();
    let dp1 = services.iter().find(|s| s.name == "dp1").unwrap();
    assert!(base.disabled);
    assert!(!dp1.disabled);
}

#[test]
fn yaml_parser_reads_flow_style_documents() {
    let services = compose_file_services("services: {web: {image: x}, db: {image: y, profiles: [tools, _disabled]}}\n");
    let got: Vec<(&str, bool)> = services.iter().map(|s| (s.name.as_str(), s.disabled)).collect();
    assert_eq!(got, vec![("web", false), ("db", true)]);
}

#[test]
fn yaml_document_without_services_declares_none() {
    assert!(compose_file_services("version: \"3\"\nvolumes:\n  data: {}\n").is_empty());
}

#[test]
fn text_that_is_not_yaml_falls_back_to_line_reader() {
    let services = compose_file_services("services:\n  web:\n    image: [x\n");
    let names: Vec<&str> = services.iter().map(|s| s.name.as_str()).collect();
    assert_eq!(names, vec!["web"]);
}
