use gat::cli::{parse, Command};
use gat::git::parse_worktrees;
use gat::naming::Repo;
use gat::output::OutputFormat;
use gat::workflow::{
    format_describe_result, format_list_json, format_list_text, format_new_result, format_switch_plan,
    format_tmux_plan, ListedWorktree, NewAction, NewPlan, TmuxPlan,
};

fn repo() -> Repo {
    Repo {
        current_root: "/repos/project".to_string(),
        primary_root: "/repos/project".to_string(),
        repo_name: "project".to_string(),
        repo_parent: "/repos".to_string(),
    }
}

fn plan(action: NewAction) -> NewPlan {
    NewPlan {
        ticket: "TICKET-12345".to_string(),
        branch: "TICKET-12345".to_string(),
        base: "main".to_string(),
        path: "/repos/project-TICKET-12345".to_string(),
        action,
        detach: false,
    }
}

fn listed(dirty: bool, changed: usize, description: Option<&str>) -> Vec<ListedWorktree> {
    parse_worktrees(
        "worktree /repos/project\0HEAD aaa\0branch refs/heads/main\0\0worktree /repos/project-TICKET-12345\0HEAD bbb\0branch refs/heads/TICKET-12345\0\0",
    )
    .into_iter()
    .map(|worktree| ListedWorktree {
        worktree,
        dirty,
        merged: false,
        changed_files: changed,
        insertions: 3,
        deletions: 1,
        idle_days: Some(0),
        description: description.map(str::to_string),
    })
    .collect()
}

#[test]
fn dry_run_reports_the_sibling_path() {
    let text = format_new_result(&plan(NewAction::DryRun), OutputFormat::Text).unwrap();
    assert!(text.contains("would_create"));
    assert!(text.contains("TICKET-12345"));
    assert!(text.contains("/repos/project-TICKET-12345"));
    let shell = format_new_result(&plan(NewAction::DryRun), OutputFormat::Shell).unwrap();
    assert!(shell.contains("GAT_STATUS=ok"));
    assert!(shell.contains("GAT_PATH="));
    assert!(shell.contains("/repos/project-TICKET-12345"));
}

fn tmux_plan() -> TmuxPlan {
    TmuxPlan {
        plan: plan(NewAction::DryRun),
        session: "gat-TICKET-12345".to_string(),
        prompt_file: "/home/u/.config/gat/worktrees/p/TICKET-12345/pre-prompt.md".to_string(),
        codex_cmd: "codex".to_string(),
        editor_cmd: "nvim".to_string(),
        shell: "/bin/bash".to_string(),
        left_width: 55,
        bottom_height: 35,
        focus_left: true,
        attach: false,
        in_tmux: false,
    }
}

#[test]
fn tmux_plan_text_names_session_and_commands() {
    let text = format_tmux_plan(&tmux_plan(), OutputFormat::Text);
    assert!(text.contains("tmux plan"));
    assert!(text.contains("gat-TICKET-12345"));
    assert!(text.contains("codex"));
    assert!(text.contains("nvim"));
}

#[test]
fn tmux_plan_json_has_action_ticket_and_session() {
    let json = format_tmux_plan(&tmux_plan(), OutputFormat::Json);
    assert!(json.contains("\"action\":\"tmux_plan\""));
    assert!(json.contains("\"ticket\":\"TICKET-12345\""));
    assert!(json.contains("\"session\":\"gat-TICKET-12345\""));
    assert!(json.contains("\"attach_command\":\"no attach\""));
}

#[test]
fn switch_plan_resolves_the_action() {
    let json = format_switch_plan(
        "TICKET-12345",
        "gat-TICKET-12345",
        Some("/repos/project-TICKET-12345"),
        false,
        OutputFormat::Json,
    );
    assert!(json.contains("\"action\":\"switch_plan\""));
    assert!(json.contains("\"target\":\"TICKET-12345\""));
    assert!(json.contains("\"session\":\"gat-TICKET-12345\""));
    assert!(json.contains("\"resolved_action\":\"create_session\""));
    let text = format_switch_plan("TICKET-12345", "gat-TICKET-12345", None, false, OutputFormat::Text);
    assert!(text.contains("action: no_worktree"));
}

#[test]
fn list_shows_idle_changes_and_descriptions() {
    let text = format_list_text(&repo(), &listed(true, 2, Some("payment refactor")));
    assert!(text.contains("Idle"));
    assert!(text.contains("0d"));
    assert!(text.contains("Changes"));
    assert!(text.contains("2f"));
    assert!(text.contains("payment refactor"));
    let json = format_list_json(&listed(true, 2, Some("cache layer")));
    assert!(json.contains("\"idle_days\":"));
    assert!(json.contains("\"changed_files\":"));
    assert!(json.contains("\"insertions\":"));
    assert!(json.contains("\"deletions\":"));
    assert!(json.contains("\"dirty\":true"));
    assert!(json.contains("\"description\":\"cache layer\""));
    let fast = format_list_json(&listed(false, 0, None));
    assert!(fast.contains("\"dirty\":false"));
    assert!(fast.contains("\"changed_files\":0"));
}

#[test]
fn describe_shows_or_reports_missing_description() {
    let shown = format_describe_result("TICKET-12345", "/wt", "add OAuth support", false, OutputFormat::Text);
    assert!(shown.contains("add OAuth support"));
    let empty = format_describe_result("TICKET-12345", "/wt", "", false, OutputFormat::Text);
    assert!(empty.contains("no description"));
}

#[test]
fn describe_joins_words_and_clears() {
    let words: Vec<String> = ["describe", "12345", "add", "OAuth", "support"].iter().map(|w| w.to_string()).collect();
    match parse(words) {
        Ok(Command::Describe(a)) => assert_eq!(a.description.as_deref(), Some("add OAuth support")),
        other => panic!("unexpected {other:?}"),
    }
    let clear: Vec<String> = ["describe", "12345", "--clear"].iter().map(|w| w.to_string()).collect();
    match parse(clear) {
        Ok(Command::Describe(a)) => assert_eq!(a.description.as_deref(), Some("")),
        other => panic!("unexpected {other:?}"),
    }
}
