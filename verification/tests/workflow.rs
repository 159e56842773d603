use gat::cli::{parse, Command, NewArgs};
use gat::error::GatError;
use gat::git::{parse_worktrees, Worktree};
use gat::metadata::MetadataStore;
use gat::naming::{default_worktree_path, normalize_target, prefix_setting, Repo};
use gat::output::OutputFormat;
use gat::workflow::{
    age_prune_step, build_new_plan, check_merge, check_remove, merge_cleanup, merge_steps, merged_prune_step,
    resolve_base_shortcut, stale_worktree_hint_at, switch_step, MergeStep, NewAction, PruneStep, SwitchStep,
};
use gat::workflow::{
    confirm_step, locate_target, merge_refused_early, shortcut_needs_default_branch, tmux_step, ConfirmStep, Located,
    TmuxStep,
};

fn repo() -> Repo {
    Repo {
        current_root: "/repos/project".to_string(),
        primary_root: "/repos/project".to_string(),
        repo_name: "project".to_string(),
        repo_parent: "/repos".to_string(),
    }
}

fn worktrees() -> Vec<Worktree> {
    parse_worktrees(
        "worktree /repos/project\0HEAD aaa\0branch refs/heads/main\0\0\
worktree /repos/project-TICKET-1\0HEAD bbb\0branch refs/heads/TICKET-1\0\0",
    )
}

fn new_args(target: &str) -> NewArgs {
    NewArgs {
        target: target.to_string(),
        prefix: None,
        no_prefix: false,
        branch: None,
        base: None,
        path: None,
        detach: false,
        description: None,
        template: None,
        dry_run: false,
        format: OutputFormat::Text,
    }
}

#[test]
fn numeric_tickets_gain_prefix_and_others_are_kept() {
    assert_eq!(normalize_target("12345", None, None, false).unwrap(), "TICKET-12345");
    assert_eq!(normalize_target("12345", Some("ABC"), Some("XYZ"), false).unwrap(), "ABC-12345");
    assert_eq!(normalize_target("12345", None, Some("XYZ-"), false).unwrap(), "XYZ-12345");
    assert_eq!(normalize_target("12345", None, None, true).unwrap(), "12345");
    assert_eq!(normalize_target("feature/login", Some("ABC"), None, false).unwrap(), "feature/login");
    assert_eq!(normalize_target("TICKET-9", None, None, false).unwrap(), "TICKET-9");
    assert!(matches!(normalize_target("1", Some("A/B"), None, false), Err(GatError::Usage(_))));
}

#[test]
fn default_path_is_a_sibling_of_the_primary_checkout() {
    assert_eq!(default_worktree_path(&repo(), "TICKET-12345"), "/repos/project-TICKET-12345");
}

#[test]
fn new_creates_a_sibling_worktree() {
    let plan = build_new_plan(&repo(), &worktrees(), &new_args("TICKET-2"), "TICKET-2", "main", Some("main"), false).unwrap();
    assert_eq!(plan.action, NewAction::Create);
    assert_eq!(plan.branch, "TICKET-2");
    assert_eq!(plan.base, "main");
    assert_eq!(plan.path, "/repos/project-TICKET-2");
}

#[test]
fn new_is_idempotent_for_an_existing_worktree() {
    let plan = build_new_plan(&repo(), &worktrees(), &new_args("TICKET-1"), "TICKET-1", "main", Some("main"), true).unwrap();
    assert_eq!(plan.action, NewAction::Existing);
    assert_eq!(plan.path, "/repos/project-TICKET-1");
    assert_eq!(plan.base, "bbb");
}

#[test]
fn new_refuses_an_unregistered_existing_path() {
    let r = build_new_plan(&repo(), &worktrees(), &new_args("TICKET-3"), "TICKET-3", "main", None, true);
    assert!(matches!(r, Err(GatError::Unsafe(_))));
    let mut dry = new_args("TICKET-3");
    dry.dry_run = true;
    let plan = build_new_plan(&repo(), &worktrees(), &dry, "TICKET-3", "main", None, true).unwrap();
    assert_eq!(plan.action, NewAction::DryRun);
}

#[test]
fn base_shortcuts_resolve() {
    assert_eq!(resolve_base_shortcut("^", "main", Some("dev")).unwrap(), "main");
    assert_eq!(resolve_base_shortcut("@", "main", Some("dev")).unwrap(), "dev");
    assert!(matches!(resolve_base_shortcut("@", "main", None), Err(GatError::Unsafe(_))));
    assert_eq!(resolve_base_shortcut("release", "main", None).unwrap(), "release");
}

#[test]
fn merge_checks_refuse_unsafe_states() {
    let wts = worktrees();
    let primary = &wts[0];
    let linked = &wts[1];
    assert_eq!(check_merge(linked, "main", false, "/repos/project", false, Some("main")).unwrap(), "TICKET-1");
    assert!(check_merge(linked, "main", true, "/repos/project", false, Some("main")).is_err());
    assert!(check_merge(linked, "main", false, "/repos/project", true, Some("main")).is_err());
    assert!(check_merge(linked, "main", false, "/repos/project", false, Some("develop")).is_err());
    assert!(check_merge(linked, "TICKET-1", false, "/repos/project", false, Some("TICKET-1")).is_err());
    assert!(check_merge(primary, "develop", false, "/repos/project", false, Some("develop")).is_err());
}

#[test]
fn merge_cleanup_flag_expands_to_all_steps() {
    let parsed = parse(vec!["merge".to_string(), "1".to_string(), "--cleanup".to_string()]).unwrap();
    match parsed {
        Command::Merge(a) => assert_eq!(merge_cleanup(&a), (true, true, true)),
        other => panic!("unexpected {other:?}"),
    }
    let parsed = parse(vec!["merge".to_string(), "1".to_string(), "--remove".to_string()]).unwrap();
    match parsed {
        Command::Merge(a) => assert_eq!(merge_cleanup(&a), (true, false, false)),
        other => panic!("unexpected {other:?}"),
    }
}

#[test]
fn remove_checks_protect_primary_and_dirty_worktrees() {
    let wts = worktrees();
    let parsed = parse(vec!["rm".to_string(), "1".to_string()]).unwrap();
    let args = match parsed {
        Command::Remove(a) => a,
        other => panic!("unexpected {other:?}"),
    };
    assert!(check_remove(&wts[0], &args, false, "main", true).is_err());
    assert!(check_remove(&wts[1], &args, true, "main", true).is_err());
    assert!(check_remove(&wts[1], &args, false, "main", false).is_ok());
    let forced = match parse(vec!["rm".to_string(), "1".to_string(), "--force".to_string()]).unwrap() {
        Command::Remove(a) => a,
        other => panic!("unexpected {other:?}"),
    };
    assert!(check_remove(&wts[1], &forced, true, "main", false).is_ok());
}

#[test]
fn creating_then_asking_again_reuses_the_worktree() {
    let wts = worktrees();
    let first = build_new_plan(&repo(), &wts, &new_args("TICKET-7"), "TICKET-7", "main", None, false).unwrap();
    assert_eq!(first.action, NewAction::Create);
    let mut registered = wts.clone();
    registered.extend(parse_worktrees(&format!(
        "worktree {}\0HEAD ccc\0branch refs/heads/{}\0\0",
        first.path, first.branch
    )));
    let again = build_new_plan(&repo(), &registered, &new_args("TICKET-7"), "TICKET-7", "main", None, true).unwrap();
    assert_eq!(again.action, NewAction::Existing);
    assert_eq!(again.path, first.path);
    assert_eq!(again.branch, first.branch);
    assert_eq!(again.base, "ccc");
}

#[test]
fn merge_runs_cleanup_only_after_merging() {
    assert_eq!(
        merge_steps(false, true, true, true),
        vec![MergeStep::Merge, MergeStep::KillSession, MergeStep::RemoveWorktree, MergeStep::DeleteBranch]
    );
    assert_eq!(merge_steps(true, true, false, false), vec![MergeStep::RemoveWorktree]);
    // Deleting the branch only happens together with removing the worktree.
    assert_eq!(merge_steps(false, false, true, false), vec![MergeStep::Merge]);
    assert!(merge_steps(true, false, false, false).is_empty());
}

#[test]
fn switch_never_creates_a_worktree() {
    assert_eq!(switch_step(true, false, false), SwitchStep::ShowPlan);
    assert_eq!(switch_step(false, true, false), SwitchStep::UseSession);
    assert_eq!(switch_step(false, false, false), SwitchStep::Missing);
    assert_eq!(switch_step(false, false, true), SwitchStep::OpenSession);
}

#[test]
fn prune_never_touches_the_primary_worktree() {
    assert_eq!(age_prune_step(true, true, false, false, true), PruneStep::Skip);
    assert_eq!(age_prune_step(false, false, true, false, true), PruneStep::Skip);
    assert_eq!(age_prune_step(false, true, true, false, true), PruneStep::Remove);
    assert_eq!(age_prune_step(false, false, false, true, false), PruneStep::Report);
    assert_eq!(age_prune_step(false, false, false, false, false), PruneStep::Confirm);
    assert_eq!(merged_prune_step(true, true, false, true, false, false, true), PruneStep::Skip);
    assert_eq!(merged_prune_step(false, false, false, true, false, false, true), PruneStep::Skip);
    assert_eq!(merged_prune_step(false, true, true, true, false, false, true), PruneStep::Skip);
    assert_eq!(merged_prune_step(false, true, false, true, true, false, true), PruneStep::Skip);
    assert_eq!(merged_prune_step(false, true, false, false, false, false, true), PruneStep::Skip);
    assert_eq!(merged_prune_step(false, true, false, true, false, false, true), PruneStep::Remove);
}

#[test]
fn stale_hint_lists_most_idle_first() {
    let day: u64 = 86_400;
    let now = 100 * day;
    let mut store = MetadataStore::new();
    store.track_creation_at("/w/a", "a", now - 40 * day);
    store.track_creation_at("/w/b", "b", now - 90 * day);
    store.track_creation_at("/w/c", "c", now - 31 * day);
    store.track_creation_at("/w/d", "d", now - 2 * day);
    store.track_creation_at("/w/gone", "gone", now - 99 * day);
    let live: Vec<String> = ["/w/a", "/w/b", "/w/c", "/w/d"].iter().map(|p| p.to_string()).collect();
    let hint = stale_worktree_hint_at(&store, &live, now);
    assert_eq!(
        hint,
        "\nStale worktrees (>30d unused): 3\n  b - 90d unused\n  a - 40d unused\n  c - 31d unused\nRun: gat prune --older-than 30\n"
    );
    assert_eq!(stale_worktree_hint_at(&MetadataStore::new(), &live, now), "");
}

#[test]
fn session_prefix_applies_when_the_repository_sets_none() {
    let configured = prefix_setting(None, Some("ABC"));
    assert_eq!(normalize_target("12345", None, configured.as_deref(), false).unwrap(), "ABC-12345");
    let configured = prefix_setting(Some("XYZ"), Some("ABC"));
    assert_eq!(normalize_target("12345", None, configured.as_deref(), false).unwrap(), "XYZ-12345");
    assert_eq!(normalize_target("12345", Some("QA"), configured.as_deref(), false).unwrap(), "QA-12345");
    assert_eq!(prefix_setting(None, None), None);
}

#[test]
fn go_and_path_look_for_shortcuts_then_worktrees_then_create() {
    let wts = worktrees();
    assert!(shortcut_needs_default_branch("^"));
    assert!(!shortcut_needs_default_branch("TICKET-1"));
    assert_eq!(locate_target(&repo(), &wts, "^", "main", false), Located::Path("/repos/project".to_string()));
    assert_eq!(
        locate_target(&repo(), &wts, "TICKET-1", "", false),
        Located::Path("/repos/project-TICKET-1".to_string())
    );
    assert_eq!(locate_target(&repo(), &wts, "TICKET-9", "", true), Located::Create);
    assert_eq!(locate_target(&repo(), &wts, "TICKET-9", "", false), Located::Missing);
}

#[test]
fn changing_commands_show_plan_ask_or_proceed() {
    assert_eq!(confirm_step(true, true), ConfirmStep::ShowPlan);
    assert_eq!(confirm_step(true, false), ConfirmStep::ShowPlan);
    assert_eq!(confirm_step(false, false), ConfirmStep::Ask);
    assert_eq!(confirm_step(false, true), ConfirmStep::Proceed);
}

#[test]
fn tmux_step_checks_tools_only_outside_dry_runs() {
    assert_eq!(tmux_step(true, false, "/bin/zsh", false, true).ok(), Some(TmuxStep::ShowPlan));
    match tmux_step(false, false, "/bin/zsh", true, true) {
        Err(GatError::NotFound(m)) => assert_eq!(m, "tmux not found on PATH"),
        other => panic!("unexpected {other:?}"),
    }
    match tmux_step(false, true, "/bin/zsh", false, true) {
        Err(GatError::NotFound(m)) => assert_eq!(m, "shell /bin/zsh not found"),
        other => panic!("unexpected {other:?}"),
    }
    assert_eq!(tmux_step(false, true, "/bin/zsh", true, true).ok(), Some(TmuxStep::CreateWorktree));
    assert_eq!(tmux_step(false, true, "/bin/zsh", true, false).ok(), Some(TmuxStep::ReuseWorktree));
}

#[test]
fn merge_is_refused_early_for_primary_detached_or_same_branch() {
    let wts = worktrees();
    assert!(merge_refused_early(&wts[0], "develop"));
    assert!(merge_refused_early(&wts[1], "TICKET-1"));
    assert!(!merge_refused_early(&wts[1], "main"));
}
