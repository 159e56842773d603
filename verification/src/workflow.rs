//! The decisions behind each `gat` command.
//!
//! Every command first gathers facts (Git output, whether a path exists,
//! what tmux reports) and then decides what to do and what to print. The
//! deciding and the printing live here, as functions of those facts; the
//! gathering and the side effects stay with the caller.

use vstd::prelude::*;
use crate::cli::{MergeArgs, NewArgs, RemoveArgs, Shell, help};
use crate::config::{GatConfig, Template, TemplateView, template_lookup};
use crate::error::{ErrorView, GatError, Result, error_message, result_view};
use crate::git::{Worktree, WorktreeView, current_branch, current_root, default_branch, delete_branch, file_name, find_worktree, find_worktree_index, parent, path_file_name, short_head, short_head_spec, signed_decimal, signed_decimal_string, worktrees_view};
use crate::metadata::{MetaView, MetadataStore, WorktreeMetadata, days_since_access_spec, stale_spec, stale_threshold};
use crate::naming::{Repo, default_worktree_path, default_worktree_path_spec, fnv1a, join, join_path, sanitize_path_component, sanitized, session_name, session_name_spec, stable_hex_hash};
use crate::output::{OutputFormat, bool_string, bool_text, hex_fixed, json_escape, json_escaped, option_json, option_json_spec, shell_escape, shell_escaped, yes_no, yes_no_spec};
use crate::sessions::opt_view;
use crate::text::{chars_of, decimal, decimal_string, pad_right, push_padded_right, push_str, split, split_chars, str_eq, string_of, trim, trim_chars};
use crate::tui::{select, step};

verus! {

// ---------------------------------------------------------------------------
// Creating or reusing a worktree
// ---------------------------------------------------------------------------

/// Planned worktree creation action.
#[derive(Clone, Copy, Debug, PartialEq, Eq, Structural)]
pub enum NewAction {
    /// Create a new worktree.
    Create,
    /// Reuse a registered worktree.
    Existing,
    /// Report the plan without mutating state.
    DryRun,
}

/// Plan for creating or reusing a ticket worktree.
///
/// The plan is built before mutation so dry-runs, JSON output, tmux
/// launching, and actual creation all share one decision path.
#[derive(Clone, Debug)]
pub struct NewPlan<S = String> {
    /// Normalized ticket name, e.g. `TICKET-12345`.
    pub ticket: S,
    /// Branch that should back the worktree.
    pub branch: S,
    /// Base ref for new branch creation.
    pub base: S,
    /// Destination worktree path.
    pub path: S,
    /// Whether this command will create, reuse, or only report.
    pub action: NewAction,
    /// Whether the worktree should be detached.
    pub detach: bool,
}

/// The specification-level plan.
pub type NewPlanView = NewPlan<Seq<char>>;

impl View for NewPlan<String> {
    type V = NewPlan<Seq<char>>;

    open spec fn view(&self) -> NewPlan<Seq<char>> {
        NewPlan {
            ticket: self.ticket@,
            branch: self.branch@,
            base: self.base@,
            path: self.path@,
            action: self.action,
            detach: self.detach,
        }
    }
}

/// The stable machine-facing label of a creation action.
pub open spec fn new_action_text(action: NewAction) -> Seq<char> {
    match action {
        NewAction::Create => "create"@,
        NewAction::Existing => "existing"@,
        NewAction::DryRun => "dry_run"@,
    }
}

/// Returns a stable machine-facing label for a worktree creation action.
pub fn new_action_label(action: NewAction) -> (r: &'static str)
    ensures
        r@ == new_action_text(action),
{
    match action {
        NewAction::Create => "create",
        NewAction::Existing => "existing",
        NewAction::DryRun => "dry_run",
    }
}

/// What a `--base` value names: `^` the default branch, `@` the current
/// branch (an error when detached), anything else itself.
pub open spec fn base_named(value: Seq<char>, default_branch: Seq<char>, current_branch: Option<Seq<char>>) -> core::result::Result<Seq<char>, ErrorView> {
    if value == "^"@ {
        Ok(default_branch)
    } else if value == "@"@ {
        match current_branch {
            Some(b) => Ok(b),
            None => Err(GatError::Unsafe("current worktree is detached; cannot resolve @"@)),
        }
    } else {
        Ok(value)
    }
}

/// Resolves base-ref shortcuts used by `--base` and `--from`, given the
/// repository's default branch and the current worktree's branch.
pub fn resolve_base_shortcut(value: &str, default_branch: &str, current_branch: Option<&str>) -> (r: Result<String>)
    ensures
        result_view(r) == base_named(value@, default_branch@, opt_str_view(current_branch)),
{
    if str_eq(value, "^") {
        Ok(default_branch.to_string())
    } else if str_eq(value, "@") {
        match current_branch {
            Some(b) => Ok(b.to_string()),
            None => Err(GatError::Unsafe("current worktree is detached; cannot resolve @".to_string())),
        }
    } else {
        Ok(value.to_string())
    }
}

/// An optional `&str` taken by its view.
pub open spec fn opt_str_view(o: Option<&str>) -> Option<Seq<char>> {
    match o {
        Some(s) => Some(s@),
        None => None,
    }
}

/// The path a new worktree for `ticket` goes to: the explicit one, else the
/// sibling default.
pub open spec fn planned_path(repo_parent: Seq<char>, repo_name: Seq<char>, ticket: Seq<char>, path: Option<Seq<char>>) -> Seq<char> {
    match path {
        Some(p) => p,
        None => default_worktree_path_spec(repo_parent, repo_name, ticket),
    }
}

/// The path a new worktree would be created at.
pub fn new_plan_path(repo: &Repo, ticket: &str, path: Option<&str>) -> (r: String)
    ensures
        r@ == planned_path(repo.repo_parent@, repo.repo_name@, ticket@, opt_str_view(path)),
{
    match path {
        Some(p) => p.to_string(),
        None => default_worktree_path(repo, ticket),
    }
}

/// The creation/reuse plan. A registered worktree for the branch wins over
/// creation, so `gat 12345` is idempotent; otherwise the planned path must
/// not already exist (unless only planning).
pub open spec fn new_plan_spec(
    worktrees: Seq<WorktreeView>,
    ticket: Seq<char>,
    branch: Option<Seq<char>>,
    base: Option<Seq<char>>,
    path: Option<Seq<char>>,
    detach: bool,
    dry_run: bool,
    repo_parent: Seq<char>,
    repo_name: Seq<char>,
    default_branch: Seq<char>,
    current_branch: Option<Seq<char>>,
    path_exists: bool,
) -> core::result::Result<NewPlanView, ErrorView> {
    let branch = match branch {
        Some(b) => b,
        None => ticket,
    };
    match find_worktree_index(worktrees, branch) {
        Some(i) => Ok(NewPlan {
            ticket: ticket,
            branch: branch,
            base: match worktrees[i].head {
                Some(h) => h,
                None => "HEAD"@,
            },
            path: worktrees[i].path,
            action: if dry_run { NewAction::DryRun } else { NewAction::Existing },
            detach: worktrees[i].detached,
        }),
        None => {
            let base_ref = match base {
                Some(b) => base_named(b, default_branch, current_branch),
                None => Ok(default_branch),
            };
            match base_ref {
                Err(e) => Err(e),
                Ok(base_ref) => {
                    let p = planned_path(repo_parent, repo_name, ticket, path);
                    if path_exists && !dry_run {
                        Err(GatError::Unsafe("path already exists and is not registered as a worktree: "@ + p))
                    } else {
                        Ok(NewPlan {
                            ticket: ticket,
                            branch: branch,
                            base: base_ref,
                            path: p,
                            action: if dry_run { NewAction::DryRun } else { NewAction::Create },
                            detach: detach,
                        })
                    }
                },
            }
        },
    }
}

/// Asking again reuses what a creation made: once the worktree a creation
/// plan describes is registered on its branch, the same request plans to
/// reuse that worktree, at the same path and branch, though its path now
/// exists on disk.
pub proof fn lemma_new_is_idempotent(
    worktrees: Seq<WorktreeView>,
    ticket: Seq<char>,
    branch: Option<Seq<char>>,
    base: Option<Seq<char>>,
    path: Option<Seq<char>>,
    detach: bool,
    repo_parent: Seq<char>,
    repo_name: Seq<char>,
    default_branch: Seq<char>,
    current_branch: Option<Seq<char>>,
    path_exists: bool,
    plan: NewPlanView,
    created: WorktreeView,
)
    requires
        new_plan_spec(worktrees, ticket, branch, base, path, detach, false, repo_parent, repo_name, default_branch,
            current_branch, path_exists) == Ok::<NewPlanView, ErrorView>(plan),
        plan.action == NewAction::Create,
        created.path == plan.path,
        created.branch == Some(plan.branch),
    ensures
        new_plan_spec(worktrees.push(created), ticket, branch, base, path, detach, false, repo_parent, repo_name,
            default_branch, current_branch, true) == Ok::<NewPlanView, ErrorView>(NewPlan {
            ticket: ticket,
            branch: plan.branch,
            base: match created.head {
                Some(h) => h,
                None => "HEAD"@,
            },
            path: plan.path,
            action: NewAction::Existing,
            detach: created.detached,
        }),
{
    let ws = worktrees.push(created);
    assert(ws.drop_last() =~= worktrees);
    assert(ws.last() == created);
    assert(crate::git::worktree_matches(created, plan.branch));
}

/// How a new worktree's plan is built when no registered worktree is on the
/// branch: the branch is `--branch` or else the ticket; the base is the
/// `--base` ref as given, except that `^` names the default branch and `@`
/// the current branch (refused when detached), and without `--base` the
/// default branch; the path is `--path` or else the sibling of the primary
/// worktree named after the ticket; the plan is refused only when that path
/// already exists and this is not a dry run.
pub proof fn lemma_new_plan_creates(
    worktrees: Seq<WorktreeView>,
    ticket: Seq<char>,
    branch: Option<Seq<char>>,
    base: Option<Seq<char>>,
    path: Option<Seq<char>>,
    detach: bool,
    dry_run: bool,
    repo_parent: Seq<char>,
    repo_name: Seq<char>,
    default_branch: Seq<char>,
    current_branch: Option<Seq<char>>,
    path_exists: bool,
)
    requires
        find_worktree_index(worktrees, if branch is Some { branch->0 } else { ticket }) is None,
        !(base == Some("@"@) && current_branch is None),
    ensures
        ({
            let r = new_plan_spec(worktrees, ticket, branch, base, path, detach, dry_run, repo_parent, repo_name,
                default_branch, current_branch, path_exists);
            &&& (r is Ok <==> !(path_exists && !dry_run))
            &&& r is Ok ==> r->Ok_0.ticket == ticket
            &&& r is Ok ==> r->Ok_0.branch == (if branch is Some { branch->0 } else { ticket })
            &&& r is Ok ==> r->Ok_0.detach == detach
            &&& r is Ok ==> r->Ok_0.action == (if dry_run { NewAction::DryRun } else { NewAction::Create })
            &&& r is Ok ==> r->Ok_0.path == (if path is Some { path->0 } else {
                default_worktree_path_spec(repo_parent, repo_name, ticket) })
            &&& r is Ok && base is None ==> r->Ok_0.base == default_branch
            &&& r is Ok && base == Some("^"@) ==> r->Ok_0.base == default_branch
            &&& r is Ok && base == Some("@"@) ==> r->Ok_0.base == current_branch->0
            &&& r is Ok && base is Some && base->0 != "^"@ && base->0 != "@"@ ==> r->Ok_0.base == base->0
        }),
{
    reveal_strlit("^");
    reveal_strlit("@");
    assert("^"@ != "@"@) by {
        assert("^"@[0] != "@"@[0]);
    }
}

/// Computes the worktree creation/reuse plan for a normalized ticket.
///
/// `default_branch` and `current_branch` resolve base shortcuts;
/// `path_exists` says whether [`new_plan_path`] already exists on disk.
pub fn build_new_plan(
    repo: &Repo,
    worktrees: &[Worktree],
    args: &NewArgs,
    ticket: &str,
    default_branch: &str,
    current_branch: Option<&str>,
    path_exists: bool,
) -> (r: Result<NewPlan>)
    ensures
        result_view(r) == new_plan_spec(
            worktrees_view(worktrees@),
            ticket@,
            opt_view(args.branch),
            opt_view(args.base),
            opt_view(args.path),
            args.detach,
            args.dry_run,
            repo.repo_parent@,
            repo.repo_name@,
            default_branch@,
            opt_str_view(current_branch),
            path_exists,
        ),
{
    let branch = match &args.branch {
        Some(b) => b.clone(),
        None => ticket.to_string(),
    };
    proof {
        assert(worktrees_view(worktrees@) =~= worktrees@.map_values(|w: Worktree| w@));
    }
    match find_worktree(worktrees, branch.as_str()) {
        Some(existing) => {
            let base = match &existing.head {
                Some(h) => h.clone(),
                None => "HEAD".to_string(),
            };
            Ok(NewPlan {
                ticket: ticket.to_string(),
                branch,
                base,
                path: existing.path.clone(),
                action: if args.dry_run { NewAction::DryRun } else { NewAction::Existing },
                detach: existing.detached,
            })
        },
        None => {
            let base = match &args.base {
                Some(b) => resolve_base_shortcut(b.as_str(), default_branch, current_branch)?,
                None => default_branch.to_string(),
            };
            let path = new_plan_path(repo, ticket, opt_string_ref(&args.path));
            if path_exists && !args.dry_run {
                let mut m = "path already exists and is not registered as a worktree: ".to_string();
                push_str(&mut m, path.as_str());
                return Err(GatError::Unsafe(m));
            }
            Ok(NewPlan {
                ticket: ticket.to_string(),
                branch,
                base,
                path,
                action: if args.dry_run { NewAction::DryRun } else { NewAction::Create },
                detach: args.detach,
            })
        },
    }
}

/// An optional `String` as an optional `&str`.
pub fn opt_string_ref(o: &Option<String>) -> (r: Option<&str>)
    ensures
        opt_str_view(r) == opt_view(*o),
{
    match o {
        Some(s) => Some(s.as_str()),
        None => None,
    }
}

/// The result verb of a plan's action.
pub open spec fn new_result_verb(action: NewAction) -> Seq<char> {
    match action {
        NewAction::Create => "created"@,
        NewAction::Existing => "existing"@,
        NewAction::DryRun => "would_create"@,
    }
}

/// Create/reuse/dry-run output for each format.
pub open spec fn new_result_text(plan: NewPlanView, format: OutputFormat) -> Seq<char> {
    let action = new_result_verb(plan.action);
    match format {
        OutputFormat::Text => action + " worktree for "@ + plan.ticket + " on branch "@ + plan.branch + " from "@
            + plan.base + " @ "@ + plan.path + "\n"@,
        OutputFormat::Json => "{\"status\":\"ok\",\"action\":\""@ + action + "\",\"ticket\":\""@ + json_escaped(plan.ticket)
            + "\",\"branch\":\""@ + json_escaped(plan.branch) + "\",\"base\":\""@ + json_escaped(plan.base)
            + "\",\"path\":\""@ + json_escaped(plan.path) + "\",\"detach\":"@ + bool_text(plan.detach) + "}\n"@,
        OutputFormat::Shell => "GAT_STATUS=ok\nGAT_ACTION="@ + shell_escaped(action) + "\nGAT_TICKET="@
            + shell_escaped(plan.ticket) + "\nGAT_BRANCH="@ + shell_escaped(plan.branch) + "\nGAT_BASE="@
            + shell_escaped(plan.base) + "\nGAT_PATH="@ + shell_escaped(plan.path) + "\nGAT_MESSAGE="@
            + shell_escaped(action + " worktree for "@ + plan.ticket + " @ "@ + plan.path) + "\n"@,
    }
}

/// Appends the shell-escaped `value`.
fn push_shell(out: &mut String, value: &str)
    ensures
        final(out)@ == old(out)@ + shell_escaped(value@),
{
    let e = shell_escape(value);
    push_str(out, e.as_str());
}

/// Appends the JSON-escaped `value`.
fn push_json(out: &mut String, value: &str)
    ensures
        final(out)@ == old(out)@ + json_escaped(value@),
{
    let e = json_escape(value);
    push_str(out, e.as_str());
}

/// Formats create/reuse/dry-run output.
pub fn format_new_result(plan: &NewPlan, format: OutputFormat) -> (r: Result<String>)
    ensures
        r matches Ok(t) && t@ == new_result_text(plan@, format),
{
    let action = match plan.action {
        NewAction::Create => "created",
        NewAction::Existing => "existing",
        NewAction::DryRun => "would_create",
    };
    let mut out = String::new();
    match format {
        OutputFormat::Text => {
            push_str(&mut out, action);
            assert(out@ =~= action@);
            push_str(&mut out, " worktree for ");
            push_str(&mut out, plan.ticket.as_str());
            push_str(&mut out, " on branch ");
            push_str(&mut out, plan.branch.as_str());
            push_str(&mut out, " from ");
            push_str(&mut out, plan.base.as_str());
            push_str(&mut out, " @ ");
            push_str(&mut out, plan.path.as_str());
            push_str(&mut out, "\n");
        },
        OutputFormat::Json => {
            push_str(&mut out, "{\"status\":\"ok\",\"action\":\"");
            assert(out@ =~= "{\"status\":\"ok\",\"action\":\""@);
            push_str(&mut out, action);
            push_str(&mut out, "\",\"ticket\":\"");
            push_json(&mut out, plan.ticket.as_str());
            push_str(&mut out, "\",\"branch\":\"");
            push_json(&mut out, plan.branch.as_str());
            push_str(&mut out, "\",\"base\":\"");
            push_json(&mut out, plan.base.as_str());
            push_str(&mut out, "\",\"path\":\"");
            push_json(&mut out, plan.path.as_str());
            push_str(&mut out, "\",\"detach\":");
            push_str(&mut out, bool_string(plan.detach).as_str());
            push_str(&mut out, "}\n");
        },
        OutputFormat::Shell => {
            let mut message = String::new();
            push_str(&mut message, action);
            assert(message@ =~= action@);
            push_str(&mut message, " worktree for ");
            push_str(&mut message, plan.ticket.as_str());
            push_str(&mut message, " @ ");
            push_str(&mut message, plan.path.as_str());
            push_str(&mut out, "GAT_STATUS=ok\nGAT_ACTION=");
            assert(out@ =~= "GAT_STATUS=ok\nGAT_ACTION="@);
            push_shell(&mut out, action);
            push_str(&mut out, "\nGAT_TICKET=");
            push_shell(&mut out, plan.ticket.as_str());
            push_str(&mut out, "\nGAT_BRANCH=");
            push_shell(&mut out, plan.branch.as_str());
            push_str(&mut out, "\nGAT_BASE=");
            push_shell(&mut out, plan.base.as_str());
            push_str(&mut out, "\nGAT_PATH=");
            push_shell(&mut out, plan.path.as_str());
            push_str(&mut out, "\nGAT_MESSAGE=");
            push_shell(&mut out, message.as_str());
            push_str(&mut out, "\n");
        },
    }
    Ok(out)
}

/// Path-switch output for each format; shell mode emits `GAT_PATH` so the
/// shell wrapper can `cd`.
pub open spec fn path_result_text(action: Seq<char>, target: Seq<char>, path: Seq<char>, format: OutputFormat) -> Seq<char> {
    match format {
        OutputFormat::Text => target + " @ "@ + path + "\n"@,
        OutputFormat::Json => "{\"status\":\"ok\",\"action\":\""@ + json_escaped(action) + "\",\"target\":\""@
            + json_escaped(target) + "\",\"path\":\""@ + json_escaped(path) + "\"}\n"@,
        OutputFormat::Shell => "GAT_STATUS=ok\nGAT_ACTION="@ + shell_escaped(action) + "\nGAT_TARGET="@
            + shell_escaped(target) + "\nGAT_PATH="@ + shell_escaped(path) + "\nGAT_MESSAGE="@
            + shell_escaped("switching to "@ + target + " @ "@ + path) + "\n"@,
    }
}

/// Formats path-switch output.
pub fn format_path_result(action: &str, target: &str, path: &str, format: OutputFormat) -> (r: Result<String>)
    ensures
        r matches Ok(t) && t@ == path_result_text(action@, target@, path@, format),
{
    let mut out = String::new();
    match format {
        OutputFormat::Text => {
            push_str(&mut out, target);
            assert(out@ =~= target@);
            push_str(&mut out, " @ ");
            push_str(&mut out, path);
            push_str(&mut out, "\n");
        },
        OutputFormat::Json => {
            push_str(&mut out, "{\"status\":\"ok\",\"action\":\"");
            assert(out@ =~= "{\"status\":\"ok\",\"action\":\""@);
            push_json(&mut out, action);
            push_str(&mut out, "\",\"target\":\"");
            push_json(&mut out, target);
            push_str(&mut out, "\",\"path\":\"");
            push_json(&mut out, path);
            push_str(&mut out, "\"}\n");
        },
        OutputFormat::Shell => {
            let mut message = "switching to ".to_string();
            push_str(&mut message, target);
            push_str(&mut message, " @ ");
            push_str(&mut message, path);
            push_str(&mut out, "GAT_STATUS=ok\nGAT_ACTION=");
            assert(out@ =~= "GAT_STATUS=ok\nGAT_ACTION="@);
            push_shell(&mut out, action);
            push_str(&mut out, "\nGAT_TARGET=");
            push_shell(&mut out, target);
            push_str(&mut out, "\nGAT_PATH=");
            push_shell(&mut out, path);
            push_str(&mut out, "\nGAT_MESSAGE=");
            push_shell(&mut out, message.as_str());
            push_str(&mut out, "\n");
        },
    }
    Ok(out)
}

/// Resolves navigation shortcuts: `@` is the current worktree, `^` the
/// default branch's worktree (if registered); `-` and anything else resolve
/// to nothing here.
pub open spec fn shortcut_path_spec(target: Seq<char>, worktrees: Seq<WorktreeView>, default_branch: Seq<char>, current_root: Seq<char>) -> Option<Seq<char>> {
    if target == "^"@ {
        match find_worktree_index(worktrees, default_branch) {
            Some(i) => Some(worktrees[i].path),
            None => None,
        }
    } else if target == "@"@ {
        Some(current_root)
    } else {
        None
    }
}

/// Whether resolving `target` as a shortcut needs the default branch (only
/// `^` does), so the caller asks Git for it only then.
pub fn shortcut_needs_default_branch(target: &str) -> (r: bool)
    ensures
        r == (target@ == "^"@),
{
    str_eq(target, "^")
}

/// Where `gat go` and `gat path` find a target.
#[derive(Clone, Debug, PartialEq, Eq)]
pub enum Located<S = String> {
    /// The target names this worktree path.
    Path(S),
    /// Nothing matched, and `go --create` asks for a new worktree.
    Create,
    /// Nothing matched.
    Missing,
}

impl View for Located<String> {
    type V = Located<Seq<char>>;

    open spec fn view(&self) -> Located<Seq<char>> {
        match self {
            Located::Path(p) => Located::Path(p@),
            Located::Create => Located::Create,
            Located::Missing => Located::Missing,
        }
    }
}

/// The lookup order of `gat go` and `gat path`: a navigation shortcut first,
/// then a worktree by exact branch, basename or path, then (with `create`) a
/// new worktree; otherwise the target is not found.
pub open spec fn locate_spec(
    target: Seq<char>,
    worktrees: Seq<WorktreeView>,
    default_branch: Seq<char>,
    current_root: Seq<char>,
    create: bool,
) -> Located<Seq<char>> {
    match shortcut_path_spec(target, worktrees, default_branch, current_root) {
        Some(p) => Located::Path(p),
        None => match find_worktree_index(worktrees, target) {
            Some(i) => Located::Path(worktrees[i].path),
            None => if create { Located::Create } else { Located::Missing },
        },
    }
}

/// Locates the target of `gat go` (`create` from `--create`) or `gat path`
/// (`create` false).
pub fn locate_target(repo: &Repo, worktrees: &[Worktree], target: &str, default_branch: &str, create: bool) -> (r: Located)
    ensures
        r@ == locate_spec(target@, worktrees_view(worktrees@), default_branch@, repo.current_root@, create),
{
    proof {
        assert(worktrees_view(worktrees@) =~= worktrees@.map_values(|w: Worktree| w@));
    }
    match resolve_shortcut_path(repo, worktrees, target, default_branch) {
        Some(p) => Located::Path(p),
        None => match find_worktree(worktrees, target) {
            Some(wt) => Located::Path(wt.path.clone()),
            None => if create { Located::Create } else { Located::Missing },
        },
    }
}

/// Resolves navigation shortcuts such as `@` and `^`.
pub fn resolve_shortcut_path(repo: &Repo, worktrees: &[Worktree], target: &str, default_branch: &str) -> (r: Option<String>)
    ensures
        opt_view(r) == shortcut_path_spec(target@, worktrees_view(worktrees@), default_branch@, repo.current_root@),
{
    proof {
        assert(worktrees_view(worktrees@) =~= worktrees@.map_values(|w: Worktree| w@));
    }
    if str_eq(target, "^") {
        match find_worktree(worktrees, default_branch) {
            Some(wt) => Some(wt.path.clone()),
            None => None,
        }
    } else if str_eq(target, "@") {
        Some(repo.current_root.clone())
    } else {
        None
    }
}

// ---------------------------------------------------------------------------
// Removing a worktree
// ---------------------------------------------------------------------------

/// The safety checks before removing a worktree: never the primary one; a
/// locked or dirty one only with `force`; deleting its branch only when it
/// has one, it is not the default branch, and it is merged (or the delete
/// is forced). `merged` says whether the branch is merged into the default
/// branch.
pub open spec fn remove_check_spec(
    wt: WorktreeView,
    force: bool,
    delete_branch: bool,
    force_delete_branch: bool,
    dirty: bool,
    default_branch: Seq<char>,
    merged: bool,
) -> core::result::Result<(), ErrorView> {
    if wt.is_primary {
        Err(GatError::Unsafe("cannot remove the primary worktree"@))
    } else if wt.locked is Some && !force {
        Err(GatError::Unsafe("worktree "@ + wt.path + " is locked; pass --force to ask Git to remove it"@))
    } else if dirty && !force {
        Err(GatError::Unsafe("worktree "@ + wt.path + " has uncommitted changes; pass --force to remove it"@))
    } else if delete_branch {
        match wt.branch {
            None => Err(GatError::Unsafe("cannot delete branch for detached worktree"@)),
            Some(b) => if b == default_branch {
                Err(GatError::Unsafe("cannot delete default branch "@ + b))
            } else if !force_delete_branch && !merged {
                Err(GatError::Unsafe("branch "@ + b + " is not merged into "@ + default_branch + "; pass --force-delete-branch"@))
            } else {
                Ok(())
            },
        }
    } else {
        Ok(())
    }
}

/// Runs the safety checks before removing a worktree.
pub fn check_remove(wt: &Worktree, args: &RemoveArgs, dirty: bool, default_branch: &str, merged: bool) -> (r: Result<()>)
    ensures
        match r {
            Ok(()) => remove_check_spec(wt@, args.force, args.delete_branch, args.force_delete_branch, dirty, default_branch@, merged) is Ok,
            Err(e) => remove_check_spec(wt@, args.force, args.delete_branch, args.force_delete_branch, dirty, default_branch@, merged) == Err::<(), ErrorView>(e@),
        },
{
    if wt.is_primary {
        return Err(GatError::Unsafe("cannot remove the primary worktree".to_string()));
    }
    if wt.locked.is_some() && !args.force {
        return Err(GatError::Unsafe(message3("worktree ", wt.path.as_str(), " is locked; pass --force to ask Git to remove it")));
    }
    if dirty && !args.force {
        return Err(GatError::Unsafe(message3("worktree ", wt.path.as_str(), " has uncommitted changes; pass --force to remove it")));
    }
    if args.delete_branch {
        match &wt.branch {
            None => {
                return Err(GatError::Unsafe("cannot delete branch for detached worktree".to_string()));
            },
            Some(b) => {
                if str_eq(b.as_str(), default_branch) {
                    let mut m = "cannot delete default branch ".to_string();
                    push_str(&mut m, b.as_str());
                    return Err(GatError::Unsafe(m));
                }
                if !args.force_delete_branch && !merged {
                    let mut m = message3("branch ", b.as_str(), " is not merged into ");
                    push_str(&mut m, default_branch);
                    push_str(&mut m, "; pass --force-delete-branch");
                    return Err(GatError::Unsafe(m));
                }
            },
        }
    }
    Ok(())
}

/// `a`, then `b`, then `c`.
pub fn message3(a: &str, b: &str, c: &str) -> (r: String)
    ensures
        r@ == a@ + b@ + c@,
{
    let mut m = String::new();
    push_str(&mut m, a);
    push_str(&mut m, b);
    push_str(&mut m, c);
    m
}

/// A worktree's branch, or `<detached>`.
pub open spec fn branch_label(wt: WorktreeView) -> Seq<char> {
    match wt.branch {
        Some(b) => b,
        None => "<detached>"@,
    }
}

/// Remove/delete output for each format.
pub open spec fn remove_result_text(action: Seq<char>, wt: WorktreeView, format: OutputFormat) -> Seq<char> {
    match format {
        OutputFormat::Json => "{\"status\":\"ok\",\"action\":\""@ + json_escaped(action) + "\",\"branch\":"@
            + option_json_spec(wt.branch) + ",\"path\":\""@ + json_escaped(wt.path) + "\"}\n"@,
        _ => action + " worktree "@ + branch_label(wt) + " @ "@ + wt.path + "\n"@,
    }
}

/// Formats remove/delete output.
pub fn format_remove_result(action: &str, wt: &Worktree, format: OutputFormat) -> (r: Result<String>)
    ensures
        r matches Ok(t) && t@ == remove_result_text(action@, wt@, format),
{
    let mut out = String::new();
    match format {
        OutputFormat::Json => {
            push_str(&mut out, "{\"status\":\"ok\",\"action\":\"");
            assert(out@ =~= "{\"status\":\"ok\",\"action\":\""@);
            push_json(&mut out, action);
            push_str(&mut out, "\",\"branch\":");
            push_str(&mut out, option_json(opt_string_ref(&wt.branch)).as_str());
            push_str(&mut out, ",\"path\":\"");
            push_json(&mut out, wt.path.as_str());
            push_str(&mut out, "\"}\n");
        },
        _ => {
            push_str(&mut out, action);
            assert(out@ =~= action@);
            push_str(&mut out, " worktree ");
            match &wt.branch {
                Some(b) => push_str(&mut out, b.as_str()),
                None => push_str(&mut out, "<detached>"),
            }
            push_str(&mut out, " @ ");
            push_str(&mut out, wt.path.as_str());
            push_str(&mut out, "\n");
        },
    }
    Ok(out)
}

// ---------------------------------------------------------------------------
// Merging a ticket branch
// ---------------------------------------------------------------------------

/// The safety checks before merging: the worktree has a branch other than
/// `into`, is not the primary worktree and is clean; the primary worktree,
/// where the merge runs, is clean and has `into` checked out. Yields the
/// branch to merge.
pub open spec fn merge_check_spec(
    wt: WorktreeView,
    into: Seq<char>,
    dirty: bool,
    primary_root: Seq<char>,
    primary_dirty: bool,
    primary_branch: Option<Seq<char>>,
) -> core::result::Result<Seq<char>, ErrorView> {
    match wt.branch {
        None => Err(GatError::Unsafe("cannot merge a detached worktree"@)),
        Some(branch) => if branch == into {
            Err(GatError::Unsafe("cannot merge "@ + branch + " into itself"@))
        } else if wt.is_primary {
            Err(GatError::Unsafe("refusing to merge the primary worktree"@))
        } else if dirty {
            Err(GatError::Unsafe("worktree "@ + wt.path + " has uncommitted changes; commit or stash before merging"@))
        } else if primary_dirty {
            Err(GatError::Unsafe("primary worktree "@ + primary_root + " is dirty; merge needs a clean base checkout"@))
        } else if primary_branch != Some(into) {
            Err(GatError::Unsafe("primary worktree is on "@ + match primary_branch {
                Some(b) => b,
                None => "a detached HEAD"@,
            } + ", not "@ + into + "; check out "@ + into + " there first"@))
        } else {
            Ok(branch)
        },
    }
}

/// Whether the merge is refused before any Git query: a detached worktree,
/// a branch equal to `into`, or the primary worktree.
pub open spec fn merge_refused_early_spec(wt: WorktreeView, into: Seq<char>) -> bool {
    wt.branch is None || wt.branch == Some(into) || wt.is_primary
}

/// Whether the merge checks refuse before the worktree's state is needed, so
/// the caller can skip the Git queries for it.
pub fn merge_refused_early(wt: &Worktree, into: &str) -> (r: bool)
    ensures
        r == merge_refused_early_spec(wt@, into@),
{
    match &wt.branch {
        None => true,
        Some(b) => str_eq(b.as_str(), into) || wt.is_primary,
    }
}

/// The merge checks run in order, so once one refuses the facts after it do
/// not change the answer: refused early, nothing else matters; a dirty
/// worktree makes the primary worktree's state irrelevant; a dirty primary
/// worktree makes its branch irrelevant.
pub proof fn lemma_merge_check_order(
    wt: WorktreeView,
    into: Seq<char>,
    primary_root: Seq<char>,
    dirty: bool,
    dirty2: bool,
    primary_dirty: bool,
    primary_dirty2: bool,
    primary_branch: Option<Seq<char>>,
    primary_branch2: Option<Seq<char>>,
)
    ensures
        merge_refused_early_spec(wt, into) ==> merge_check_spec(wt, into, dirty, primary_root, primary_dirty, primary_branch)
            == merge_check_spec(wt, into, dirty2, primary_root, primary_dirty2, primary_branch2),
        merge_refused_early_spec(wt, into) ==> merge_check_spec(wt, into, dirty, primary_root, primary_dirty, primary_branch) is Err,
        dirty ==> merge_check_spec(wt, into, dirty, primary_root, primary_dirty, primary_branch)
            == merge_check_spec(wt, into, dirty, primary_root, primary_dirty2, primary_branch2),
        primary_dirty ==> merge_check_spec(wt, into, dirty, primary_root, primary_dirty, primary_branch)
            == merge_check_spec(wt, into, dirty, primary_root, primary_dirty, primary_branch2),
{
}

/// Runs the safety checks before merging and yields the branch to merge.
pub fn check_merge(
    wt: &Worktree,
    into: &str,
    dirty: bool,
    primary_root: &str,
    primary_dirty: bool,
    primary_branch: Option<&str>,
) -> (r: Result<String>)
    ensures
        result_view(r) == merge_check_spec(wt@, into@, dirty, primary_root@, primary_dirty, opt_str_view(primary_branch)),
{
    let branch = match &wt.branch {
        None => {
            return Err(GatError::Unsafe("cannot merge a detached worktree".to_string()));
        },
        Some(b) => b.clone(),
    };
    if str_eq(branch.as_str(), into) {
        return Err(GatError::Unsafe(message3("cannot merge ", branch.as_str(), " into itself")));
    }
    if wt.is_primary {
        return Err(GatError::Unsafe("refusing to merge the primary worktree".to_string()));
    }
    if dirty {
        return Err(GatError::Unsafe(message3("worktree ", wt.path.as_str(), " has uncommitted changes; commit or stash before merging")));
    }
    if primary_dirty {
        return Err(GatError::Unsafe(message3("primary worktree ", primary_root, " is dirty; merge needs a clean base checkout")));
    }
    let on_into = match primary_branch {
        Some(b) => str_eq(b, into),
        None => false,
    };
    if !on_into {
        let on = match primary_branch {
            Some(b) => b,
            None => "a detached HEAD",
        };
        let mut m = message3("primary worktree is on ", on, ", not ");
        push_str(&mut m, into);
        push_str(&mut m, "; check out ");
        push_str(&mut m, into);
        push_str(&mut m, " there first");
        return Err(GatError::Unsafe(m));
    }
    Ok(branch)
}

/// The cleanup a merge performs afterwards: `--cleanup` expands to removing
/// the worktree, deleting the branch and killing the session.
pub fn merge_cleanup(args: &MergeArgs) -> (r: (bool, bool, bool))
    ensures
        r == (args.remove || args.cleanup, args.delete_branch || args.cleanup, args.kill_session || args.cleanup),
{
    (args.remove || args.cleanup, args.delete_branch || args.cleanup, args.kill_session || args.cleanup)
}

/// One step of a confirmed merge, in the order they run.
#[derive(Clone, Copy, Debug, PartialEq, Eq, Structural)]
pub enum MergeStep {
    /// Merge the branch in the primary worktree (aborted on conflict).
    Merge,
    /// Kill the ticket's tmux session.
    KillSession,
    /// Remove the merged worktree.
    RemoveWorktree,
    /// Delete the merged branch (only together with the worktree).
    DeleteBranch,
}

/// The steps of a confirmed merge: the merge itself unless the branch is
/// already merged, then the cleanup asked for (`remove`, `delete_branch`,
/// `kill_session`); the branch is only deleted along with its worktree.
pub open spec fn merge_steps_spec(already_merged: bool, remove: bool, delete_branch: bool, kill_session: bool) -> Seq<MergeStep> {
    (if already_merged { Seq::<MergeStep>::empty() } else { seq![MergeStep::Merge] })
        + (if kill_session { seq![MergeStep::KillSession] } else { Seq::<MergeStep>::empty() })
        + (if remove { seq![MergeStep::RemoveWorktree] } else { Seq::<MergeStep>::empty() })
        + (if remove && delete_branch { seq![MergeStep::DeleteBranch] } else { Seq::<MergeStep>::empty() })
}

/// Plans the steps of a confirmed merge. Run in order and stopped at the
/// first failure, they never clean up before the merge succeeded, and an
/// already merged branch skips the merge but is still cleaned up.
pub fn merge_steps(already_merged: bool, remove: bool, delete_branch: bool, kill_session: bool) -> (r: Vec<MergeStep>)
    ensures
        r@ == merge_steps_spec(already_merged, remove, delete_branch, kill_session),
        r@.contains(MergeStep::Merge) <==> !already_merged,
        !already_merged ==> r@[0] == MergeStep::Merge,
        forall|i: int| 0 < i < r@.len() ==> r@[i] != MergeStep::Merge,
        r@.contains(MergeStep::KillSession) <==> kill_session,
        r@.contains(MergeStep::RemoveWorktree) <==> remove,
        r@.contains(MergeStep::DeleteBranch) <==> (remove && delete_branch),
{
    let mut steps: Vec<MergeStep> = Vec::new();
    if !already_merged {
        steps.push(MergeStep::Merge);
    }
    if kill_session {
        steps.push(MergeStep::KillSession);
    }
    if remove {
        steps.push(MergeStep::RemoveWorktree);
        if delete_branch {
            steps.push(MergeStep::DeleteBranch);
        }
    }
    let ghost spec = merge_steps_spec(already_merged, remove, delete_branch, kill_session);
    assert(steps@ =~= spec);
    let ghost a = if already_merged { Seq::<MergeStep>::empty() } else { seq![MergeStep::Merge] };
    let ghost k = if kill_session { seq![MergeStep::KillSession] } else { Seq::<MergeStep>::empty() };
    let ghost m = if remove { seq![MergeStep::RemoveWorktree] } else { Seq::<MergeStep>::empty() };
    let ghost d = if remove && delete_branch { seq![MergeStep::DeleteBranch] } else { Seq::<MergeStep>::empty() };
    assert(spec =~= a + k + m + d);
    assert(!already_merged ==> spec[0] == MergeStep::Merge);
    if !already_merged {
        assert(spec.contains(MergeStep::Merge));
    }
    if kill_session {
        assert(spec[a.len() as int] == MergeStep::KillSession);
    }
    if remove {
        assert(spec[(a.len() + k.len()) as int] == MergeStep::RemoveWorktree);
    }
    if remove && delete_branch {
        assert(spec[(a.len() + k.len() + m.len()) as int] == MergeStep::DeleteBranch);
    }
    steps
}

/// The confirmation question before a merge.
pub open spec fn merge_prompt_text(branch: Seq<char>, into: Seq<char>, remove: bool) -> Seq<char> {
    "Merge "@ + branch + " into "@ + into + (if remove { " and clean up"@ } else { ""@ }) + "?"@
}

/// The confirmation question before a merge.
pub fn merge_prompt(branch: &str, into: &str, remove: bool) -> (r: String)
    ensures
        r@ == merge_prompt_text(branch@, into@, remove),
{
    let mut m = message3("Merge ", branch, " into ");
    push_str(&mut m, into);
    push_str(&mut m, if remove { " and clean up" } else { "" });
    push_str(&mut m, "?");
    m
}

/// The error reported when a merge failed and was aborted.
pub open spec fn merge_conflict_spec(branch: Seq<char>, failure: ErrorView) -> ErrorView {
    GatError::Git {
        command: "git merge "@ + branch,
        message: error_message(failure) + "\nmerge aborted; resolve conflicts manually"@,
    }
}

/// The error reported when a merge failed and was aborted.
pub fn merge_conflict_error(branch: &str, failure: &GatError) -> (e: GatError)
    ensures
        e@ == merge_conflict_spec(branch@, failure@),
{
    let mut command = "git merge ".to_string();
    push_str(&mut command, branch);
    let mut message = failure.message();
    push_str(&mut message, "\nmerge aborted; resolve conflicts manually");
    GatError::Git { command, message }
}

/// The `gat merge` dry-run plan for each format.
pub open spec fn merge_plan_text(
    branch: Seq<char>,
    into: Seq<char>,
    path: Seq<char>,
    already_merged: bool,
    remove: bool,
    delete_branch: bool,
    kill_session: bool,
    format: OutputFormat,
) -> Seq<char> {
    match format {
        OutputFormat::Text => "merge plan\nbranch: "@ + branch + "\ninto: "@ + into + "\nworktree: "@ + path
            + "\nalready merged: "@ + yes_no_spec(already_merged) + "\n"@ + "remove worktree: "@ + yes_no_spec(remove)
            + "\n"@ + "delete branch: "@ + yes_no_spec(delete_branch) + "\n"@ + "kill session: "@
            + yes_no_spec(kill_session) + "\n"@,
        OutputFormat::Json => "{\"status\":\"ok\",\"action\":\"merge_plan\",\"branch\":\""@ + json_escaped(branch)
            + "\",\"into\":\""@ + json_escaped(into) + "\",\"path\":\""@ + json_escaped(path)
            + "\",\"already_merged\":"@ + bool_text(already_merged) + ",\"remove\":"@ + bool_text(remove)
            + ",\"delete_branch\":"@ + bool_text(delete_branch) + ",\"kill_session\":"@ + bool_text(kill_session)
            + "}\n"@,
        OutputFormat::Shell => "GAT_ACTION="@ + shell_escaped("merge_plan"@) + "\nGAT_BRANCH="@ + shell_escaped(branch)
            + "\nGAT_INTO="@ + shell_escaped(into) + "\nGAT_PATH="@ + shell_escaped(path) + "\n"@,
    }
}

/// Formats the `gat merge` dry-run plan.
pub fn format_merge_plan(
    branch: &str,
    into: &str,
    path: &str,
    already_merged: bool,
    remove: bool,
    delete_branch: bool,
    kill_session: bool,
    format: OutputFormat,
) -> (r: String)
    ensures
        r@ == merge_plan_text(branch@, into@, path@, already_merged, remove, delete_branch, kill_session, format),
{
    let mut out = String::new();
    match format {
        OutputFormat::Text => {
            push_str(&mut out, "merge plan\nbranch: ");
            assert(out@ =~= "merge plan\nbranch: "@);
            push_str(&mut out, branch);
            push_str(&mut out, "\ninto: ");
            push_str(&mut out, into);
            push_str(&mut out, "\nworktree: ");
            push_str(&mut out, path);
            push_str(&mut out, "\nalready merged: ");
            push_str(&mut out, yes_no(already_merged));
            push_str(&mut out, "\n");
            push_str(&mut out, "remove worktree: ");
            push_str(&mut out, yes_no(remove));
            push_str(&mut out, "\n");
            push_str(&mut out, "delete branch: ");
            push_str(&mut out, yes_no(delete_branch));
            push_str(&mut out, "\n");
            push_str(&mut out, "kill session: ");
            push_str(&mut out, yes_no(kill_session));
            push_str(&mut out, "\n");
        },
        OutputFormat::Json => {
            push_str(&mut out, "{\"status\":\"ok\",\"action\":\"merge_plan\",\"branch\":\"");
            assert(out@ =~= "{\"status\":\"ok\",\"action\":\"merge_plan\",\"branch\":\""@);
            push_json(&mut out, branch);
            push_str(&mut out, "\",\"into\":\"");
            push_json(&mut out, into);
            push_str(&mut out, "\",\"path\":\"");
            push_json(&mut out, path);
            push_str(&mut out, "\",\"already_merged\":");
            push_str(&mut out, bool_string(already_merged).as_str());
            push_str(&mut out, ",\"remove\":");
            push_str(&mut out, bool_string(remove).as_str());
            push_str(&mut out, ",\"delete_branch\":");
            push_str(&mut out, bool_string(delete_branch).as_str());
            push_str(&mut out, ",\"kill_session\":");
            push_str(&mut out, bool_string(kill_session).as_str());
            push_str(&mut out, "}\n");
        },
        OutputFormat::Shell => {
            push_str(&mut out, "GAT_ACTION=");
            assert(out@ =~= "GAT_ACTION="@);
            push_shell(&mut out, "merge_plan");
            push_str(&mut out, "\nGAT_BRANCH=");
            push_shell(&mut out, branch);
            push_str(&mut out, "\nGAT_INTO=");
            push_shell(&mut out, into);
            push_str(&mut out, "\nGAT_PATH=");
            push_shell(&mut out, path);
            push_str(&mut out, "\n");
        },
    }
    out
}

/// Texts joined by `sep`.
pub open spec fn joined(items: Seq<Seq<char>>, sep: Seq<char>) -> Seq<char>
    decreases items.len(),
{
    if items.len() == 0 {
        Seq::<char>::empty()
    } else if items.len() == 1 {
        items[0]
    } else {
        joined(items.drop_last(), sep) + sep + items.last()
    }
}

/// Texts joined by `sep` (`[String]::join`).
pub fn join_texts(items: &[String], sep: &str) -> (r: String)
    ensures
        r@ == joined(items@.map_values(|w: String| w@), sep@),
{
    let ghost v = items@.map_values(|w: String| w@);
    let mut out = String::new();
    let mut i: usize = 0;
    while i < items.len()
        invariant
            i <= items.len(),
            v == items@.map_values(|w: String| w@),
            out@ == joined(v.take(i as int), sep@),
        decreases items.len() - i,
    {
        assert(v.take(i + 1).drop_last() =~= v.take(i as int));
        assert(v[i as int] == items@[i as int]@);
        if i > 0 {
            push_str(&mut out, sep);
        } else {
            assert(out@ =~= Seq::<char>::empty());
        }
        push_str(&mut out, items[i].as_str());
        proof {
            if i == 0 {
                assert(out@ =~= v.take(1)[0]);
            }
        }
        i += 1;
    }
    assert(v.take(items.len() as int) =~= v);
    out
}

/// JSON string literals of the items, comma-separated.
pub open spec fn json_strings(items: Seq<Seq<char>>) -> Seq<char>
    decreases items.len(),
{
    if items.len() == 0 {
        Seq::<char>::empty()
    } else if items.len() == 1 {
        "\""@ + json_escaped(items[0]) + "\""@
    } else {
        json_strings(items.drop_last()) + ","@ + "\""@ + json_escaped(items.last()) + "\""@
    }
}

/// The `gat merge` success result for each format.
pub open spec fn merge_result_text(branch: Seq<char>, into: Seq<char>, cleaned: Seq<Seq<char>>, format: OutputFormat) -> Seq<char> {
    match format {
        OutputFormat::Json => "{\"status\":\"ok\",\"action\":\"merged\",\"branch\":\""@ + json_escaped(branch)
            + "\",\"into\":\""@ + json_escaped(into) + "\",\"cleaned\":["@ + json_strings(cleaned) + "]}\n"@,
        _ => "merged "@ + branch + " into "@ + into + "\n"@ + (if cleaned.len() > 0 {
            "cleaned up: "@ + joined(cleaned, ", "@) + "\n"@
        } else {
            ""@
        }),
    }
}

/// Formats the `gat merge` success result.
pub fn format_merge_result(branch: &str, into: &str, cleaned: &[String], format: OutputFormat) -> (r: String)
    ensures
        r@ == merge_result_text(branch@, into@, cleaned@.map_values(|w: String| w@), format),
{
    let ghost cv = cleaned@.map_values(|w: String| w@);
    let mut out = String::new();
    match format {
        OutputFormat::Json => {
            push_str(&mut out, "{\"status\":\"ok\",\"action\":\"merged\",\"branch\":\"");
            assert(out@ =~= "{\"status\":\"ok\",\"action\":\"merged\",\"branch\":\""@);
            push_json(&mut out, branch);
            push_str(&mut out, "\",\"into\":\"");
            push_json(&mut out, into);
            push_str(&mut out, "\",\"cleaned\":[");
            let ghost before = out@;
            let mut i: usize = 0;
            while i < cleaned.len()
                invariant
                    i <= cleaned.len(),
                    cv == cleaned@.map_values(|w: String| w@),
                    out@ == before + json_strings(cv.take(i as int)),
                decreases cleaned.len() - i,
            {
                assert(cv.take(i + 1).drop_last() =~= cv.take(i as int));
                assert(cv[i as int] == cleaned@[i as int]@);
                if i > 0 {
                    push_str(&mut out, ",");
                } else {
                    assert(json_strings(cv.take(0)) =~= Seq::<char>::empty());
                    assert(out@ =~= before);
                }
                push_str(&mut out, "\"");
                push_json(&mut out, cleaned[i].as_str());
                push_str(&mut out, "\"");
                i += 1;
            }
            assert(cv.take(cleaned.len() as int) =~= cv);
            push_str(&mut out, "]}\n");
        },
        _ => {
            push_str(&mut out, "merged ");
            assert(out@ =~= "merged "@);
            push_str(&mut out, branch);
            push_str(&mut out, " into ");
            push_str(&mut out, into);
            push_str(&mut out, "\n");
            if cleaned.len() > 0 {
                push_str(&mut out, "cleaned up: ");
                push_str(&mut out, join_texts(cleaned, ", ").as_str());
                push_str(&mut out, "\n");
            } else {
                push_str(&mut out, "");
            }
        },
    }
    out
}

// ---------------------------------------------------------------------------
// tmux sessions
// ---------------------------------------------------------------------------

/// The session to use: an explicit name wins, then a live session for the
/// ticket, then a fresh descriptive name.
pub open spec fn chosen_session(explicit: Option<Seq<char>>, existing: Option<Seq<char>>, ticket: Seq<char>, description: Option<Seq<char>>) -> Seq<char> {
    match explicit {
        Some(n) => n,
        None => match existing {
            Some(n) => n,
            None => session_name_spec(ticket, description),
        },
    }
}

/// Chooses the tmux session name.
pub fn choose_session_name(explicit: Option<&str>, existing: Option<&str>, ticket: &str, description: Option<&str>) -> (r: String)
    ensures
        r@ == chosen_session(opt_str_view(explicit), opt_str_view(existing), ticket@, opt_str_view(description)),
{
    match explicit {
        Some(n) => n.to_string(),
        None => match existing {
            Some(n) => n.to_string(),
            None => {
                let d = match description {
                    Some(x) => Some(x),
                    None => None,
                };
                let r = session_name(ticket, d);
                assert(match d { Some(x) => Some(x@), None => None::<Seq<char>> } == opt_str_view(description));
                r
            },
        },
    }
}

/// A command option that keeps its built-in default defers to the
/// configured value; anything else given on the command line wins.
pub open spec fn picked_command(given: Seq<char>, builtin: Seq<char>, configured: Seq<char>) -> Seq<char> {
    if given != builtin { given } else { configured }
}

/// Picks the pane command from the command line or the configuration.
pub fn pick_command(given: &str, builtin: &str, configured: &str) -> (r: String)
    ensures
        r@ == picked_command(given@, builtin@, configured@),
{
    if !str_eq(given, builtin) { given.to_string() } else { configured.to_string() }
}

/// The attach/switch command tmux mode would run: none when not attaching,
/// `switch-client` inside tmux, else `attach-session`.
pub open spec fn attach_command_text(session: Seq<char>, attach: bool, in_tmux: bool) -> Seq<char> {
    if !attach {
        "no attach"@
    } else if in_tmux {
        "tmux switch-client -t "@ + shell_escaped(session)
    } else {
        "tmux attach-session -t "@ + shell_escaped(session)
    }
}

/// Builds the attach/switch command that tmux mode would run.
pub fn tmux_attach_command(session: &str, attach: bool, in_tmux: bool) -> (r: String)
    ensures
        r@ == attach_command_text(session@, attach, in_tmux),
{
    if !attach {
        return "no attach".to_string();
    }
    let mut out = if in_tmux { "tmux switch-client -t ".to_string() } else { "tmux attach-session -t ".to_string() };
    push_shell(&mut out, session);
    out
}

/// The arguments that attach to or switch to a session.
pub open spec fn attach_args_spec(session: Seq<char>, in_tmux: bool) -> Seq<Seq<char>> {
    if in_tmux {
        seq!["switch-client"@, "-t"@, session]
    } else {
        seq!["attach-session"@, "-t"@, session]
    }
}

/// The tmux arguments that attach to (outside tmux) or switch to (inside
/// tmux) a session.
pub fn attach_args(session: &str, in_tmux: bool) -> (r: Vec<String>)
    ensures
        r@.map_values(|w: String| w@) == attach_args_spec(session@, in_tmux),
{
    let mut v: Vec<String> = Vec::new();
    v.push(if in_tmux { "switch-client".to_string() } else { "attach-session".to_string() });
    v.push("-t".to_string());
    v.push(session.to_string());
    assert(v@.map_values(|w: String| w@) =~= attach_args_spec(session@, in_tmux));
    v
}

/// A percentage as tmux takes it: `<n>%`.
pub open spec fn percent_text(n: u8) -> Seq<char> {
    decimal(n as nat) + "%"@
}

fn percent(n: u8) -> (r: String)
    ensures
        r@ == percent_text(n),
{
    let mut out = decimal_string(n as u64);
    push_str(&mut out, "%");
    out
}
/// The arguments creating the detached session with its first (AI) pane.
pub fn new_session_args(session: &str, worktree_path: &str, shell: &str) -> (r: Vec<String>)
    ensures
        r@.map_values(|w: String| w@) == seq!["new-session"@, "-d"@, "-P"@, "-F"@, "#{pane_id}"@, "-s"@, session@, "-n"@, "gat"@, "-c"@, worktree_path@, shell@],
{
    let mut v: Vec<String> = Vec::new();
    v.push("new-session".to_string());
    v.push("-d".to_string());
    v.push("-P".to_string());
    v.push("-F".to_string());
    v.push("#{pane_id}".to_string());
    v.push("-s".to_string());
    v.push(session.to_string());
    v.push("-n".to_string());
    v.push("gat".to_string());
    v.push("-c".to_string());
    v.push(worktree_path.to_string());
    v.push(shell.to_string());
    assert(v@.map_values(|w: String| w@) =~= seq!["new-session"@, "-d"@, "-P"@, "-F"@, "#{pane_id}"@, "-s"@, session@, "-n"@, "gat"@, "-c"@, worktree_path@, shell@]);
    v
}
/// The arguments splitting the AI pane to the right; the new pane takes
/// what the AI pane leaves of the width.
pub fn split_right_args(left_width: u8, left_pane: &str, worktree_path: &str, shell: &str) -> (r: Vec<String>)
    requires
        left_width <= 100,
    ensures
        r@.map_values(|w: String| w@) == seq!["split-window"@, "-h"@, "-l"@, percent_text((100 - left_width) as u8), "-P"@, "-F"@, "#{pane_id}"@, "-t"@, left_pane@, "-c"@, worktree_path@, shell@],
{
    let mut v: Vec<String> = Vec::new();
    v.push("split-window".to_string());
    v.push("-h".to_string());
    v.push("-l".to_string());
    v.push(percent(100 - left_width));
    v.push("-P".to_string());
    v.push("-F".to_string());
    v.push("#{pane_id}".to_string());
    v.push("-t".to_string());
    v.push(left_pane.to_string());
    v.push("-c".to_string());
    v.push(worktree_path.to_string());
    v.push(shell.to_string());
    assert(v@.map_values(|w: String| w@) =~= seq!["split-window"@, "-h"@, "-l"@, percent_text((100 - left_width) as u8), "-P"@, "-F"@, "#{pane_id}"@, "-t"@, left_pane@, "-c"@, worktree_path@, shell@]);
    v
}
/// The arguments splitting the right pane, the shell pane taking the
/// bottom `bottom_height` percent.
pub fn split_bottom_args(bottom_height: u8, right_pane: &str, worktree_path: &str, shell: &str) -> (r: Vec<String>)
    ensures
        r@.map_values(|w: String| w@) == seq!["split-window"@, "-v"@, "-l"@, percent_text(bottom_height), "-P"@, "-F"@, "#{pane_id}"@, "-t"@, right_pane@, "-c"@, worktree_path@, shell@],
{
    let mut v: Vec<String> = Vec::new();
    v.push("split-window".to_string());
    v.push("-v".to_string());
    v.push("-l".to_string());
    v.push(percent(bottom_height));
    v.push("-P".to_string());
    v.push("-F".to_string());
    v.push("#{pane_id}".to_string());
    v.push("-t".to_string());
    v.push(right_pane.to_string());
    v.push("-c".to_string());
    v.push(worktree_path.to_string());
    v.push(shell.to_string());
    assert(v@.map_values(|w: String| w@) =~= seq!["split-window"@, "-v"@, "-l"@, percent_text(bottom_height), "-P"@, "-F"@, "#{pane_id}"@, "-t"@, right_pane@, "-c"@, worktree_path@, shell@]);
    v
}

/// The command typed into the AI pane.
pub open spec fn ai_command_text(prompt_path: Seq<char>, codex_cmd: Seq<char>) -> Seq<char> {
    "GAT_PROMPT_FILE="@ + shell_escaped(prompt_path) + " "@ + codex_cmd
}

/// The command typed into the editor pane: the editor on the worktree.
pub open spec fn editor_command_text(prompt_path: Seq<char>, editor_cmd: Seq<char>, worktree_path: Seq<char>) -> Seq<char> {
    "GAT_PROMPT_FILE="@ + shell_escaped(prompt_path) + " "@ + editor_cmd + " "@ + shell_escaped(worktree_path)
}

/// The arguments typing the AI command into its pane.
pub fn ai_keys_args(left_pane: &str, prompt_path: &str, codex_cmd: &str) -> (r: Vec<String>)
    ensures
        r@.map_values(|w: String| w@) == seq!["send-keys"@, "-t"@, left_pane@, ai_command_text(prompt_path@, codex_cmd@), "C-m"@],
{
    let mut keys = "GAT_PROMPT_FILE=".to_string();
    push_shell(&mut keys, prompt_path);
    push_str(&mut keys, " ");
    push_str(&mut keys, codex_cmd);
    let mut v: Vec<String> = Vec::new();
    v.push("send-keys".to_string());
    v.push("-t".to_string());
    v.push(left_pane.to_string());
    v.push(keys);
    v.push("C-m".to_string());
    assert(v@.map_values(|w: String| w@) =~= seq!["send-keys"@, "-t"@, left_pane@, ai_command_text(prompt_path@, codex_cmd@), "C-m"@]);
    v
}

/// The arguments typing the editor command into its pane.
pub fn editor_keys_args(right_pane: &str, prompt_path: &str, editor_cmd: &str, worktree_path: &str) -> (r: Vec<String>)
    ensures
        r@.map_values(|w: String| w@) == seq!["send-keys"@, "-t"@, right_pane@, editor_command_text(prompt_path@, editor_cmd@, worktree_path@), "C-m"@],
{
    let mut keys = "GAT_PROMPT_FILE=".to_string();
    push_shell(&mut keys, prompt_path);
    push_str(&mut keys, " ");
    push_str(&mut keys, editor_cmd);
    push_str(&mut keys, " ");
    push_shell(&mut keys, worktree_path);
    let mut v: Vec<String> = Vec::new();
    v.push("send-keys".to_string());
    v.push("-t".to_string());
    v.push(right_pane.to_string());
    v.push(keys);
    v.push("C-m".to_string());
    assert(v@.map_values(|w: String| w@) =~= seq!["send-keys"@, "-t"@, right_pane@, editor_command_text(prompt_path@, editor_cmd@, worktree_path@), "C-m"@]);
    v
}

/// The arguments focusing the AI pane or the editor pane.
pub fn focus_args(focus_left: bool, left_pane: &str, right_pane: &str) -> (r: Vec<String>)
    ensures
        r@.map_values(|w: String| w@) == seq!["select-pane"@, "-t"@, if focus_left { left_pane@ } else { right_pane@ }],
{
    let mut v: Vec<String> = Vec::new();
    v.push("select-pane".to_string());
    v.push("-t".to_string());
    v.push(if focus_left { left_pane.to_string() } else { right_pane.to_string() });
    assert(v@.map_values(|w: String| w@) =~= seq!["select-pane"@, "-t"@, if focus_left { left_pane@ } else { right_pane@ }]);
    v
}

/// The arguments setting a session option.
pub fn set_option_args(session: &str, key: &str, value: &str) -> (r: Vec<String>)
    ensures
        r@.map_values(|w: String| w@) == seq!["set-option"@, "-t"@, session@, key@, value@],
{
    let mut v: Vec<String> = Vec::new();
    v.push("set-option".to_string());
    v.push("-t".to_string());
    v.push(session.to_string());
    v.push(key.to_string());
    v.push(value.to_string());
    assert(v@.map_values(|w: String| w@) =~= seq!["set-option"@, "-t"@, session@, key@, value@]);
    v
}

/// Whether a description is recorded on the session: only a non-blank one.
pub open spec fn records_description(description: Option<Seq<char>>) -> bool {
    description matches Some(d) && trim(d).len() > 0
}

/// The `set-option` argument lists recording a session's worktree path,
/// branch, and (when not blank) description.
pub fn session_metadata_args(session: &str, path: &str, branch: &str, description: Option<&str>) -> (r: Vec<Vec<String>>)
    ensures
        r@.len() == (if records_description(opt_str_view(description)) { 3int } else { 2int }),
        r@[0]@.map_values(|w: String| w@) == seq!["set-option"@, "-t"@, session@, "@gat_path"@, path@],
        r@[1]@.map_values(|w: String| w@) == seq!["set-option"@, "-t"@, session@, "@gat_branch"@, branch@],
        records_description(opt_str_view(description)) ==>
            r@[2]@.map_values(|w: String| w@) == seq!["set-option"@, "-t"@, session@, "@gat_description"@, opt_str_view(description)->0],
{
    let mut v: Vec<Vec<String>> = Vec::new();
    v.push(set_option_args(session, "@gat_path", path));
    v.push(set_option_args(session, "@gat_branch", branch));
    match description {
        Some(d) => {
            if trim_chars(&chars_of(d)).len() > 0 {
                v.push(set_option_args(session, "@gat_description", d));
            }
        },
        None => {},
    }
    v
}

/// The pane id a `tmux ... -P -F '#{pane_id}'` command printed.
pub open spec fn pane_id_spec(output: Seq<char>, command: Seq<char>) -> core::result::Result<Seq<char>, ErrorView> {
    if trim(output).len() == 0 {
        Err(GatError::Io("tmux "@ + command + " did not return a pane id"@))
    } else {
        Ok(trim(output))
    }
}

/// Extracts the pane id printed by `tmux -P -F '#{pane_id}'` commands.
pub fn tmux_pane_id(output: &str, command: &str) -> (r: Result<String>)
    ensures
        result_view(r) == pane_id_spec(output@, command@),
{
    let pane = trim_chars(&chars_of(output));
    if pane.len() == 0 {
        return Err(GatError::Io(message3("tmux ", command, " did not return a pane id")));
    }
    Ok(string_of(&pane))
}

/// The text a fresh prompt draft starts with.
pub open spec fn prompt_template_text(ticket: Seq<char>, worktree_path: Seq<char>) -> Seq<char> {
    "# Pre-prompt for "@ + ticket + "\n\nWorktree: "@ + worktree_path + "\n\nGoal:\n\nContext:\n\nCommands:\n\n"@
}

/// The text a fresh prompt draft starts with.
pub fn prompt_template(ticket: &str, worktree_path: &str) -> (r: String)
    ensures
        r@ == prompt_template_text(ticket@, worktree_path@),
{
    let mut out = message3("# Pre-prompt for ", ticket, "\n\nWorktree: ");
    push_str(&mut out, worktree_path);
    push_str(&mut out, "\n\nGoal:\n\nContext:\n\nCommands:\n\n");
    out
}

/// The default prompt draft path, under the configuration root and outside
/// the worktree: `<root>/worktrees/<repo>-<hash>/<ticket>/pre-prompt.md`.
pub open spec fn default_prompt_path(config_root: Seq<char>, repo_name: Seq<char>, primary_hash: Seq<char>, ticket: Seq<char>) -> Seq<char> {
    join_path(join_path(join_path(join_path(config_root, "worktrees"@), sanitized(repo_name) + "-"@ + primary_hash), sanitized(ticket)), "pre-prompt.md"@)
}

/// Computes the default prompt draft path without writing inside the
/// worktree; `config_root` is gat's configuration directory.
pub fn default_prompt_file(config_root: &str, repo: &Repo, ticket: &str) -> (r: String)
    ensures
        exists|h: Seq<char>| r@ == default_prompt_path(config_root@, repo.repo_name@, h, ticket@)
            && h == hex_fixed(fnv1a(vstd::utf8::encode_utf8(repo.primary_root@)) as nat, 16),
{
    let hash = stable_hex_hash(repo.primary_root.as_str());
    let mut key = sanitize_path_component(repo.repo_name.as_str());
    push_str(&mut key, "-");
    push_str(&mut key, hash.as_str());
    let a = join(config_root, "worktrees");
    let b = join(a.as_str(), key.as_str());
    let c = join(b.as_str(), sanitize_path_component(ticket).as_str());
    let r = join(c.as_str(), "pre-prompt.md");
    assert(r@ == default_prompt_path(config_root@, repo.repo_name@, hash@, ticket@));
    r
}

/// What a command that changes worktrees does once its checks pass.
#[derive(Clone, Copy, Debug, PartialEq, Eq, Structural)]
pub enum ConfirmStep {
    /// Print the plan only (`--dry-run`).
    ShowPlan,
    /// Ask the user before going on.
    Ask,
    /// Go on without asking (`--yes`).
    Proceed,
}

/// The order of `gat rm`, `gat merge` and `gat archive` after their checks:
/// a dry run only shows the plan, even with `--yes`; otherwise the user is
/// asked unless `--yes` is given.
pub open spec fn confirm_step_spec(dry_run: bool, yes: bool) -> ConfirmStep {
    if dry_run {
        ConfirmStep::ShowPlan
    } else if yes {
        ConfirmStep::Proceed
    } else {
        ConfirmStep::Ask
    }
}

/// Decides whether a changing command shows its plan, asks, or goes on.
pub fn confirm_step(dry_run: bool, yes: bool) -> (r: ConfirmStep)
    ensures
        r == confirm_step_spec(dry_run, yes),
{
    if dry_run {
        ConfirmStep::ShowPlan
    } else if yes {
        ConfirmStep::Proceed
    } else {
        ConfirmStep::Ask
    }
}

/// What `gat tmux` does once its plan is built.
#[derive(Clone, Copy, Debug, PartialEq, Eq, Structural)]
pub enum TmuxStep {
    /// Print the plan only (`--dry-run`).
    ShowPlan,
    /// Create the worktree, then open the session.
    CreateWorktree,
    /// Reuse the existing worktree and open the session.
    ReuseWorktree,
}

/// The decision of `gat tmux`: a dry run only plans, and needs neither tmux
/// nor the shell; otherwise tmux must be on `PATH` and the layout's shell
/// must exist, and the worktree is created when the plan says so.
pub open spec fn tmux_step_spec(
    dry_run: bool,
    tmux_found: bool,
    shell: Seq<char>,
    shell_found: bool,
    creates: bool,
) -> core::result::Result<TmuxStep, ErrorView> {
    if dry_run {
        Ok(TmuxStep::ShowPlan)
    } else if !tmux_found {
        Err(GatError::NotFound("tmux not found on PATH"@))
    } else if !shell_found {
        Err(GatError::NotFound("shell "@ + shell + " not found"@))
    } else if creates {
        Ok(TmuxStep::CreateWorktree)
    } else {
        Ok(TmuxStep::ReuseWorktree)
    }
}

/// Decides what `gat tmux` does next; `creates` tells whether the plan
/// creates the worktree.
pub fn tmux_step(dry_run: bool, tmux_found: bool, shell: &str, shell_found: bool, creates: bool) -> (r: Result<TmuxStep>)
    ensures
        match r {
            Ok(step) => tmux_step_spec(dry_run, tmux_found, shell@, shell_found, creates) == Ok::<TmuxStep, ErrorView>(step),
            Err(e) => tmux_step_spec(dry_run, tmux_found, shell@, shell_found, creates) == Err::<TmuxStep, ErrorView>(e@),
        },
{
    if dry_run {
        Ok(TmuxStep::ShowPlan)
    } else if !tmux_found {
        Err(GatError::NotFound("tmux not found on PATH".to_string()))
    } else if !shell_found {
        Err(GatError::NotFound(message3("shell ", shell, " not found")))
    } else if creates {
        Ok(TmuxStep::CreateWorktree)
    } else {
        Ok(TmuxStep::ReuseWorktree)
    }
}

/// What `gat switch` does next.
#[derive(Clone, Copy, Debug, PartialEq, Eq, Structural)]
pub enum SwitchStep {
    /// Print the plan only (`--dry-run`).
    ShowPlan,
    /// Attach to (or report) the live session.
    UseSession,
    /// Nothing to switch to: the worktree does not exist.
    Missing,
    /// Open a new session on the existing worktree.
    OpenSession,
}

/// The decision of `gat switch`: a dry run only plans; a live session is
/// used whether or not its worktree still exists; otherwise a session is
/// opened on the worktree, and without one the command fails. `switch`
/// never creates a worktree.
pub open spec fn switch_step_spec(dry_run: bool, session_exists: bool, worktree_found: bool) -> SwitchStep {
    if dry_run {
        SwitchStep::ShowPlan
    } else if session_exists {
        SwitchStep::UseSession
    } else if !worktree_found {
        SwitchStep::Missing
    } else {
        SwitchStep::OpenSession
    }
}

/// Decides what `gat switch` does next.
pub fn switch_step(dry_run: bool, session_exists: bool, worktree_found: bool) -> (r: SwitchStep)
    ensures
        r == switch_step_spec(dry_run, session_exists, worktree_found),
        r == SwitchStep::OpenSession ==> worktree_found && !session_exists,
{
    if dry_run {
        SwitchStep::ShowPlan
    } else if session_exists {
        SwitchStep::UseSession
    } else if !worktree_found {
        SwitchStep::Missing
    } else {
        SwitchStep::OpenSession
    }
}

/// What `gat switch` does: attach to a live session, build the layout for
/// an existing worktree, or report that there is nothing to switch to.
pub open spec fn switch_action_text(session_exists: bool, has_worktree: bool) -> Seq<char> {
    if session_exists {
        "attach_existing"@
    } else if has_worktree {
        "create_session"@
    } else {
        "no_worktree"@
    }
}

/// The `gat switch` dry-run plan for each format.
pub open spec fn switch_plan_text(target: Seq<char>, session: Seq<char>, worktree_path: Option<Seq<char>>, session_exists: bool, format: OutputFormat) -> Seq<char> {
    let action = switch_action_text(session_exists, worktree_path is Some);
    let path_display = match worktree_path {
        Some(p) => p,
        None => "<none>"@,
    };
    match format {
        OutputFormat::Text => "switch plan for "@ + target + "\nsession: "@ + session + "\nsession exists: "@
            + yes_no_spec(session_exists) + "\nworktree: "@ + path_display + "\naction: "@ + action + "\n"@,
        OutputFormat::Json => "{\"status\":\"ok\",\"action\":\"switch_plan\",\"target\":\""@ + json_escaped(target)
            + "\",\"session\":\""@ + json_escaped(session) + "\",\"session_exists\":"@ + bool_text(session_exists)
            + ",\"worktree\":"@ + option_json_spec(worktree_path) + ",\"resolved_action\":\""@ + action + "\"}\n"@,
        OutputFormat::Shell => "GAT_ACTION="@ + shell_escaped("switch_plan"@) + "\nGAT_TARGET="@ + shell_escaped(target)
            + "\nGAT_SESSION="@ + shell_escaped(session) + "\nGAT_SESSION_EXISTS="@ + shell_escaped(bool_text(session_exists))
            + "\nGAT_PATH="@ + shell_escaped(path_display) + "\n"@,
    }
}

/// Formats the `gat switch` dry-run plan.
pub fn format_switch_plan(target: &str, session: &str, worktree_path: Option<&str>, session_exists: bool, format: OutputFormat) -> (r: String)
    ensures
        r@ == switch_plan_text(target@, session@, opt_str_view(worktree_path), session_exists, format),
{
    let action = if session_exists {
        "attach_existing"
    } else if worktree_path.is_some() {
        "create_session"
    } else {
        "no_worktree"
    };
    let path_display = match worktree_path {
        Some(p) => p,
        None => "<none>",
    };
    let mut out = String::new();
    match format {
        OutputFormat::Text => {
            push_str(&mut out, "switch plan for ");
            assert(out@ =~= "switch plan for "@);
            push_str(&mut out, target);
            push_str(&mut out, "\nsession: ");
            push_str(&mut out, session);
            push_str(&mut out, "\nsession exists: ");
            push_str(&mut out, yes_no(session_exists));
            push_str(&mut out, "\nworktree: ");
            push_str(&mut out, path_display);
            push_str(&mut out, "\naction: ");
            push_str(&mut out, action);
            push_str(&mut out, "\n");
        },
        OutputFormat::Json => {
            push_str(&mut out, "{\"status\":\"ok\",\"action\":\"switch_plan\",\"target\":\"");
            assert(out@ =~= "{\"status\":\"ok\",\"action\":\"switch_plan\",\"target\":\""@);
            push_json(&mut out, target);
            push_str(&mut out, "\",\"session\":\"");
            push_json(&mut out, session);
            push_str(&mut out, "\",\"session_exists\":");
            push_str(&mut out, bool_string(session_exists).as_str());
            push_str(&mut out, ",\"worktree\":");
            push_str(&mut out, option_json(worktree_path).as_str());
            push_str(&mut out, ",\"resolved_action\":\"");
            push_str(&mut out, action);
            push_str(&mut out, "\"}\n");
        },
        OutputFormat::Shell => {
            push_str(&mut out, "GAT_ACTION=");
            assert(out@ =~= "GAT_ACTION="@);
            push_shell(&mut out, "switch_plan");
            push_str(&mut out, "\nGAT_TARGET=");
            push_shell(&mut out, target);
            push_str(&mut out, "\nGAT_SESSION=");
            push_shell(&mut out, session);
            push_str(&mut out, "\nGAT_SESSION_EXISTS=");
            push_shell(&mut out, bool_string(session_exists).as_str());
            push_str(&mut out, "\nGAT_PATH=");
            push_shell(&mut out, path_display);
            push_str(&mut out, "\n");
        },
    }
    out
}

/// The `gat switch` non-attach result for each format.
pub open spec fn switch_ready_text(action: Seq<char>, target: Seq<char>, session: Seq<char>, format: OutputFormat) -> Seq<char> {
    match format {
        OutputFormat::Text => "tmux session "@ + session + " "@ + action + " for "@ + target + "\n"@,
        OutputFormat::Json => "{\"status\":\"ok\",\"action\":\"switch_"@ + json_escaped(action) + "\",\"target\":\""@
            + json_escaped(target) + "\",\"session\":\""@ + json_escaped(session) + "\"}\n"@,
        OutputFormat::Shell => "GAT_ACTION="@ + shell_escaped("switch_"@ + action) + "\nGAT_TARGET="@
            + shell_escaped(target) + "\nGAT_SESSION="@ + shell_escaped(session) + "\n"@,
    }
}

/// Formats the `gat switch` non-attach result.
pub fn format_switch_ready(action: &str, target: &str, session: &str, format: OutputFormat) -> (r: String)
    ensures
        r@ == switch_ready_text(action@, target@, session@, format),
{
    let mut out = String::new();
    match format {
        OutputFormat::Text => {
            push_str(&mut out, "tmux session ");
            assert(out@ =~= "tmux session "@);
            push_str(&mut out, session);
            push_str(&mut out, " ");
            push_str(&mut out, action);
            push_str(&mut out, " for ");
            push_str(&mut out, target);
            push_str(&mut out, "\n");
        },
        OutputFormat::Json => {
            push_str(&mut out, "{\"status\":\"ok\",\"action\":\"switch_");
            assert(out@ =~= "{\"status\":\"ok\",\"action\":\"switch_"@);
            push_json(&mut out, action);
            push_str(&mut out, "\",\"target\":\"");
            push_json(&mut out, target);
            push_str(&mut out, "\",\"session\":\"");
            push_json(&mut out, session);
            push_str(&mut out, "\"}\n");
        },
        OutputFormat::Shell => {
            let mut a = "switch_".to_string();
            push_str(&mut a, action);
            push_str(&mut out, "GAT_ACTION=");
            assert(out@ =~= "GAT_ACTION="@);
            push_shell(&mut out, a.as_str());
            push_str(&mut out, "\nGAT_TARGET=");
            push_shell(&mut out, target);
            push_str(&mut out, "\nGAT_SESSION=");
            push_shell(&mut out, session);
            push_str(&mut out, "\n");
        },
    }
    out
}

/// The error when `gat switch` finds neither a session nor a worktree.
pub open spec fn switch_missing_spec(target: Seq<char>, raw_target: Seq<char>) -> ErrorView {
    GatError::NotFound("no worktree found for "@ + target + "; create it first with `gat new "@ + raw_target + "`"@)
}

/// The error when `gat switch` finds neither a session nor a worktree.
pub fn switch_missing_error(target: &str, raw_target: &str) -> (e: GatError)
    ensures
        e@ == switch_missing_spec(target@, raw_target@),
{
    let mut m = message3("no worktree found for ", target, "; create it first with `gat new ");
    push_str(&mut m, raw_target);
    push_str(&mut m, "`");
    GatError::NotFound(m)
}

/// Everything a tmux dry-run plan shows.
pub struct TmuxPlan {
    /// Worktree creation/reuse plan.
    pub plan: NewPlan,
    /// Resolved tmux session name.
    pub session: String,
    /// Prompt draft file path exported to panes.
    pub prompt_file: String,
    /// Command launched in the AI pane.
    pub codex_cmd: String,
    /// Command launched in the editor pane.
    pub editor_cmd: String,
    /// Shell used for tmux panes.
    pub shell: String,
    /// Left pane width percentage.
    pub left_width: u8,
    /// Bottom-right pane height percentage.
    pub bottom_height: u8,
    /// Whether the left (AI) pane is focused on creation.
    pub focus_left: bool,
    /// Whether the session would be attached/switched to.
    pub attach: bool,
    /// Whether the command runs inside tmux (so it would switch clients).
    pub in_tmux: bool,
}

/// The text dry-run tmux plan.
pub open spec fn tmux_plan_text_spec(v: TmuxPlan) -> Seq<char> {
    let right = if v.left_width <= 100 { (100 - v.left_width) as u8 } else { 0u8 };
    "tmux plan for "@ + v.plan.ticket@ + " @ "@ + v.plan.path@ + "\nworktree action: "@ + new_action_text(v.plan.action)
        + "\nsession: "@ + v.session@ + "\nprompt file: "@ + v.prompt_file@ + "\nshell: "@ + v.shell@ + "\nleft pane: "@
        + v.codex_cmd@ + " ("@ + decimal(v.left_width as nat) + "%)\nright top pane: "@ + v.editor_cmd@ + " "@
        + shell_escaped(v.plan.path@) + " ("@ + decimal(right as nat) + "%)\nright bottom pane: shell ("@
        + decimal(v.bottom_height as nat) + "%)\nfocus: "@ + (if v.focus_left { "ai"@ } else { "editor"@ })
        + "\nattach: "@ + attach_command_text(v.session@, v.attach, v.in_tmux) + "\n"@
}

/// The JSON dry-run tmux plan.
pub open spec fn tmux_plan_json_spec(v: TmuxPlan) -> Seq<char> {
    "{\"status\":\"ok\",\"action\":\"tmux_plan\",\"ticket\":\""@ + json_escaped(v.plan.ticket@) + "\",\"branch\":\""@
        + json_escaped(v.plan.branch@) + "\",\"path\":\""@ + json_escaped(v.plan.path@) + "\",\"worktree_action\":\""@
        + new_action_text(v.plan.action) + "\",\"session\":\""@ + json_escaped(v.session@) + "\",\"prompt_file\":\""@
        + json_escaped(v.prompt_file@) + "\",\"shell\":\""@ + json_escaped(v.shell@) + "\",\"codex_cmd\":\""@
        + json_escaped(v.codex_cmd@) + "\",\"editor_cmd\":\""@ + json_escaped(v.editor_cmd@) + "\",\"editor_target\":\""@
        + json_escaped(v.plan.path@) + "\",\"left_width\":"@ + decimal(v.left_width as nat) + ",\"bottom_height\":"@
        + decimal(v.bottom_height as nat) + ",\"focus_left\":"@ + bool_text(v.focus_left) + ",\"attach_command\":\""@
        + json_escaped(attach_command_text(v.session@, v.attach, v.in_tmux)) + "\"}\n"@
}

/// The shell-assignment dry-run tmux plan.
pub open spec fn tmux_plan_shell_spec(v: TmuxPlan) -> Seq<char> {
    "GAT_ACTION="@ + shell_escaped("tmux_plan"@) + "\nGAT_TICKET="@ + shell_escaped(v.plan.ticket@) + "\nGAT_BRANCH="@
        + shell_escaped(v.plan.branch@) + "\nGAT_PATH="@ + shell_escaped(v.plan.path@) + "\nGAT_SESSION="@
        + shell_escaped(v.session@) + "\nGAT_PROMPT_FILE="@ + shell_escaped(v.prompt_file@) + "\nGAT_SHELL="@
        + shell_escaped(v.shell@) + "\nGAT_CODEX_CMD="@ + shell_escaped(v.codex_cmd@) + "\nGAT_EDITOR_CMD="@
        + shell_escaped(v.editor_cmd@) + "\nGAT_EDITOR_TARGET="@ + shell_escaped(v.plan.path@) + "\nGAT_LEFT_WIDTH="@
        + shell_escaped(decimal(v.left_width as nat)) + "\nGAT_BOTTOM_HEIGHT="@ + shell_escaped(decimal(v.bottom_height as nat))
        + "\nGAT_FOCUS_LEFT="@ + shell_escaped(bool_text(v.focus_left)) + "\nGAT_ATTACH_CMD="@
        + shell_escaped(attach_command_text(v.session@, v.attach, v.in_tmux)) + "\n"@
}

/// The dry-run tmux plan for each format.
pub open spec fn tmux_plan_spec(v: TmuxPlan, format: OutputFormat) -> Seq<char> {
    match format {
        OutputFormat::Text => tmux_plan_text_spec(v),
        OutputFormat::Json => tmux_plan_json_spec(v),
        OutputFormat::Shell => tmux_plan_shell_spec(v),
    }
}

fn tmux_plan_text(v: &TmuxPlan) -> (r: String)
    ensures
        r@ == tmux_plan_text_spec(*v),
{
    let right: u8 = if v.left_width <= 100 { 100 - v.left_width } else { 0 };
    let mut out = String::new();
    push_str(&mut out, "tmux plan for ");
    assert(out@ =~= "tmux plan for "@);
    push_str(&mut out, v.plan.ticket.as_str());
    push_str(&mut out, " @ ");
    push_str(&mut out, v.plan.path.as_str());
    push_str(&mut out, "\nworktree action: ");
    push_str(&mut out, new_action_label(v.plan.action));
    push_str(&mut out, "\nsession: ");
    push_str(&mut out, v.session.as_str());
    push_str(&mut out, "\nprompt file: ");
    push_str(&mut out, v.prompt_file.as_str());
    push_str(&mut out, "\nshell: ");
    push_str(&mut out, v.shell.as_str());
    push_str(&mut out, "\nleft pane: ");
    push_str(&mut out, v.codex_cmd.as_str());
    push_str(&mut out, " (");
    push_str(&mut out, decimal_string(v.left_width as u64).as_str());
    push_str(&mut out, "%)\nright top pane: ");
    push_str(&mut out, v.editor_cmd.as_str());
    push_str(&mut out, " ");
    push_shell(&mut out, v.plan.path.as_str());
    push_str(&mut out, " (");
    push_str(&mut out, decimal_string(right as u64).as_str());
    push_str(&mut out, "%)\nright bottom pane: shell (");
    push_str(&mut out, decimal_string(v.bottom_height as u64).as_str());
    push_str(&mut out, "%)\nfocus: ");
    push_str(&mut out, if v.focus_left { "ai" } else { "editor" });
    push_str(&mut out, "\nattach: ");
    push_str(&mut out, tmux_attach_command(v.session.as_str(), v.attach, v.in_tmux).as_str());
    push_str(&mut out, "\n");
    out
}

fn tmux_plan_json(v: &TmuxPlan) -> (r: String)
    ensures
        r@ == tmux_plan_json_spec(*v),
{
    let mut out = String::new();
    push_str(&mut out, "{\"status\":\"ok\",\"action\":\"tmux_plan\",\"ticket\":\"");
    assert(out@ =~= "{\"status\":\"ok\",\"action\":\"tmux_plan\",\"ticket\":\""@);
    push_json(&mut out, v.plan.ticket.as_str());
    push_str(&mut out, "\",\"branch\":\"");
    push_json(&mut out, v.plan.branch.as_str());
    push_str(&mut out, "\",\"path\":\"");
    push_json(&mut out, v.plan.path.as_str());
    push_str(&mut out, "\",\"worktree_action\":\"");
    push_str(&mut out, new_action_label(v.plan.action));
    push_str(&mut out, "\",\"session\":\"");
    push_json(&mut out, v.session.as_str());
    push_str(&mut out, "\",\"prompt_file\":\"");
    push_json(&mut out, v.prompt_file.as_str());
    push_str(&mut out, "\",\"shell\":\"");
    push_json(&mut out, v.shell.as_str());
    push_str(&mut out, "\",\"codex_cmd\":\"");
    push_json(&mut out, v.codex_cmd.as_str());
    push_str(&mut out, "\",\"editor_cmd\":\"");
    push_json(&mut out, v.editor_cmd.as_str());
    push_str(&mut out, "\",\"editor_target\":\"");
    push_json(&mut out, v.plan.path.as_str());
    push_str(&mut out, "\",\"left_width\":");
    push_str(&mut out, decimal_string(v.left_width as u64).as_str());
    push_str(&mut out, ",\"bottom_height\":");
    push_str(&mut out, decimal_string(v.bottom_height as u64).as_str());
    push_str(&mut out, ",\"focus_left\":");
    push_str(&mut out, bool_string(v.focus_left).as_str());
    push_str(&mut out, ",\"attach_command\":\"");
    push_json(&mut out, tmux_attach_command(v.session.as_str(), v.attach, v.in_tmux).as_str());
    push_str(&mut out, "\"}\n");
    out
}

fn tmux_plan_shell(v: &TmuxPlan) -> (r: String)
    ensures
        r@ == tmux_plan_shell_spec(*v),
{
    let mut out = String::new();
    push_str(&mut out, "GAT_ACTION=");
    assert(out@ =~= "GAT_ACTION="@);
    push_shell(&mut out, "tmux_plan");
    push_str(&mut out, "\nGAT_TICKET=");
    push_shell(&mut out, v.plan.ticket.as_str());
    push_str(&mut out, "\nGAT_BRANCH=");
    push_shell(&mut out, v.plan.branch.as_str());
    push_str(&mut out, "\nGAT_PATH=");
    push_shell(&mut out, v.plan.path.as_str());
    push_str(&mut out, "\nGAT_SESSION=");
    push_shell(&mut out, v.session.as_str());
    push_str(&mut out, "\nGAT_PROMPT_FILE=");
    push_shell(&mut out, v.prompt_file.as_str());
    push_str(&mut out, "\nGAT_SHELL=");
    push_shell(&mut out, v.shell.as_str());
    push_str(&mut out, "\nGAT_CODEX_CMD=");
    push_shell(&mut out, v.codex_cmd.as_str());
    push_str(&mut out, "\nGAT_EDITOR_CMD=");
    push_shell(&mut out, v.editor_cmd.as_str());
    push_str(&mut out, "\nGAT_EDITOR_TARGET=");
    push_shell(&mut out, v.plan.path.as_str());
    push_str(&mut out, "\nGAT_LEFT_WIDTH=");
    push_shell(&mut out, decimal_string(v.left_width as u64).as_str());
    push_str(&mut out, "\nGAT_BOTTOM_HEIGHT=");
    push_shell(&mut out, decimal_string(v.bottom_height as u64).as_str());
    push_str(&mut out, "\nGAT_FOCUS_LEFT=");
    push_shell(&mut out, bool_string(v.focus_left).as_str());
    push_str(&mut out, "\nGAT_ATTACH_CMD=");
    push_shell(&mut out, tmux_attach_command(v.session.as_str(), v.attach, v.in_tmux).as_str());
    push_str(&mut out, "\n");
    out
}

/// Formats a dry-run tmux plan.
pub fn format_tmux_plan(v: &TmuxPlan, format: OutputFormat) -> (r: String)
    ensures
        r@ == tmux_plan_spec(*v, format),
{
    match format {
        OutputFormat::Text => tmux_plan_text(v),
        OutputFormat::Json => tmux_plan_json(v),
        OutputFormat::Shell => tmux_plan_shell(v),
    }
}

/// A created or reused tmux session result for each format.
pub open spec fn tmux_ready_text(plan: NewPlanView, session: Seq<char>, prompt_file: Seq<char>, format: OutputFormat) -> Seq<char> {
    match format {
        OutputFormat::Text => "tmux session "@ + session + " ready for "@ + plan.ticket + " @ "@ + plan.path + "\n"@,
        OutputFormat::Json => "{\"status\":\"ok\",\"action\":\"tmux_ready\",\"ticket\":\""@ + json_escaped(plan.ticket)
            + "\",\"branch\":\""@ + json_escaped(plan.branch) + "\",\"path\":\""@ + json_escaped(plan.path)
            + "\",\"worktree_action\":\""@ + new_action_text(plan.action) + "\",\"session\":\""@ + json_escaped(session)
            + "\",\"prompt_file\":\""@ + json_escaped(prompt_file) + "\"}\n"@,
        OutputFormat::Shell => "GAT_ACTION="@ + shell_escaped("tmux_ready"@) + "\nGAT_TICKET="@ + shell_escaped(plan.ticket)
            + "\nGAT_BRANCH="@ + shell_escaped(plan.branch) + "\nGAT_PATH="@ + shell_escaped(plan.path) + "\nGAT_SESSION="@
            + shell_escaped(session) + "\nGAT_PROMPT_FILE="@ + shell_escaped(prompt_file) + "\n"@,
    }
}

/// Formats a created or reused tmux session result.
pub fn format_tmux_ready(plan: &NewPlan, session: &str, prompt_file: &str, format: OutputFormat) -> (r: String)
    ensures
        r@ == tmux_ready_text(plan@, session@, prompt_file@, format),
{
    let mut out = String::new();
    match format {
        OutputFormat::Text => {
            push_str(&mut out, "tmux session ");
            assert(out@ =~= "tmux session "@);
            push_str(&mut out, session);
            push_str(&mut out, " ready for ");
            push_str(&mut out, plan.ticket.as_str());
            push_str(&mut out, " @ ");
            push_str(&mut out, plan.path.as_str());
            push_str(&mut out, "\n");
        },
        OutputFormat::Json => {
            push_str(&mut out, "{\"status\":\"ok\",\"action\":\"tmux_ready\",\"ticket\":\"");
            assert(out@ =~= "{\"status\":\"ok\",\"action\":\"tmux_ready\",\"ticket\":\""@);
            push_json(&mut out, plan.ticket.as_str());
            push_str(&mut out, "\",\"branch\":\"");
            push_json(&mut out, plan.branch.as_str());
            push_str(&mut out, "\",\"path\":\"");
            push_json(&mut out, plan.path.as_str());
            push_str(&mut out, "\",\"worktree_action\":\"");
            push_str(&mut out, new_action_label(plan.action));
            push_str(&mut out, "\",\"session\":\"");
            push_json(&mut out, session);
            push_str(&mut out, "\",\"prompt_file\":\"");
            push_json(&mut out, prompt_file);
            push_str(&mut out, "\"}\n");
        },
        OutputFormat::Shell => {
            push_str(&mut out, "GAT_ACTION=");
            assert(out@ =~= "GAT_ACTION="@);
            push_shell(&mut out, "tmux_ready");
            push_str(&mut out, "\nGAT_TICKET=");
            push_shell(&mut out, plan.ticket.as_str());
            push_str(&mut out, "\nGAT_BRANCH=");
            push_shell(&mut out, plan.branch.as_str());
            push_str(&mut out, "\nGAT_PATH=");
            push_shell(&mut out, plan.path.as_str());
            push_str(&mut out, "\nGAT_SESSION=");
            push_shell(&mut out, session);
            push_str(&mut out, "\nGAT_PROMPT_FILE=");
            push_shell(&mut out, prompt_file);
            push_str(&mut out, "\n");
        },
    }
    out
}

// ---------------------------------------------------------------------------
// Descriptions
// ---------------------------------------------------------------------------

/// `gat describe` output for each format.
pub open spec fn describe_result_text(target: Seq<char>, path: Seq<char>, description: Seq<char>, updated: bool, format: OutputFormat) -> Seq<char> {
    match format {
        OutputFormat::Text => if description.len() == 0 {
            target + " has no description\n"@
        } else {
            target + ": "@ + description + "\n"@
        },
        OutputFormat::Json => "{\"status\":\"ok\",\"action\":\"describe\",\"target\":\""@ + json_escaped(target)
            + "\",\"path\":\""@ + json_escaped(path) + "\",\"description\":"@
            + option_json_spec(if description.len() == 0 { None } else { Some(description) }) + ",\"updated\":"@
            + bool_text(updated) + "}\n"@,
        OutputFormat::Shell => "GAT_ACTION="@ + shell_escaped("describe"@) + "\nGAT_TARGET="@ + shell_escaped(target)
            + "\nGAT_PATH="@ + shell_escaped(path) + "\nGAT_DESCRIPTION="@ + shell_escaped(description) + "\n"@,
    }
}

/// Formats `gat describe` output for text, JSON, and shell modes.
pub fn format_describe_result(target: &str, path: &str, description: &str, updated: bool, format: OutputFormat) -> (r: String)
    ensures
        r@ == describe_result_text(target@, path@, description@, updated, format),
{
    let empty = chars_of(description).len() == 0;
    let mut out = String::new();
    match format {
        OutputFormat::Text => {
            push_str(&mut out, target);
            assert(out@ =~= target@);
            if empty {
                push_str(&mut out, " has no description\n");
            } else {
                push_str(&mut out, ": ");
                push_str(&mut out, description);
                push_str(&mut out, "\n");
            }
        },
        OutputFormat::Json => {
            push_str(&mut out, "{\"status\":\"ok\",\"action\":\"describe\",\"target\":\"");
            assert(out@ =~= "{\"status\":\"ok\",\"action\":\"describe\",\"target\":\""@);
            push_json(&mut out, target);
            push_str(&mut out, "\",\"path\":\"");
            push_json(&mut out, path);
            push_str(&mut out, "\",\"description\":");
            push_str(&mut out, option_json(if empty { None } else { Some(description) }).as_str());
            push_str(&mut out, ",\"updated\":");
            push_str(&mut out, bool_string(updated).as_str());
            push_str(&mut out, "}\n");
        },
        OutputFormat::Shell => {
            push_str(&mut out, "GAT_ACTION=");
            assert(out@ =~= "GAT_ACTION="@);
            push_shell(&mut out, "describe");
            push_str(&mut out, "\nGAT_TARGET=");
            push_shell(&mut out, target);
            push_str(&mut out, "\nGAT_PATH=");
            push_shell(&mut out, path);
            push_str(&mut out, "\nGAT_DESCRIPTION=");
            push_shell(&mut out, description);
            push_str(&mut out, "\n");
        },
    }
    out
}

// ---------------------------------------------------------------------------
// Templates
// ---------------------------------------------------------------------------

/// Which template applies after creation: `--no-template` (an empty name)
/// none; no name the `default` template if one is configured; an explicit
/// name that template, which must exist.
pub open spec fn template_choice(
    templates: Seq<(Seq<char>, TemplateView)>,
    requested: Option<Seq<char>>,
) -> core::result::Result<Option<(Seq<char>, TemplateView)>, ErrorView> {
    match requested {
        Some(name) => if name.len() == 0 {
            Ok(None)
        } else {
            match template_lookup(templates, name) {
                Some(t) => Ok(Some((name, t))),
                None => Err(GatError::NotFound("template '"@ + name + "' is not configured; add a [template."@ + name
                    + "] section to your config"@)),
            }
        },
        None => match template_lookup(templates, "default"@) {
            Some(t) => Ok(Some(("default"@, t))),
            None => Ok(None),
        },
    }
}

/// Resolves the setup template to apply to a new worktree.
pub fn resolve_template<'a>(config: &'a GatConfig, requested: Option<&str>) -> (r: Result<Option<(String, &'a Template)>>)
    requires
        config.wf(),
    ensures
        match template_choice(config@.templates, opt_str_view(requested)) {
            Ok(None) => r matches Ok(None),
            Ok(Some((n, t))) => r matches Ok(Some((x, y))) && x@ == n && y@ == t,
            Err(e) => r matches Err(x) && x@ == e,
        },
{
    match requested {
        Some(name) => {
            if chars_of(name).len() == 0 {
                return Ok(None);
            }
            match config.template(name) {
                Some(t) => Ok(Some((name.to_string(), t))),
                None => {
                    let mut m = message3("template '", name, "' is not configured; add a [template.");
                    push_str(&mut m, name);
                    push_str(&mut m, "] section to your config");
                    Err(GatError::NotFound(m))
                },
            }
        },
        None => match config.template("default") {
            Some(t) => Ok(Some(("default".to_string(), t))),
            None => Ok(None),
        },
    }
}

/// The error for a template setup command that failed: its exit code, or
/// `signal` when it has none.
pub open spec fn template_failure_spec(command: Seq<char>, code: Option<i32>) -> ErrorView {
    GatError::Io("template command failed ("@ + match code {
        Some(c) => signed_decimal(c as int),
        None => "signal"@,
    } + "): "@ + command)
}

/// The error for a template setup command that failed.
pub fn template_failure(command: &str, code: Option<i32>) -> (e: GatError)
    ensures
        e@ == template_failure_spec(command@, code),
{
    let mut m = "template command failed (".to_string();
    match code {
        Some(c) => push_str(&mut m, signed_decimal_string(c).as_str()),
        None => push_str(&mut m, "signal"),
    }
    push_str(&mut m, "): ");
    push_str(&mut m, command);
    GatError::Io(m)
}

// ---------------------------------------------------------------------------
// Archiving
// ---------------------------------------------------------------------------

/// The safety checks before archiving: never the primary worktree, and a
/// dirty one only with `force`.
pub open spec fn archive_check_spec(wt: WorktreeView, dirty: bool, force: bool) -> core::result::Result<(), ErrorView> {
    if wt.is_primary {
        Err(GatError::Unsafe("cannot archive the primary worktree"@))
    } else if dirty && !force {
        Err(GatError::Unsafe("worktree "@ + wt.path + " has uncommitted changes; pass --force to archive it"@))
    } else {
        Ok(())
    }
}

/// Runs the safety checks before archiving.
pub fn check_archive(wt: &Worktree, dirty: bool, force: bool) -> (r: Result<()>)
    ensures
        match r {
            Ok(()) => archive_check_spec(wt@, dirty, force) is Ok,
            Err(e) => archive_check_spec(wt@, dirty, force) == Err::<(), ErrorView>(e@),
        },
{
    if wt.is_primary {
        return Err(GatError::Unsafe("cannot archive the primary worktree".to_string()));
    }
    if dirty && !force {
        return Err(GatError::Unsafe(message3("worktree ", wt.path.as_str(), " has uncommitted changes; pass --force to archive it")));
    }
    Ok(())
}

/// The default archive root: `<repo>-archive` beside the primary worktree.
pub open spec fn default_archive_root_spec(repo_parent: Seq<char>, repo_name: Seq<char>) -> Seq<char> {
    join_path(repo_parent, sanitized(repo_name) + "-archive"@)
}

/// The default archive root.
pub fn default_archive_root(repo: &Repo) -> (r: String)
    ensures
        r@ == default_archive_root_spec(repo.repo_parent@, repo.repo_name@),
{
    let mut name = sanitize_path_component(repo.repo_name.as_str());
    push_str(&mut name, "-archive");
    join(repo.repo_parent.as_str(), name.as_str())
}

/// The name a worktree is archived under: its branch, else its directory
/// name, else `detached`.
pub open spec fn archive_name_spec(wt: WorktreeView) -> Seq<char> {
    match wt.branch {
        Some(b) => b,
        None => match path_file_name(wt.path) {
            Some(n) => n,
            None => "detached"@,
        },
    }
}

/// The name a worktree is archived under.
pub fn archive_name(wt: &Worktree) -> (r: String)
    ensures
        r@ == archive_name_spec(wt@),
{
    match &wt.branch {
        Some(b) => b.clone(),
        None => match file_name(wt.path.as_str()) {
            Some(n) => n,
            None => "detached".to_string(),
        },
    }
}

/// The `attempt`-th archive destination tried: `<root>/<name>`, then
/// `<root>/<name>-2`, `<root>/<name>-3`, ... until one does not exist.
pub open spec fn archive_candidate_spec(root: Seq<char>, name: Seq<char>, attempt: u64) -> Seq<char> {
    if attempt <= 1 {
        join_path(root, sanitized(name))
    } else {
        join_path(root, sanitized(name) + "-"@ + decimal(attempt as nat))
    }
}

/// The `attempt`-th archive destination tried (counting from 1).
pub fn archive_candidate(root: &str, name: &str, attempt: u64) -> (r: String)
    ensures
        r@ == archive_candidate_spec(root@, name@, attempt),
{
    let mut safe = sanitize_path_component(name);
    if attempt > 1 {
        push_str(&mut safe, "-");
        push_str(&mut safe, decimal_string(attempt).as_str());
    }
    join(root, safe.as_str())
}

/// The checks on the archive root: an existing one must be a writable
/// directory (`write_error` is the error of a trial write, if it failed);
/// a missing one needs its parent to exist.
pub open spec fn archive_root_check_spec(
    root: Seq<char>,
    exists: bool,
    is_dir: bool,
    write_error: Option<Seq<char>>,
    parent: Option<Seq<char>>,
    parent_exists: bool,
) -> core::result::Result<(), ErrorView> {
    if exists {
        if !is_dir {
            Err(GatError::Unsafe("archive path exists but is not a directory: "@ + root))
        } else {
            match write_error {
                Some(e) => Err(GatError::Unsafe("archive directory is not writable: "@ + root + " ("@ + e + ")"@)),
                None => Ok(()),
            }
        }
    } else {
        match parent {
            Some(p) => if !parent_exists {
                Err(GatError::Unsafe("archive parent directory does not exist: "@ + p))
            } else {
                Ok(())
            },
            None => Ok(()),
        }
    }
}

/// Validates the archive root from what the filesystem reports.
pub fn check_archive_root(
    root: &str,
    exists: bool,
    is_dir: bool,
    write_error: Option<&str>,
    parent: Option<&str>,
    parent_exists: bool,
) -> (r: Result<()>)
    ensures
        match r {
            Ok(()) => archive_root_check_spec(root@, exists, is_dir, opt_str_view(write_error), opt_str_view(parent), parent_exists) is Ok,
            Err(e) => archive_root_check_spec(root@, exists, is_dir, opt_str_view(write_error), opt_str_view(parent), parent_exists)
                == Err::<(), ErrorView>(e@),
        },
{
    if exists {
        if !is_dir {
            let mut m = "archive path exists but is not a directory: ".to_string();
            push_str(&mut m, root);
            return Err(GatError::Unsafe(m));
        }
        match write_error {
            Some(e) => {
                let mut m = message3("archive directory is not writable: ", root, " (");
                push_str(&mut m, e);
                push_str(&mut m, ")");
                Err(GatError::Unsafe(m))
            },
            None => Ok(()),
        }
    } else {
        match parent {
            Some(p) => if !parent_exists {
                let mut m = "archive parent directory does not exist: ".to_string();
                push_str(&mut m, p);
                Err(GatError::Unsafe(m))
            } else {
                Ok(())
            },
            None => Ok(()),
        }
    }
}

/// Archive output for each format.
pub open spec fn archive_result_text(action: Seq<char>, wt: WorktreeView, archive_path: Seq<char>, format: OutputFormat) -> Seq<char> {
    match format {
        OutputFormat::Json => "{\"status\":\"ok\",\"action\":\""@ + json_escaped(action) + "\",\"branch\":"@
            + option_json_spec(wt.branch) + ",\"from\":\""@ + json_escaped(wt.path) + "\",\"to\":\""@
            + json_escaped(archive_path) + "\"}\n"@,
        _ => action + " worktree "@ + branch_label(wt) + " from "@ + wt.path + " to "@ + archive_path + "\n"@,
    }
}

/// Formats archive output for text, shell, and JSON modes.
pub fn format_archive_result(action: &str, wt: &Worktree, archive_path: &str, format: OutputFormat) -> (r: Result<String>)
    ensures
        r matches Ok(t) && t@ == archive_result_text(action@, wt@, archive_path@, format),
{
    let mut out = String::new();
    match format {
        OutputFormat::Json => {
            push_str(&mut out, "{\"status\":\"ok\",\"action\":\"");
            assert(out@ =~= "{\"status\":\"ok\",\"action\":\""@);
            push_json(&mut out, action);
            push_str(&mut out, "\",\"branch\":");
            push_str(&mut out, option_json(opt_string_ref(&wt.branch)).as_str());
            push_str(&mut out, ",\"from\":\"");
            push_json(&mut out, wt.path.as_str());
            push_str(&mut out, "\",\"to\":\"");
            push_json(&mut out, archive_path);
            push_str(&mut out, "\"}\n");
        },
        _ => {
            push_str(&mut out, action);
            assert(out@ =~= action@);
            push_str(&mut out, " worktree ");
            match &wt.branch {
                Some(b) => push_str(&mut out, b.as_str()),
                None => push_str(&mut out, "<detached>"),
            }
            push_str(&mut out, " from ");
            push_str(&mut out, wt.path.as_str());
            push_str(&mut out, " to ");
            push_str(&mut out, archive_path);
            push_str(&mut out, "\n");
        },
    }
    Ok(out)
}

// ---------------------------------------------------------------------------
// Listing and searching
// ---------------------------------------------------------------------------

/// A worktree with the status fields `gat list` and `gat search` show.
#[derive(Clone, Debug)]
pub struct ListedWorktree<S = String> {
    /// Parsed Git worktree metadata.
    pub worktree: Worktree<S>,
    /// Whether the worktree has uncommitted changes.
    pub dirty: bool,
    /// Whether the branch is merged into the default branch.
    pub merged: bool,
    /// Number of changed paths in the working tree.
    pub changed_files: usize,
    /// Inserted lines versus `HEAD` for tracked changes.
    pub insertions: usize,
    /// Deleted lines versus `HEAD` for tracked changes.
    pub deletions: usize,
    /// Days since the worktree was last accessed, if known.
    pub idle_days: Option<u64>,
    /// Optional free-form description of the worktree.
    pub description: Option<S>,
}

/// The specification-level listed worktree.
pub type ListedView = ListedWorktree<Seq<char>>;

impl View for ListedWorktree<String> {
    type V = ListedWorktree<Seq<char>>;

    open spec fn view(&self) -> ListedWorktree<Seq<char>> {
        ListedWorktree {
            worktree: self.worktree@,
            dirty: self.dirty,
            merged: self.merged,
            changed_files: self.changed_files,
            insertions: self.insertions,
            deletions: self.deletions,
            idle_days: self.idle_days,
            description: opt_view(self.description),
        }
    }
}

/// The listed worktrees taken by their views.
pub open spec fn listed_view(v: Seq<ListedWorktree>) -> Seq<ListedView> {
    v.map_values(|x: ListedWorktree| x@)
}

/// Comma-joined state labels, or `clean` when there are none.
pub open spec fn state_text(labels: Seq<Seq<char>>) -> Seq<char> {
    if labels.len() == 0 { "clean"@ } else { joined(labels, ","@) }
}

/// A label when a condition holds.
pub open spec fn label_if(cond: bool, label: Seq<char>) -> Seq<Seq<char>> {
    if cond { seq![label] } else { Seq::<Seq<char>>::empty() }
}

/// The states the search feed shows, in its order.
pub open spec fn search_states(item: ListedView) -> Seq<Seq<char>> {
    label_if(item.worktree.is_primary, "primary"@) + label_if(item.worktree.detached, "detached"@)
        + label_if(item.dirty, "dirty"@) + label_if(item.merged, "merged"@)
        + label_if(item.worktree.locked is Some, "locked"@) + label_if(item.worktree.prunable is Some, "missing"@)
}

/// The states the list table shows, in its order.
pub open spec fn list_states(item: ListedView) -> Seq<Seq<char>> {
    label_if(item.worktree.is_primary, "primary"@) + label_if(item.worktree.detached, "detached"@)
        + label_if(item.dirty, "dirty"@) + label_if(item.merged, "merged"@)
        + label_if(item.worktree.prunable is Some, "missing"@) + label_if(item.worktree.locked is Some, "locked"@)
}

proof fn lemma_label_if_contains(cond: bool, label: Seq<char>, x: Seq<char>)
    ensures
        label_if(cond, label).contains(x) <==> (cond && label == x),
{
    if cond {
        assert(label_if(cond, label)[0] == label);
    }
}

proof fn lemma_concat_contains(a: Seq<Seq<char>>, b: Seq<Seq<char>>, x: Seq<char>)
    ensures
        (a + b).contains(x) <==> (a.contains(x) || b.contains(x)),
{
    if a.contains(x) {
        let i = choose|i: int| 0 <= i < a.len() && a[i] == x;
        assert((a + b)[i] == x);
    }
    if b.contains(x) {
        let i = choose|i: int| 0 <= i < b.len() && b[i] == x;
        assert((a + b)[a.len() + i] == x);
    }
    if (a + b).contains(x) {
        let i = choose|i: int| 0 <= i < (a + b).len() && (a + b)[i] == x;
        if i < a.len() {
            assert(a[i] == x);
        } else {
            assert(b[i - a.len()] == x);
        }
    }
}

/// The state labels of a worktree in the list table and the search feed:
/// each label appears exactly when its condition holds (`dirty` for a dirty
/// worktree, `merged` for a merged branch, and so on), and a worktree with
/// none of them has no label, which the table shows as `clean`.
pub proof fn lemma_state_labels(item: ListedView)
    ensures
        list_states(item).contains("primary"@) <==> item.worktree.is_primary,
        list_states(item).contains("detached"@) <==> item.worktree.detached,
        list_states(item).contains("dirty"@) <==> item.dirty,
        list_states(item).contains("merged"@) <==> item.merged,
        list_states(item).contains("missing"@) <==> item.worktree.prunable is Some,
        list_states(item).contains("locked"@) <==> item.worktree.locked is Some,
        search_states(item).contains("primary"@) <==> item.worktree.is_primary,
        search_states(item).contains("detached"@) <==> item.worktree.detached,
        search_states(item).contains("dirty"@) <==> item.dirty,
        search_states(item).contains("merged"@) <==> item.merged,
        search_states(item).contains("missing"@) <==> item.worktree.prunable is Some,
        search_states(item).contains("locked"@) <==> item.worktree.locked is Some,
        (list_states(item).len() == 0) <==> !(item.worktree.is_primary || item.worktree.detached || item.dirty || item.merged
            || item.worktree.prunable is Some || item.worktree.locked is Some),
        list_states(item).len() == 0 ==> state_text(list_states(item)) == "clean"@,
{
    reveal_strlit("primary");
    reveal_strlit("detached");
    reveal_strlit("dirty");
    reveal_strlit("merged");
    reveal_strlit("missing");
    reveal_strlit("locked");
    let labels = seq!["primary"@, "detached"@, "dirty"@, "merged"@, "missing"@, "locked"@];
    let conds = seq![item.worktree.is_primary, item.worktree.detached, item.dirty, item.merged,
        item.worktree.prunable is Some, item.worktree.locked is Some];
    assert forall|i: int, j: int| 0 <= i < 6 && 0 <= j < 6 && i != j implies labels[i] != labels[j] by {
        if labels[i] == labels[j] {
            assert(labels[i].len() == labels[j].len());
            assert(labels[i][1] == labels[j][1]);
            assert(labels[i][0] == labels[j][0]);
        }
    }
    let l0 = label_if(conds[0], labels[0]);
    let l1 = label_if(conds[1], labels[1]);
    let l2 = label_if(conds[2], labels[2]);
    let l3 = label_if(conds[3], labels[3]);
    let l4 = label_if(conds[4], labels[4]);
    let l5 = label_if(conds[5], labels[5]);
    assert(list_states(item) == l0 + l1 + l2 + l3 + l4 + l5);
    assert(search_states(item) == l0 + l1 + l2 + l3 + l5 + l4);
    assert forall|k: int| 0 <= k < 6 implies
        (#[trigger] list_states(item).contains(labels[k]) <==> conds[k])
        && (search_states(item).contains(labels[k]) <==> conds[k]) by {
        let x = labels[k];
        lemma_label_if_contains(conds[0], labels[0], x);
        lemma_label_if_contains(conds[1], labels[1], x);
        lemma_label_if_contains(conds[2], labels[2], x);
        lemma_label_if_contains(conds[3], labels[3], x);
        lemma_label_if_contains(conds[4], labels[4], x);
        lemma_label_if_contains(conds[5], labels[5], x);
        lemma_concat_contains(l0, l1, x);
        lemma_concat_contains(l0 + l1, l2, x);
        lemma_concat_contains(l0 + l1 + l2, l3, x);
        lemma_concat_contains(l0 + l1 + l2 + l3, l4, x);
        lemma_concat_contains(l0 + l1 + l2 + l3 + l4, l5, x);
        lemma_concat_contains(l0 + l1 + l2 + l3, l5, x);
        lemma_concat_contains(l0 + l1 + l2 + l3 + l5, l4, x);
    }
    assert(list_states(item).contains(labels[0]) <==> conds[0]);
    assert(list_states(item).contains(labels[1]) <==> conds[1]);
    assert(list_states(item).contains(labels[2]) <==> conds[2]);
    assert(list_states(item).contains(labels[3]) <==> conds[3]);
    assert(list_states(item).contains(labels[4]) <==> conds[4]);
    assert(list_states(item).contains(labels[5]) <==> conds[5]);
}

/// Appends `label` to `labels` when `cond` holds.
fn push_label(labels: &mut Vec<String>, cond: bool, label: &str)
    ensures
        final(labels)@.map_values(|w: String| w@) == old(labels)@.map_values(|w: String| w@) + label_if(cond, label@),
{
    let ghost before = labels@.map_values(|w: String| w@);
    if cond {
        labels.push(label.to_string());
        assert(labels@.map_values(|w: String| w@) =~= before + label_if(cond, label@));
    } else {
        assert(before + label_if(cond, label@) =~= before);
    }
}

/// The state column text.
fn state_string(labels: &Vec<String>) -> (r: String)
    ensures
        r@ == state_text(labels@.map_values(|w: String| w@)),
{
    if labels.len() == 0 {
        "clean".to_string()
    } else {
        join_texts(labels.as_slice(), ",")
    }
}

/// The branch the search feed shows: the branch, else the HEAD id, else
/// `<detached>`.
pub open spec fn feed_branch(wt: WorktreeView) -> Seq<char> {
    match wt.branch {
        Some(b) => b,
        None => match wt.head {
            Some(h) => h,
            None => "<detached>"@,
        },
    }
}

/// One line of the search feed: branch, state and path, tab-separated.
pub open spec fn feed_line(item: ListedView) -> Seq<char> {
    feed_branch(item.worktree) + "\t"@ + state_text(search_states(item)) + "\t"@ + item.worktree.path + "\n"@
}

/// The search feed: one line per worktree.
pub open spec fn search_feed(items: Seq<ListedView>) -> Seq<char>
    decreases items.len(),
{
    if items.len() == 0 {
        Seq::<char>::empty()
    } else {
        search_feed(items.drop_last()) + feed_line(items.last())
    }
}

fn feed_line_of(item: &ListedWorktree) -> (r: String)
    ensures
        r@ == feed_line(item@),
{
    let wt = &item.worktree;
    let mut states: Vec<String> = Vec::new();
    assert(states@.map_values(|w: String| w@) =~= Seq::<Seq<char>>::empty());
    push_label(&mut states, wt.is_primary, "primary");
    push_label(&mut states, wt.detached, "detached");
    push_label(&mut states, item.dirty, "dirty");
    push_label(&mut states, item.merged, "merged");
    push_label(&mut states, wt.locked.is_some(), "locked");
    push_label(&mut states, wt.prunable.is_some(), "missing");
    assert(states@.map_values(|w: String| w@) =~= search_states(item@));
    let mut out = String::new();
    match &wt.branch {
        Some(b) => push_str(&mut out, b.as_str()),
        None => match &wt.head {
            Some(h) => push_str(&mut out, h.as_str()),
            None => push_str(&mut out, "<detached>"),
        },
    }
    assert(out@ =~= feed_branch(item@.worktree));
    push_str(&mut out, "\t");
    push_str(&mut out, state_string(&states).as_str());
    push_str(&mut out, "\t");
    push_str(&mut out, wt.path.as_str());
    push_str(&mut out, "\n");
    out
}

/// Formats the stable tab-separated search feed (`branch`, `state`, `path`).
pub fn format_search_feed(listed: &[ListedWorktree]) -> (r: String)
    ensures
        r@ == search_feed(listed_view(listed@)),
{
    let ghost lv = listed_view(listed@);
    let mut out = String::new();
    let mut i: usize = 0;
    while i < listed.len()
        invariant
            i <= listed.len(),
            lv == listed_view(listed@),
            out@ == search_feed(lv.take(i as int)),
        decreases listed.len() - i,
    {
        assert(lv.take(i + 1).drop_last() =~= lv.take(i as int));
        assert(lv[i as int] == listed@[i as int]@);
        push_str(&mut out, feed_line_of(&listed[i]).as_str());
        i += 1;
    }
    assert(lv.take(listed.len() as int) =~= lv);
    out
}

/// The branch and path of a search feed selection: its first and third
/// tab-separated fields.
pub open spec fn search_selection_spec(selection: Seq<char>) -> Option<(Seq<char>, Seq<char>)> {
    let parts = split(selection, '\t');
    if parts.len() >= 3 {
        Some((parts[0], parts[2]))
    } else {
        None
    }
}

/// Extracts branch and path from a search feed selection.
pub fn parse_search_selection(selection: &str) -> (r: Option<(String, String)>)
    ensures
        match search_selection_spec(selection@) {
            Some((b, p)) => r matches Some((x, y)) && x@ == b && y@ == p,
            None => r is None,
        },
{
    let parts = split_chars(&chars_of(selection), '\t');
    if parts.len() >= 3 {
        Some((string_of(&parts[0]), string_of(&parts[2])))
    } else {
        None
    }
}

/// The change summary of the list table: `Nf +I -D`, or `-` when clean.
pub open spec fn changes_text(item: ListedView) -> Seq<char> {
    if item.changed_files == 0 {
        "-"@
    } else {
        decimal(item.changed_files as nat) + "f +"@ + decimal(item.insertions as nat) + " -"@ + decimal(item.deletions as nat)
    }
}

/// Formats the working-tree change summary for the list table.
pub fn format_changes(item: &ListedWorktree) -> (r: String)
    ensures
        r@ == changes_text(item@),
{
    if item.changed_files == 0 {
        return "-".to_string();
    }
    let mut out = decimal_string(item.changed_files as u64);
    push_str(&mut out, "f +");
    push_str(&mut out, decimal_string(item.insertions as u64).as_str());
    push_str(&mut out, " -");
    push_str(&mut out, decimal_string(item.deletions as u64).as_str());
    out
}

/// Idle days for the list table: `Nd`, or `-` when unknown.
pub open spec fn idle_text(idle_days: Option<u64>) -> Seq<char> {
    match idle_days {
        Some(d) => decimal(d as nat) + "d"@,
        None => "-"@,
    }
}

/// Formats idle-days for the list table.
pub fn format_idle(idle_days: Option<u64>) -> (r: String)
    ensures
        r@ == idle_text(idle_days),
{
    match idle_days {
        Some(d) => {
            let mut out = decimal_string(d);
            push_str(&mut out, "d");
            out
        },
        None => "-".to_string(),
    }
}

/// The header of the list table.
pub open spec fn list_header() -> Seq<char> {
    "Branch                         State      HEAD      Changes      Idle   Path\n"@
}

/// The branch column: the branch, or `detached:<short head>`.
pub open spec fn list_branch(wt: WorktreeView) -> Seq<char> {
    match wt.branch {
        Some(b) => b,
        None => "detached:"@ + short_head_spec(wt.head),
    }
}

/// One row of the list table; `@` marks the current worktree.
pub open spec fn list_row(current_root: Seq<char>, item: ListedView) -> Seq<char> {
    let wt = item.worktree;
    (if wt.path == current_root { "@"@ } else { " "@ }) + " "@ + pad_right(list_branch(wt), 30) + " "@
        + pad_right(state_text(list_states(item)), 10) + " "@ + pad_right(short_head_spec(wt.head), 8) + " "@
        + pad_right(changes_text(item), 12) + " "@ + pad_right(idle_text(item.idle_days), 6) + " "@ + wt.path
        + match item.description {
            Some(d) => "  "@ + d,
            None => ""@,
        } + "\n"@
}

/// The rows of the list table.
pub open spec fn list_rows(current_root: Seq<char>, items: Seq<ListedView>) -> Seq<char>
    decreases items.len(),
{
    if items.len() == 0 {
        Seq::<char>::empty()
    } else {
        list_rows(current_root, items.drop_last()) + list_row(current_root, items.last())
    }
}

fn list_row_of(current_root: &str, item: &ListedWorktree) -> (r: String)
    ensures
        r@ == list_row(current_root@, item@),
{
    let wt = &item.worktree;
    let mut states: Vec<String> = Vec::new();
    assert(states@.map_values(|w: String| w@) =~= Seq::<Seq<char>>::empty());
    push_label(&mut states, wt.is_primary, "primary");
    push_label(&mut states, wt.detached, "detached");
    push_label(&mut states, item.dirty, "dirty");
    push_label(&mut states, item.merged, "merged");
    push_label(&mut states, wt.prunable.is_some(), "missing");
    push_label(&mut states, wt.locked.is_some(), "locked");
    assert(states@.map_values(|w: String| w@) =~= list_states(item@));
    let head = short_head(opt_string_ref(&wt.head));
    let branch = match &wt.branch {
        Some(b) => b.clone(),
        None => {
            let mut b = "detached:".to_string();
            push_str(&mut b, head.as_str());
            b
        },
    };
    let mut out = String::new();
    push_str(&mut out, if str_eq(wt.path.as_str(), current_root) { "@" } else { " " });
    push_str(&mut out, " ");
    push_padded_right(&mut out, branch.as_str(), 30);
    push_str(&mut out, " ");
    push_padded_right(&mut out, state_string(&states).as_str(), 10);
    push_str(&mut out, " ");
    push_padded_right(&mut out, head.as_str(), 8);
    push_str(&mut out, " ");
    push_padded_right(&mut out, format_changes(item).as_str(), 12);
    push_str(&mut out, " ");
    push_padded_right(&mut out, format_idle(item.idle_days).as_str(), 6);
    push_str(&mut out, " ");
    push_str(&mut out, wt.path.as_str());
    match &item.description {
        Some(d) => {
            push_str(&mut out, "  ");
            push_str(&mut out, d.as_str());
        },
        None => push_str(&mut out, ""),
    }
    push_str(&mut out, "\n");
    out
}

/// Formats the human-readable worktree table.
pub fn format_list_text(repo: &Repo, listed: &[ListedWorktree]) -> (r: String)
    ensures
        r@ == list_header() + list_rows(repo.current_root@, listed_view(listed@)),
{
    let ghost lv = listed_view(listed@);
    let mut out = "Branch                         State      HEAD      Changes      Idle   Path\n".to_string();
    let mut i: usize = 0;
    while i < listed.len()
        invariant
            i <= listed.len(),
            lv == listed_view(listed@),
            out@ == list_header() + list_rows(repo.current_root@, lv.take(i as int)),
        decreases listed.len() - i,
    {
        assert(lv.take(i + 1).drop_last() =~= lv.take(i as int));
        assert(lv[i as int] == listed@[i as int]@);
        push_str(&mut out, list_row_of(repo.current_root.as_str(), &listed[i]).as_str());
        i += 1;
    }
    assert(lv.take(listed.len() as int) =~= lv);
    out
}

/// One JSON object of the listing.
pub open spec fn list_json_entry(item: ListedView) -> Seq<char> {
    let wt = item.worktree;
    "{\"path\":\""@ + json_escaped(wt.path) + "\",\"branch\":"@ + option_json_spec(wt.branch) + ",\"head\":"@
        + option_json_spec(wt.head) + ",\"primary\":"@ + bool_text(wt.is_primary) + ",\"detached\":"@
        + bool_text(wt.detached) + ",\"dirty\":"@ + bool_text(item.dirty) + ",\"merged\":"@ + bool_text(item.merged)
        + ",\"changed_files\":"@ + decimal(item.changed_files as nat) + ",\"insertions\":"@
        + decimal(item.insertions as nat) + ",\"deletions\":"@ + decimal(item.deletions as nat) + ",\"locked\":"@
        + option_json_spec(wt.locked) + ",\"prunable\":"@ + option_json_spec(wt.prunable) + ",\"idle_days\":"@
        + match item.idle_days {
            Some(d) => decimal(d as nat),
            None => "null"@,
        } + ",\"description\":"@ + option_json_spec(item.description) + "}"@
}

/// The JSON objects, comma-separated.
pub open spec fn list_json_entries(items: Seq<ListedView>) -> Seq<char>
    decreases items.len(),
{
    if items.len() == 0 {
        Seq::<char>::empty()
    } else if items.len() == 1 {
        list_json_entry(items[0])
    } else {
        list_json_entries(items.drop_last()) + ","@ + list_json_entry(items.last())
    }
}

fn list_json_of(item: &ListedWorktree) -> (r: String)
    ensures
        r@ == list_json_entry(item@),
{
    let wt = &item.worktree;
    let mut out = String::new();
    push_str(&mut out, "{\"path\":\"");
    assert(out@ =~= "{\"path\":\""@);
    push_json(&mut out, wt.path.as_str());
    push_str(&mut out, "\",\"branch\":");
    push_str(&mut out, option_json(opt_string_ref(&wt.branch)).as_str());
    push_str(&mut out, ",\"head\":");
    push_str(&mut out, option_json(opt_string_ref(&wt.head)).as_str());
    push_str(&mut out, ",\"primary\":");
    push_str(&mut out, bool_string(wt.is_primary).as_str());
    push_str(&mut out, ",\"detached\":");
    push_str(&mut out, bool_string(wt.detached).as_str());
    push_str(&mut out, ",\"dirty\":");
    push_str(&mut out, bool_string(item.dirty).as_str());
    push_str(&mut out, ",\"merged\":");
    push_str(&mut out, bool_string(item.merged).as_str());
    push_str(&mut out, ",\"changed_files\":");
    push_str(&mut out, decimal_string(item.changed_files as u64).as_str());
    push_str(&mut out, ",\"insertions\":");
    push_str(&mut out, decimal_string(item.insertions as u64).as_str());
    push_str(&mut out, ",\"deletions\":");
    push_str(&mut out, decimal_string(item.deletions as u64).as_str());
    push_str(&mut out, ",\"locked\":");
    push_str(&mut out, option_json(opt_string_ref(&wt.locked)).as_str());
    push_str(&mut out, ",\"prunable\":");
    push_str(&mut out, option_json(opt_string_ref(&wt.prunable)).as_str());
    push_str(&mut out, ",\"idle_days\":");
    match item.idle_days {
        Some(d) => push_str(&mut out, decimal_string(d).as_str()),
        None => push_str(&mut out, "null"),
    }
    push_str(&mut out, ",\"description\":");
    push_str(&mut out, option_json(opt_string_ref(&item.description)).as_str());
    push_str(&mut out, "}");
    out
}

/// Formats the worktree listing as JSON.
pub fn format_list_json(listed: &[ListedWorktree]) -> (r: String)
    ensures
        r@ == "["@ + list_json_entries(listed_view(listed@)) + "]\n"@,
{
    let ghost lv = listed_view(listed@);
    let mut out = "[".to_string();
    let mut i: usize = 0;
    while i < listed.len()
        invariant
            i <= listed.len(),
            lv == listed_view(listed@),
            out@ == "["@ + list_json_entries(lv.take(i as int)),
        decreases listed.len() - i,
    {
        assert(lv.take(i + 1).drop_last() =~= lv.take(i as int));
        assert(lv[i as int] == listed@[i as int]@);
        if i > 0 {
            push_str(&mut out, ",");
        } else {
            assert(list_json_entries(lv.take(0)) =~= Seq::<char>::empty());
            assert(out@ =~= "["@);
        }
        push_str(&mut out, list_json_of(&listed[i]).as_str());
        i += 1;
    }
    assert(lv.take(listed.len() as int) =~= lv);
    push_str(&mut out, "]\n");
    out
}

// ---------------------------------------------------------------------------
// Pruning
// ---------------------------------------------------------------------------

/// What happens to one prune candidate.
#[derive(Clone, Copy, Debug, PartialEq, Eq, Structural)]
pub enum PruneStep {
    /// Leave it alone.
    Skip,
    /// Report it as one that would be removed (dry run).
    Report,
    /// Ask for confirmation, then remove it.
    Confirm,
    /// Remove it.
    Remove,
}

/// The step for a worktree unused for too long: the primary worktree is
/// never pruned; a dirty one is kept unless forced (`dirty` is ignored when
/// forced); a dry run only reports; without `--yes` each removal is confirmed.
pub open spec fn age_prune_spec(primary: bool, force: bool, dirty: bool, dry_run: bool, yes: bool) -> PruneStep {
    if primary || (!force && dirty) {
        PruneStep::Skip
    } else if dry_run {
        PruneStep::Report
    } else if !yes {
        PruneStep::Confirm
    } else {
        PruneStep::Remove
    }
}

/// Decides the step for a worktree unused for too long.
pub fn age_prune_step(primary: bool, force: bool, dirty: bool, dry_run: bool, yes: bool) -> (r: PruneStep)
    ensures
        r == age_prune_spec(primary, force, dirty, dry_run, yes),
        primary ==> r == PruneStep::Skip,
{
    if primary || (!force && dirty) {
        PruneStep::Skip
    } else if dry_run {
        PruneStep::Report
    } else if !yes {
        PruneStep::Confirm
    } else {
        PruneStep::Remove
    }
}

/// The step for a worktree on a merged branch: only clean, merged, linked
/// worktrees on a branch, not already pruned by age, are pruned.
pub open spec fn merged_prune_spec(
    primary: bool,
    on_branch: bool,
    already_pruned: bool,
    merged: bool,
    dirty: bool,
    dry_run: bool,
    yes: bool,
) -> PruneStep {
    if primary || !on_branch || already_pruned || !merged || dirty {
        PruneStep::Skip
    } else if dry_run {
        PruneStep::Report
    } else if !yes {
        PruneStep::Confirm
    } else {
        PruneStep::Remove
    }
}

/// Decides the step for a worktree on a merged branch (`merged` and `dirty`
/// are only consulted for a linked worktree on a branch not pruned yet).
pub fn merged_prune_step(
    primary: bool,
    on_branch: bool,
    already_pruned: bool,
    merged: bool,
    dirty: bool,
    dry_run: bool,
    yes: bool,
) -> (r: PruneStep)
    ensures
        r == merged_prune_spec(primary, on_branch, already_pruned, merged, dirty, dry_run, yes),
        r != PruneStep::Skip ==> !primary && on_branch && merged && !dirty,
{
    if primary || !on_branch || already_pruned || !merged || dirty {
        PruneStep::Skip
    } else if dry_run {
        PruneStep::Report
    } else if !yes {
        PruneStep::Confirm
    } else {
        PruneStep::Remove
    }
}

/// Index of the first worktree at `path`.
pub open spec fn path_index(ws: Seq<WorktreeView>, path: Seq<char>) -> Option<int>
    decreases ws.len(),
{
    if ws.len() == 0 {
        None
    } else {
        match path_index(ws.drop_last(), path) {
            Some(i) => Some(i),
            None => if ws.last().path == path { Some(ws.len() - 1) } else { None },
        }
    }
}

/// Finds the registered worktree at `path`.
pub fn find_by_path(worktrees: &[Worktree], path: &str) -> (r: Option<usize>)
    ensures
        match path_index(worktrees_view(worktrees@), path@) {
            Some(i) => r == Some(i as usize) && 0 <= i < worktrees@.len(),
            None => r is None,
        },
{
    let ghost wv = worktrees_view(worktrees@);
    let mut i: usize = 0;
    while i < worktrees.len()
        invariant
            i <= worktrees.len(),
            wv == worktrees_view(worktrees@),
            path_index(wv.take(i as int), path@) is None,
        decreases worktrees.len() - i,
    {
        assert(wv.take(i + 1).drop_last() =~= wv.take(i as int));
        assert(wv[i as int] == worktrees@[i as int]@);
        if str_eq(worktrees[i].path.as_str(), path) {
            proof { lemma_path_index_prefix(wv, path@, i as int); }
            return Some(i);
        }
        i += 1;
    }
    assert(wv.take(worktrees.len() as int) =~= wv);
    None
}

proof fn lemma_path_index_prefix(ws: Seq<WorktreeView>, path: Seq<char>, i: int)
    requires
        0 <= i < ws.len(),
        path_index(ws.take(i), path) is None,
        ws[i].path == path,
    ensures
        path_index(ws, path) == Some(i),
    decreases ws.len(),
{
    if i == ws.len() - 1 {
        assert(ws.drop_last() =~= ws.take(i));
    } else {
        assert(ws.drop_last().take(i) =~= ws.take(i));
        lemma_path_index_prefix(ws.drop_last(), path, i);
    }
}

/// Whether a path was already pruned.
pub fn already_removed(removed: &[(String, String)], path: &str) -> (r: bool)
    ensures
        r == exists|k: int| 0 <= k < removed@.len() && (#[trigger] removed@[k]).1@ == path@,
{
    let mut i: usize = 0;
    while i < removed.len()
        invariant
            i <= removed.len(),
            forall|k: int| 0 <= k < i ==> (#[trigger] removed@[k]).1@ != path@,
        decreases removed.len() - i,
    {
        if str_eq(removed[i].1.as_str(), path) {
            return true;
        }
        i += 1;
    }
    false
}

/// One removed worktree as JSON.
pub open spec fn removed_json(item: (Seq<char>, Seq<char>)) -> Seq<char> {
    "{\"branch\":\""@ + json_escaped(item.0) + "\",\"path\":\""@ + json_escaped(item.1) + "\"}"@
}

/// The removed worktrees as JSON objects, comma-separated.
pub open spec fn removed_json_list(items: Seq<(Seq<char>, Seq<char>)>) -> Seq<char>
    decreases items.len(),
{
    if items.len() == 0 {
        Seq::<char>::empty()
    } else if items.len() == 1 {
        removed_json(items[0])
    } else {
        removed_json_list(items.drop_last()) + ","@ + removed_json(items.last())
    }
}

/// One removed worktree as a text line.
pub open spec fn removed_line(item: (Seq<char>, Seq<char>), dry_run: bool) -> Seq<char> {
    (if dry_run { "Would remove worktree "@ } else { "Removed worktree "@ }) + item.0 + " @ "@ + item.1 + "\n"@
}

/// The removed worktrees as text lines.
pub open spec fn removed_lines(items: Seq<(Seq<char>, Seq<char>)>, dry_run: bool) -> Seq<char>
    decreases items.len(),
{
    if items.len() == 0 {
        Seq::<char>::empty()
    } else {
        removed_lines(items.drop_last(), dry_run) + removed_line(items.last(), dry_run)
    }
}

/// Pairs of texts taken by their views.
pub open spec fn pairs_view(v: Seq<(String, String)>) -> Seq<(Seq<char>, Seq<char>)> {
    v.map_values(|p: (String, String)| (p.0@, p.1@))
}

/// The `gat prune` report for each format: Git's own stale-metadata report,
/// then the worktrees removed (or that would be).
pub open spec fn prune_report_text(stale_output: Seq<char>, removed: Seq<(Seq<char>, Seq<char>)>, dry_run: bool, format: OutputFormat) -> Seq<char> {
    match format {
        OutputFormat::Json => "{\"status\":\"ok\",\"dry_run\":"@ + bool_text(dry_run) + ",\"stale_output\":\""@
            + json_escaped(trim(stale_output)) + "\",\"removed\":["@ + removed_json_list(removed) + "]}\n"@,
        _ => (if trim(stale_output).len() == 0 {
            "No stale worktree metadata.\n"@
        } else {
            trim(stale_output) + "\n"@
        }) + removed_lines(removed, dry_run),
    }
}

/// Formats the `gat prune` report.
pub fn format_prune_report(stale_output: &str, removed: &[(String, String)], dry_run: bool, format: OutputFormat) -> (r: String)
    ensures
        r@ == prune_report_text(stale_output@, pairs_view(removed@), dry_run, format),
{
    let ghost rv = pairs_view(removed@);
    let stale = string_of(&trim_chars(&chars_of(stale_output)));
    let mut out = String::new();
    match format {
        OutputFormat::Json => {
            push_str(&mut out, "{\"status\":\"ok\",\"dry_run\":");
            assert(out@ =~= "{\"status\":\"ok\",\"dry_run\":"@);
            push_str(&mut out, bool_string(dry_run).as_str());
            push_str(&mut out, ",\"stale_output\":\"");
            push_json(&mut out, stale.as_str());
            push_str(&mut out, "\",\"removed\":[");
            let ghost before = out@;
            let mut i: usize = 0;
            while i < removed.len()
                invariant
                    i <= removed.len(),
                    rv == pairs_view(removed@),
                    out@ == before + removed_json_list(rv.take(i as int)),
                decreases removed.len() - i,
            {
                assert(rv.take(i + 1).drop_last() =~= rv.take(i as int));
                assert(rv[i as int] == (removed@[i as int].0@, removed@[i as int].1@));
                if i > 0 {
                    push_str(&mut out, ",");
                } else {
                    assert(removed_json_list(rv.take(0)) =~= Seq::<char>::empty());
                    assert(out@ =~= before);
                }
                push_str(&mut out, "{\"branch\":\"");
                push_json(&mut out, removed[i].0.as_str());
                push_str(&mut out, "\",\"path\":\"");
                push_json(&mut out, removed[i].1.as_str());
                push_str(&mut out, "\"}");
                i += 1;
            }
            assert(rv.take(removed.len() as int) =~= rv);
            push_str(&mut out, "]}\n");
        },
        _ => {
            if chars_of(stale.as_str()).len() == 0 {
                push_str(&mut out, "No stale worktree metadata.\n");
            } else {
                push_str(&mut out, stale.as_str());
                push_str(&mut out, "\n");
            }
            let ghost before = out@;
            let mut i: usize = 0;
            assert(removed_lines(rv.take(0), dry_run) =~= Seq::<char>::empty());
            assert(out@ =~= before + removed_lines(rv.take(0), dry_run));
            while i < removed.len()
                invariant
                    i <= removed.len(),
                    rv == pairs_view(removed@),
                    out@ == before + removed_lines(rv.take(i as int), dry_run),
                decreases removed.len() - i,
            {
                assert(rv.take(i + 1).drop_last() =~= rv.take(i as int));
                assert(rv[i as int] == (removed@[i as int].0@, removed@[i as int].1@));
                push_str(&mut out, if dry_run { "Would remove worktree " } else { "Removed worktree " });
                push_str(&mut out, removed[i].0.as_str());
                push_str(&mut out, " @ ");
                push_str(&mut out, removed[i].1.as_str());
                push_str(&mut out, "\n");
                i += 1;
            }
            assert(rv.take(removed.len() as int) =~= rv);
        },
    }
    out
}

// ---------------------------------------------------------------------------
// The stale-worktree hint
// ---------------------------------------------------------------------------

/// How many leading entries were idle at least `days` days.
pub open spec fn first_below(s: Seq<(Seq<char>, u64)>, days: u64) -> nat
    decreases s.len(),
{
    if s.len() == 0 {
        0
    } else if s[0].1 < days {
        0
    } else {
        1 + first_below(s.drop_first(), days)
    }
}

/// `s` (most idle first) with `x` placed after every entry idle at least as
/// long, so that equally idle entries keep their order.
pub open spec fn insert_by_idle(s: Seq<(Seq<char>, u64)>, x: (Seq<char>, u64)) -> Seq<(Seq<char>, u64)> {
    s.insert(first_below(s, x.1) as int, x)
}

/// The entries ordered most idle first; a stable sort, as `sort_by` is.
pub open spec fn sorted_by_idle(s: Seq<(Seq<char>, u64)>) -> Seq<(Seq<char>, u64)>
    decreases s.len(),
{
    if s.len() == 0 {
        s
    } else {
        insert_by_idle(sorted_by_idle(s.drop_last()), s.last())
    }
}

proof fn lemma_first_below_le(s: Seq<(Seq<char>, u64)>, days: u64)
    ensures
        first_below(s, days) <= s.len(),
    decreases s.len(),
{
    if s.len() > 0 && s[0].1 >= days {
        lemma_first_below_le(s.drop_first(), days);
    }
}

proof fn lemma_sorted_len(s: Seq<(Seq<char>, u64)>)
    ensures
        sorted_by_idle(s).len() == s.len(),
    decreases s.len(),
{
    if s.len() > 0 {
        lemma_sorted_len(s.drop_last());
        lemma_first_below_le(sorted_by_idle(s.drop_last()), s.last().1);
    }
}

proof fn lemma_first_below_props(s: Seq<(Seq<char>, u64)>, days: u64)
    ensures
        first_below(s, days) <= s.len(),
        forall|k: int| 0 <= k < first_below(s, days) ==> #[trigger] s[k].1 >= days,
        first_below(s, days) < s.len() ==> s[first_below(s, days) as int].1 < days,
    decreases s.len(),
{
    if s.len() > 0 && s[0].1 >= days {
        lemma_first_below_props(s.drop_first(), days);
        let t = s.drop_first();
        assert forall|k: int| 0 <= k < first_below(s, days) implies #[trigger] s[k].1 >= days by {
            if k > 0 {
                assert(s[k] == t[k - 1]);
            }
        }
        if first_below(s, days) < s.len() {
            assert(s[first_below(s, days) as int] == t[first_below(t, days) as int]);
        }
    }
}

/// Entries ordered by idle days, most idle first.
pub open spec fn most_idle_first(s: Seq<(Seq<char>, u64)>) -> bool {
    forall|i: int, j: int| 0 <= i < j < s.len() ==> #[trigger] s[j].1 <= #[trigger] s[i].1
}

/// The stale-worktree hint lists the worktrees most idle first: the order
/// is by idle days, largest first, and it holds the same entries, each as
/// often as given.
pub proof fn lemma_sorted_by_idle(s: Seq<(Seq<char>, u64)>)
    ensures
        most_idle_first(sorted_by_idle(s)),
        sorted_by_idle(s).to_multiset() == s.to_multiset(),
    decreases s.len(),
{
    broadcast use vstd::seq_lib::group_to_multiset_ensures;
    if s.len() == 0 {
        assert(sorted_by_idle(s) == s);
    } else {
        lemma_sorted_by_idle(s.drop_last());
        let r = sorted_by_idle(s.drop_last());
        let x = s.last();
        lemma_first_below_props(r, x.1);
        let p = first_below(r, x.1) as int;
        let q = r.insert(p, x);
        assert(sorted_by_idle(s) == q);
        assert forall|i: int, j: int| 0 <= i < j < q.len() implies #[trigger] q[j].1 <= #[trigger] q[i].1 by {
            if j < p {
                assert(q[i] == r[i] && q[j] == r[j]);
            } else if j == p {
                assert(q[i] == r[i] && q[j] == x);
            } else if i < p {
                assert(q[i] == r[i] && q[j] == r[j - 1]);
            } else if i == p {
                assert(q[i] == x && q[j] == r[j - 1]);
                assert(r[j - 1].1 <= r[p].1);
            } else {
                assert(q[i] == r[i - 1] && q[j] == r[j - 1]);
            }
        }
        assert(s.drop_last().push(x) =~= s);
        assert(q.to_multiset() == r.to_multiset().insert(x));
        assert(s.to_multiset() == s.drop_last().to_multiset().insert(x));
    }
}

/// Inserts an entry by idle time.
fn insert_idle(v: &mut Vec<(String, u64)>, x: (String, u64))
    ensures
        pairs_days_view(final(v)@) == insert_by_idle(pairs_days_view(old(v)@), (x.0@, x.1)),
{
    let ghost s = pairs_days_view(v@);
    let mut i: usize = 0;
    assert(s.skip(0) =~= s);
    while i < v.len() && v[i].1 >= x.1
        invariant
            i <= v.len(),
            s == pairs_days_view(v@),
            first_below(s, x.1) == i + first_below(s.skip(i as int), x.1),
        decreases v.len() - i,
    {
        assert(s.skip(i as int)[0] == s[i as int]);
        assert(s.skip(i as int).drop_first() =~= s.skip(i + 1));
        i += 1;
    }
    if i < v.len() {
        assert(s.skip(i as int)[0] == s[i as int]);
    } else {
        assert(s.skip(i as int).len() == 0);
    }
    let ghost xv = (x.0@, x.1);
    v.insert(i, x);
    assert(pairs_days_view(v@) =~= s.insert(i as int, xv));
}

/// Pairs of a text and a day count taken by their views.
pub open spec fn pairs_days_view(v: Seq<(String, u64)>) -> Seq<(Seq<char>, u64)> {
    v.map_values(|p: (String, u64)| (p.0@, p.1))
}

/// The stale entries still registered with Git, as branch and idle days.
pub open spec fn live_stale(stale: Seq<MetaView>, live: Seq<Seq<char>>, s: Seq<MetaView>, now: u64) -> Seq<(Seq<char>, u64)>
    decreases stale.len(),
{
    if stale.len() == 0 {
        Seq::<(Seq<char>, u64)>::empty()
    } else {
        let prev = live_stale(stale.drop_last(), live, s, now);
        let m = stale.last();
        if live.contains(m.path) {
            prev.push((m.branch, match days_since_access_spec(s, m.path, now, None) {
                Some(d) => d,
                None => 0,
            }))
        } else {
            prev
        }
    }
}

/// The idle-entry lines of the hint.
pub open spec fn stale_lines(entries: Seq<(Seq<char>, u64)>) -> Seq<char>
    decreases entries.len(),
{
    if entries.len() == 0 {
        Seq::<char>::empty()
    } else {
        stale_lines(entries.drop_last()) + "  "@ + entries.last().0 + " - "@ + decimal(entries.last().1 as nat) + "d unused\n"@
    }
}

/// The hint text for entries ordered most idle first; empty when none.
pub open spec fn stale_hint_text(entries: Seq<(Seq<char>, u64)>) -> Seq<char> {
    if entries.len() == 0 {
        Seq::<char>::empty()
    } else {
        "\nStale worktrees (>30d unused): "@ + decimal(entries.len()) + "\n"@ + stale_lines(entries)
            + "Run: gat prune --older-than 30\n"@
    }
}

/// The doctor hint about worktrees unused for more than 30 days at time
/// `now`, most idle first; only worktrees Git still knows (`live_paths`)
/// count.
pub fn stale_worktree_hint_at(store: &MetadataStore, live_paths: &[String], now: u64) -> (r: String)
    ensures
        r@ == stale_hint_text(sorted_by_idle(live_stale(stale_spec(store@, stale_threshold(30, now)), live_paths@.map_values(|p: String| p@), store@, now))),
{
    let ghost live = live_paths@.map_values(|p: String| p@);
    let stale = store.stale_worktrees_at(30, now);
    let ghost sv = stale@.map_values(|m: &WorktreeMetadata| m@);
    let mut entries: Vec<(String, u64)> = Vec::new();
    let mut i: usize = 0;
    while i < stale.len()
        invariant
            i <= stale.len(),
            sv == stale@.map_values(|m: &WorktreeMetadata| m@),
            live == live_paths@.map_values(|p: String| p@),
            pairs_days_view(entries@) == sorted_by_idle(live_stale(sv.take(i as int), live, store@, now)),
        decreases stale.len() - i,
    {
        assert(sv.take(i + 1).drop_last() =~= sv.take(i as int));
        assert(sv[i as int] == stale@[i as int]@);
        let m = stale[i];
        let ghost prev = live_stale(sv.take(i as int), live, store@, now);
        if contains_text(live_paths, m.path.as_str()) {
            let days = match store.days_since_access_at(m.path.as_str(), now, None) {
                Some(d) => d,
                None => 0,
            };
            let ghost item = (m.branch@, days);
            assert(live_stale(sv.take(i + 1), live, store@, now) == prev.push(item));
            assert(prev.push(item).drop_last() =~= prev);
            insert_idle(&mut entries, (m.branch.clone(), days));
        }
        i += 1;
    }
    assert(sv.take(stale.len() as int) =~= sv);
    let ghost sorted = pairs_days_view(entries@);
    if entries.len() == 0 {
        return String::new();
    }
    let mut out = "\nStale worktrees (>30d unused): ".to_string();
    push_str(&mut out, decimal_string(entries.len() as u64).as_str());
    push_str(&mut out, "\n");
    let ghost before = out@;
    let mut k: usize = 0;
    assert(stale_lines(sorted.take(0)) =~= Seq::<char>::empty());
    assert(out@ =~= before + stale_lines(sorted.take(0)));
    while k < entries.len()
        invariant
            k <= entries.len(),
            sorted == pairs_days_view(entries@),
            out@ == before + stale_lines(sorted.take(k as int)),
        decreases entries.len() - k,
    {
        assert(sorted.take(k + 1).drop_last() =~= sorted.take(k as int));
        assert(sorted[k as int] == (entries@[k as int].0@, entries@[k as int].1));
        push_str(&mut out, "  ");
        push_str(&mut out, entries[k].0.as_str());
        push_str(&mut out, " - ");
        push_str(&mut out, decimal_string(entries[k].1).as_str());
        push_str(&mut out, "d unused\n");
        k += 1;
    }
    assert(sorted.take(entries.len() as int) =~= sorted);
    push_str(&mut out, "Run: gat prune --older-than 30\n");
    out
}

/// Whether `v` holds the text `s`.
pub fn contains_text(v: &[String], s: &str) -> (r: bool)
    ensures
        r == v@.map_values(|p: String| p@).contains(s@),
{
    let ghost vv = v@.map_values(|p: String| p@);
    let mut i: usize = 0;
    while i < v.len()
        invariant
            i <= v.len(),
            vv == v@.map_values(|p: String| p@),
            forall|k: int| 0 <= k < i ==> vv[k] != s@,
        decreases v.len() - i,
    {
        assert(vv[i as int] == v@[i as int]@);
        if str_eq(v[i].as_str(), s) {
            return true;
        }
        i += 1;
    }
    false
}

// ---------------------------------------------------------------------------
// Configuration commands
// ---------------------------------------------------------------------------

/// Configuration entries taken by their views.
pub open spec fn entries_view(v: Seq<(&'static str, String)>) -> Seq<(Seq<char>, Seq<char>)> {
    v.map_values(|e: (&'static str, String)| (e.0@, e.1@))
}

/// One entry as a JSON member.
pub open spec fn entry_json(e: (Seq<char>, Seq<char>)) -> Seq<char> {
    "\""@ + json_escaped(e.0) + "\":\""@ + json_escaped(e.1) + "\""@
}

/// The entries as JSON members, comma-separated.
pub open spec fn entries_json(es: Seq<(Seq<char>, Seq<char>)>) -> Seq<char>
    decreases es.len(),
{
    if es.len() == 0 {
        Seq::<char>::empty()
    } else if es.len() == 1 {
        entry_json(es[0])
    } else {
        entries_json(es.drop_last()) + ","@ + entry_json(es.last())
    }
}

/// The entries as `key = value` lines.
pub open spec fn entries_text(es: Seq<(Seq<char>, Seq<char>)>) -> Seq<char>
    decreases es.len(),
{
    if es.len() == 0 {
        Seq::<char>::empty()
    } else {
        entries_text(es.drop_last()) + es.last().0 + " = "@ + es.last().1 + "\n"@
    }
}

/// `gat config list` output for each format.
pub open spec fn config_list_text(es: Seq<(Seq<char>, Seq<char>)>, format: OutputFormat) -> Seq<char> {
    match format {
        OutputFormat::Json => "{"@ + entries_json(es) + "}\n"@,
        _ => entries_text(es),
    }
}

/// Formats `gat config list` output.
pub fn format_config_list(entries: &[(&'static str, String)], format: OutputFormat) -> (r: String)
    ensures
        r@ == config_list_text(entries_view(entries@), format),
{
    let ghost ev = entries_view(entries@);
    let mut out = String::new();
    let json = match format {
        OutputFormat::Json => true,
        _ => false,
    };
    if json {
        push_str(&mut out, "{");
    }
    let ghost before = out@;
    assert(entries_json(ev.take(0)) =~= Seq::<char>::empty());
    assert(entries_text(ev.take(0)) =~= Seq::<char>::empty());
    let mut i: usize = 0;
    while i < entries.len()
        invariant
            i <= entries.len(),
            ev == entries_view(entries@),
            out@ == before + (if json { entries_json(ev.take(i as int)) } else { entries_text(ev.take(i as int)) }),
        decreases entries.len() - i,
    {
        assert(ev.take(i + 1).drop_last() =~= ev.take(i as int));
        assert(ev[i as int] == (entries@[i as int].0@, entries@[i as int].1@));
        if json {
            if i > 0 {
                push_str(&mut out, ",");
            }
            push_str(&mut out, "\"");
            push_json(&mut out, entries[i].0);
            push_str(&mut out, "\":\"");
            push_json(&mut out, entries[i].1.as_str());
            push_str(&mut out, "\"");
        } else {
            push_str(&mut out, entries[i].0);
            push_str(&mut out, " = ");
            push_str(&mut out, entries[i].1.as_str());
            push_str(&mut out, "\n");
        }
        i += 1;
    }
    assert(ev.take(entries.len() as int) =~= ev);
    if json {
        push_str(&mut out, "}\n");
    }
    out
}

/// `gat config get` output: the value, or an error when the key is unset.
pub open spec fn config_get_spec(key: Seq<char>, value: Option<Seq<char>>) -> core::result::Result<Seq<char>, ErrorView> {
    match value {
        Some(v) => Ok(v + "\n"@),
        None => Err(GatError::NotFound("config key '"@ + key + "' is not set"@)),
    }
}

/// Formats `gat config get` output.
pub fn format_config_get(key: &str, value: Option<String>) -> (r: Result<String>)
    ensures
        result_view(r) == config_get_spec(key@, opt_view(value)),
{
    match value {
        Some(v) => {
            let mut out = v;
            push_str(&mut out, "\n");
            Ok(out)
        },
        None => Err(GatError::NotFound(message3("config key '", key, "' is not set"))),
    }
}

/// `gat config init` refuses to overwrite an existing file unless forced.
pub open spec fn config_init_spec(path: Seq<char>, exists: bool, force: bool) -> core::result::Result<(), ErrorView> {
    if exists && !force {
        Err(GatError::Unsafe("config file already exists at "@ + path + "; pass --force to overwrite"@))
    } else {
        Ok(())
    }
}

/// Checks whether `gat config init` may write the file.
pub fn check_config_init(path: &str, exists: bool, force: bool) -> (r: Result<()>)
    ensures
        match r {
            Ok(()) => config_init_spec(path@, exists, force) is Ok,
            Err(e) => config_init_spec(path@, exists, force) == Err::<(), ErrorView>(e@),
        },
{
    if exists && !force {
        return Err(GatError::Unsafe(message3("config file already exists at ", path, "; pass --force to overwrite")));
    }
    Ok(())
}

// ---------------------------------------------------------------------------
// Shell integration
// ---------------------------------------------------------------------------

/// The bash/zsh integration: a `gat` function that evaluates shell-format
/// output and changes directory.
pub const POSIX_SHELL_INIT: &'static str = r#"# gat shell integration
# Add this to your shell rc:
#   eval "$(gat shell-init --shell bash)"
gat() {
    local _gat_arg
    for _gat_arg in "$@"; do
        case "$_gat_arg" in
            --format|--format=*|--json|--shell)
                GAT_SHELL_INTEGRATION=1 command gat "$@"
                return
                ;;
        esac
    done

    if [ "$#" -gt 0 ]; then
        case "$1" in
            new|add|go|search|find)
                if [ "$1" = "search" ] || [ "$1" = "find" ]; then
                    local _gat_search_arg
                    for _gat_search_arg in "$@"; do
                        case "$_gat_search_arg" in
                            --print|--no-fzf|--path|--tmux)
                                GAT_SHELL_INTEGRATION=1 command gat "$@"
                                return
                                ;;
                        esac
                    done
                fi
                local _gat_out _gat_status
                unset GAT_STATUS GAT_ACTION GAT_TICKET GAT_BRANCH GAT_BASE GAT_TARGET GAT_PATH GAT_MESSAGE
                _gat_out="$(GAT_SHELL_INTEGRATION=1 command gat "$@" --format shell)"
                _gat_status=$?
                if [ $_gat_status -ne 0 ]; then
                    printf '%s\n' "$_gat_out" >&2
                    return $_gat_status
                fi
                eval "$_gat_out"
                if [ -n "${GAT_MESSAGE:-}" ]; then
                    printf '%s\n' "$GAT_MESSAGE"
                fi
                if [ -n "${GAT_PATH:-}" ] && [ -d "$GAT_PATH" ]; then
                    cd "$GAT_PATH" || return
                fi
                return 0
                ;;
            -*|help|version|list|ls|watch|path|switch|describe|desc|sessions|tmux|session|start|dx|docker|rm|remove|delete|archive|prune|shell-init|doctor)
                GAT_SHELL_INTEGRATION=1 command gat "$@"
                return
                ;;
            *)
                local _gat_out _gat_status
                unset GAT_STATUS GAT_ACTION GAT_TICKET GAT_BRANCH GAT_BASE GAT_TARGET GAT_PATH GAT_MESSAGE
                _gat_out="$(GAT_SHELL_INTEGRATION=1 command gat "$@" --format shell)"
                _gat_status=$?
                if [ $_gat_status -ne 0 ]; then
                    printf '%s\n' "$_gat_out" >&2
                    return $_gat_status
                fi
                eval "$_gat_out"
                if [ -n "${GAT_MESSAGE:-}" ]; then
                    printf '%s\n' "$GAT_MESSAGE"
                fi
                if [ -n "${GAT_PATH:-}" ] && [ -d "$GAT_PATH" ]; then
                    cd "$GAT_PATH" || return
                fi
                return 0
                ;;
        esac
    fi
    GAT_SHELL_INTEGRATION=1 command gat "$@"
}
"#;

/// The fish integration.
pub const FISH_SHELL_INIT: &'static str = r#"# gat fish shell integration
function gat
    command gat $argv
end
"#;

/// Emits shell functions that can `cd` after gat computes a target path.
pub fn shell_init_script(shell: Shell) -> (r: &'static str)
    ensures
        r@ == (match shell {
            Shell::Fish => FISH_SHELL_INIT@,
            _ => POSIX_SHELL_INIT@,
        }),
{
    match shell {
        Shell::Bash | Shell::Zsh => POSIX_SHELL_INIT,
        Shell::Fish => FISH_SHELL_INIT,
    }
}

// ---------------------------------------------------------------------------
// Doctor
// ---------------------------------------------------------------------------

/// Which workflow tools are on `PATH`.
#[derive(Clone, Copy, Debug)]
pub struct ToolPresence {
    pub docker: bool,
    pub tmux: bool,
    pub codex: bool,
    pub nvim: bool,
    pub fzf: bool,
}

/// The tools as a JSON object.
pub open spec fn tools_json(t: ToolPresence) -> Seq<char> {
    "{\"docker\":"@ + bool_text(t.docker) + ",\"tmux\":"@ + bool_text(t.tmux) + ",\"codex\":"@ + bool_text(t.codex)
        + ",\"nvim\":"@ + bool_text(t.nvim) + ",\"fzf\":"@ + bool_text(t.fzf) + "}"@
}

/// The tools as a text line.
pub open spec fn tools_text(t: ToolPresence) -> Seq<char> {
    "Tools: docker="@ + yes_no_spec(t.docker) + " tmux="@ + yes_no_spec(t.tmux) + " codex="@ + yes_no_spec(t.codex)
        + " nvim="@ + yes_no_spec(t.nvim) + " fzf="@ + yes_no_spec(t.fzf)
}

/// The hint shown when the shell integration is not active.
pub open spec fn shell_hint_text(shell_integration: bool) -> Seq<char> {
    if shell_integration {
        ""@
    } else {
        "\nShell integration is inactive. Add `eval \"$(gat shell-init --shell bash)\"` to enable automatic `cd` for `gat 12345`, `gat go`, and `gat search`.\n"@
    }
}

/// The doctor report for a repository: each format, given the Git version,
/// the repository's ticket prefix, the shell integration state, the tools,
/// and the stale-worktree hint.
pub open spec fn doctor_ok_text(
    git_version: Seq<char>,
    repo: (Seq<char>, Seq<char>, Seq<char>, Seq<char>),
    ticket_prefix: Option<Seq<char>>,
    shell_integration: bool,
    tools: ToolPresence,
    stale_hint: Seq<char>,
    format: OutputFormat,
) -> Seq<char> {
    match format {
        OutputFormat::Json => "{\"status\":\"ok\",\"git\":\""@ + json_escaped(git_version) + "\",\"current_root\":\""@
            + json_escaped(repo.0) + "\",\"primary_root\":\""@ + json_escaped(repo.1) + "\",\"repo_name\":\""@
            + json_escaped(repo.2) + "\",\"ticket_prefix\":"@ + option_json_spec(ticket_prefix) + ",\"shell_integration\":"@
            + bool_text(shell_integration) + ",\"tools\":"@ + tools_json(tools) + "}\n"@,
        _ => "gat doctor\nGit: "@ + git_version + "\nCurrent root: "@ + repo.0 + "\nPrimary root: "@ + repo.1
            + "\nRepo name: "@ + repo.2 + "\nRepo parent: "@ + repo.3 + "\nTicket prefix: "@ + match ticket_prefix {
                Some(p) => p,
                None => "TICKET"@,
            } + "\nShell integration: "@ + yes_no_spec(shell_integration) + "\n"@ + tools_text(tools) + stale_hint
            + shell_hint_text(shell_integration),
    }
}

/// The doctor report when no repository was found.
pub open spec fn doctor_err_text(git_version: Seq<char>, message: Seq<char>, shell_integration: bool, tools: ToolPresence, format: OutputFormat) -> Seq<char> {
    match format {
        OutputFormat::Json => "{\"status\":\"error\",\"git\":\""@ + json_escaped(git_version) + "\",\"message\":\""@
            + json_escaped(message) + "\",\"shell_integration\":"@ + bool_text(shell_integration) + ",\"tools\":"@
            + tools_json(tools) + "}\n"@,
        _ => "gat doctor\nGit: "@ + git_version + "\nRepository: "@ + message + "\nShell integration: "@
            + yes_no_spec(shell_integration) + "\n"@ + tools_text(tools) + "\n"@,
    }
}

fn tools_json_string(t: ToolPresence) -> (r: String)
    ensures
        r@ == tools_json(t),
{
    let mut out = String::new();
    push_str(&mut out, "{\"docker\":");
    assert(out@ =~= "{\"docker\":"@);
    push_str(&mut out, bool_string(t.docker).as_str());
    push_str(&mut out, ",\"tmux\":");
    push_str(&mut out, bool_string(t.tmux).as_str());
    push_str(&mut out, ",\"codex\":");
    push_str(&mut out, bool_string(t.codex).as_str());
    push_str(&mut out, ",\"nvim\":");
    push_str(&mut out, bool_string(t.nvim).as_str());
    push_str(&mut out, ",\"fzf\":");
    push_str(&mut out, bool_string(t.fzf).as_str());
    push_str(&mut out, "}");
    out
}

fn tools_text_string(t: ToolPresence) -> (r: String)
    ensures
        r@ == tools_text(t),
{
    let mut out = String::new();
    push_str(&mut out, "Tools: docker=");
    assert(out@ =~= "Tools: docker="@);
    push_str(&mut out, yes_no(t.docker));
    push_str(&mut out, " tmux=");
    push_str(&mut out, yes_no(t.tmux));
    push_str(&mut out, " codex=");
    push_str(&mut out, yes_no(t.codex));
    push_str(&mut out, " nvim=");
    push_str(&mut out, yes_no(t.nvim));
    push_str(&mut out, " fzf=");
    push_str(&mut out, yes_no(t.fzf));
    out
}

/// Formats the doctor report for a repository.
pub fn format_doctor_ok(
    git_version: &str,
    repo: &Repo,
    ticket_prefix: Option<&str>,
    shell_integration: bool,
    tools: ToolPresence,
    stale_hint: &str,
    format: OutputFormat,
) -> (r: String)
    ensures
        r@ == doctor_ok_text(git_version@, (repo.current_root@, repo.primary_root@, repo.repo_name@, repo.repo_parent@),
            opt_str_view(ticket_prefix), shell_integration, tools, stale_hint@, format),
{
    let mut out = String::new();
    match format {
        OutputFormat::Json => {
            push_str(&mut out, "{\"status\":\"ok\",\"git\":\"");
            assert(out@ =~= "{\"status\":\"ok\",\"git\":\""@);
            push_json(&mut out, git_version);
            push_str(&mut out, "\",\"current_root\":\"");
            push_json(&mut out, repo.current_root.as_str());
            push_str(&mut out, "\",\"primary_root\":\"");
            push_json(&mut out, repo.primary_root.as_str());
            push_str(&mut out, "\",\"repo_name\":\"");
            push_json(&mut out, repo.repo_name.as_str());
            push_str(&mut out, "\",\"ticket_prefix\":");
            push_str(&mut out, option_json(ticket_prefix).as_str());
            push_str(&mut out, ",\"shell_integration\":");
            push_str(&mut out, bool_string(shell_integration).as_str());
            push_str(&mut out, ",\"tools\":");
            push_str(&mut out, tools_json_string(tools).as_str());
            push_str(&mut out, "}\n");
        },
        _ => {
            push_str(&mut out, "gat doctor\nGit: ");
            assert(out@ =~= "gat doctor\nGit: "@);
            push_str(&mut out, git_version);
            push_str(&mut out, "\nCurrent root: ");
            push_str(&mut out, repo.current_root.as_str());
            push_str(&mut out, "\nPrimary root: ");
            push_str(&mut out, repo.primary_root.as_str());
            push_str(&mut out, "\nRepo name: ");
            push_str(&mut out, repo.repo_name.as_str());
            push_str(&mut out, "\nRepo parent: ");
            push_str(&mut out, repo.repo_parent.as_str());
            push_str(&mut out, "\nTicket prefix: ");
            push_str(&mut out, match ticket_prefix {
                Some(p) => p,
                None => "TICKET",
            });
            push_str(&mut out, "\nShell integration: ");
            push_str(&mut out, yes_no(shell_integration));
            push_str(&mut out, "\n");
            push_str(&mut out, tools_text_string(tools).as_str());
            push_str(&mut out, stale_hint);
            push_str(&mut out, if shell_integration {
                ""
            } else {
                "\nShell integration is inactive. Add `eval \"$(gat shell-init --shell bash)\"` to enable automatic `cd` for `gat 12345`, `gat go`, and `gat search`.\n"
            });
        },
    }
    out
}

/// Formats the doctor report when no repository was found; `message` is
/// the discovery error's message.
pub fn format_doctor_err(git_version: &str, message: &str, shell_integration: bool, tools: ToolPresence, format: OutputFormat) -> (r: String)
    ensures
        r@ == doctor_err_text(git_version@, message@, shell_integration, tools, format),
{
    let mut out = String::new();
    match format {
        OutputFormat::Json => {
            push_str(&mut out, "{\"status\":\"error\",\"git\":\"");
            assert(out@ =~= "{\"status\":\"error\",\"git\":\""@);
            push_json(&mut out, git_version);
            push_str(&mut out, "\",\"message\":\"");
            push_json(&mut out, message);
            push_str(&mut out, "\",\"shell_integration\":");
            push_str(&mut out, bool_string(shell_integration).as_str());
            push_str(&mut out, ",\"tools\":");
            push_str(&mut out, tools_json_string(tools).as_str());
            push_str(&mut out, "}\n");
        },
        _ => {
            push_str(&mut out, "gat doctor\nGit: ");
            assert(out@ =~= "gat doctor\nGit: "@);
            push_str(&mut out, git_version);
            push_str(&mut out, "\nRepository: ");
            push_str(&mut out, message);
            push_str(&mut out, "\nShell integration: ");
            push_str(&mut out, yes_no(shell_integration));
            push_str(&mut out, "\n");
            push_str(&mut out, tools_text_string(tools).as_str());
            push_str(&mut out, "\n");
        },
    }
    out
}

} // verus!
