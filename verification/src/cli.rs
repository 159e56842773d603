//! Command-line parsing for `gat`.
//!
//! Every subcommand reads its options left to right. What each option does
//! is declared in a rule table per subcommand (exact names first, then
//! `--name=value` prefixes, then what a bare word means); a single verified
//! interpreter walks the arguments through that table. The specification
//! [`run`] states the walk, and [`parse`] is proved to follow it.

use vstd::prelude::*;
use crate::config::Template;
use crate::error::{ErrorView, GatError, Result, result_view};
use crate::git::{delete_branch, join_with_spaces, join_words};
use crate::output::{OutputFormat, format_named};
use crate::sessions::opt_view;
use crate::text::{chars_of, eq_lit, has_prefix_lit, parse_unsigned, parse_unsigned_chars, push_str, starts_with, str_eq, string_of, trim_start_matches, trim_start_matches_lit};

verus! {

// ---------------------------------------------------------------------------
// Parsed commands
// ---------------------------------------------------------------------------

/// Shell dialects supported by `gat shell-init`.
#[derive(Clone, Copy, Debug, PartialEq, Eq, Structural)]
pub enum Shell {
    /// POSIX-style bash function.
    Bash,
    /// POSIX-style zsh function.
    Zsh,
    /// Minimal fish function.
    Fish,
}

/// Arguments for `gat new` and the shorthand `gat <ticket>`.
#[derive(Clone, Debug)]
pub struct NewArgs<S = String> {
    /// Raw ticket or branch target provided by the user.
    pub target: S,
    /// Optional override for numeric ticket prefixes.
    pub prefix: Option<S>,
    /// Whether numeric ticket prefixing should be disabled.
    pub no_prefix: bool,
    /// Optional branch override when the ticket is not the branch name.
    pub branch: Option<S>,
    /// Optional base ref for creating a new branch.
    pub base: Option<S>,
    /// Optional destination path override.
    pub path: Option<S>,
    /// Whether to create a detached investigation worktree.
    pub detach: bool,
    /// Optional description of what the worktree is for.
    pub description: Option<S>,
    /// Template to apply after creation. `None` uses the `default` template if
    /// one is configured; `Some("")` (via `--no-template`) disables templating.
    pub template: Option<S>,
    /// Show planned work without mutating Git or the filesystem.
    pub dry_run: bool,
    /// Requested output format.
    pub format: OutputFormat,
}

/// Arguments for `gat go`.
#[derive(Clone, Debug)]
pub struct GoArgs<S = String> {
    /// Ticket, branch, path basename, or shortcut.
    pub target: S,
    /// Optional override for numeric ticket prefixes.
    pub prefix: Option<S>,
    /// Whether numeric ticket prefixing should be disabled.
    pub no_prefix: bool,
    /// Create the target worktree if it does not exist.
    pub create: bool,
    /// Requested output format.
    pub format: OutputFormat,
}

/// Arguments for `gat switch`.
#[derive(Clone, Debug)]
pub struct SwitchArgs<S = String> {
    /// Ticket or branch target naming an existing worktree.
    pub target: S,
    /// Optional override for numeric ticket prefixes.
    pub prefix: Option<S>,
    /// Whether numeric ticket prefixing should be disabled.
    pub no_prefix: bool,
    /// Optional tmux session name override.
    pub session: Option<S>,
    /// Optional prompt draft path exported to tmux panes.
    pub prompt_file: Option<S>,
    /// Command run in the left AI pane when creating the session.
    pub codex_cmd: S,
    /// Editor command run in the right-top prompt pane when creating the session.
    pub editor_cmd: S,
    /// Optional layout preset name (classic, ai-focus, editor-focus, wide).
    pub layout: Option<S>,
    /// Explicit left pane width percentage; overrides the layout preset.
    pub left_width: Option<u8>,
    /// Explicit right bottom pane height percentage; overrides the layout preset.
    pub bottom_height: Option<u8>,
    /// Whether to attach/switch to the tmux session.
    pub attach: bool,
    /// Print the planned action without making changes.
    pub dry_run: bool,
    /// Requested output format.
    pub format: OutputFormat,
}

/// Arguments for `gat path`.
#[derive(Clone, Debug)]
pub struct PathArgs<S = String> {
    /// Ticket, branch, path basename, or shortcut.
    pub target: S,
    /// Optional override for numeric ticket prefixes.
    pub prefix: Option<S>,
    /// Whether numeric ticket prefixing should be disabled.
    pub no_prefix: bool,
}

/// Arguments for `gat describe`.
#[derive(Clone, Debug)]
pub struct DescribeArgs<S = String> {
    /// Ticket or branch target naming an existing worktree.
    pub target: S,
    /// Optional override for numeric ticket prefixes.
    pub prefix: Option<S>,
    /// Whether numeric ticket prefixing should be disabled.
    pub no_prefix: bool,
    /// New description text. `None` prints the current description;
    /// `Some("")` clears it.
    pub description: Option<S>,
    /// Requested output format.
    pub format: OutputFormat,
}

/// Arguments for `gat sessions`.
#[derive(Clone, Copy, Debug)]
pub struct SessionsArgs {
    /// Requested output format.
    pub format: OutputFormat,
}

/// Arguments for `gat ui`.
#[derive(Clone, Copy, Debug)]
pub struct UiArgs {
    /// Skip expensive dirty/merged/change-stat checks for faster startup.
    pub fast: bool,
}

/// A `gat config` sub-action.
#[derive(Clone, Debug)]
pub enum ConfigAction<S = String> {
    /// Write a default config file (errors if it exists unless forced).
    Init { force: bool },
    /// Print the config file path.
    Path,
    /// List all keys and their effective values.
    List,
    /// Print a single key's value.
    Get { key: S },
    /// Set a key to a value and persist it.
    SetValue { key: S, value: S },
}

impl View for ConfigAction<String> {
    type V = ConfigAction<Seq<char>>;

    open spec fn view(&self) -> ConfigAction<Seq<char>> {
        match self {
            ConfigAction::Init { force } => ConfigAction::Init { force: *force },
            ConfigAction::Path => ConfigAction::Path,
            ConfigAction::List => ConfigAction::List,
            ConfigAction::Get { key } => ConfigAction::Get { key: key@ },
            ConfigAction::SetValue { key, value } => ConfigAction::SetValue { key: key@, value: value@ },
        }
    }
}

/// Arguments for `gat config`.
#[derive(Clone, Debug)]
pub struct ConfigArgs<S = String> {
    /// The sub-action to perform.
    pub action: ConfigAction<S>,
    /// Requested output format.
    pub format: OutputFormat,
}

/// Arguments for `gat merge`.
#[derive(Clone, Debug)]
pub struct MergeArgs<S = String> {
    /// Ticket or branch target to merge.
    pub target: S,
    /// Optional override for numeric ticket prefixes.
    pub prefix: Option<S>,
    /// Whether numeric ticket prefixing should be disabled.
    pub no_prefix: bool,
    /// Base branch to merge into; defaults to the repository default branch.
    pub into: Option<S>,
    /// Always create a merge commit (`--no-ff`).
    pub no_ff: bool,
    /// After a successful merge, remove the worktree.
    pub remove: bool,
    /// After removal, delete the merged branch.
    pub delete_branch: bool,
    /// After removal, kill the worktree's tmux session.
    pub kill_session: bool,
    /// Convenience: enable remove + delete_branch + kill_session.
    pub cleanup: bool,
    /// Skip confirmation prompts.
    pub yes: bool,
    /// Show the planned merge/cleanup without changing anything.
    pub dry_run: bool,
    /// Requested output format.
    pub format: OutputFormat,
}

/// Arguments for `gat list`.
#[derive(Clone, Copy, Debug)]
pub struct ListArgs {
    /// Requested output format.
    pub format: OutputFormat,
    /// Skip expensive dirty/merged checks.
    pub fast: bool,
}

/// Arguments for `gat watch`.
#[derive(Clone, Copy, Debug)]
pub struct WatchArgs {
    /// Refresh interval in milliseconds.
    pub interval_ms: u64,
    /// Skip expensive dirty/merged checks.
    pub fast: bool,
    /// Render once and exit; useful for tests and scripting.
    pub once: bool,
}

/// Arguments for `gat search`.
#[derive(Clone, Debug)]
pub struct SearchArgs<S = String> {
    /// Optional initial search query passed to `fzf`.
    pub query: Option<S>,
    /// Print the tab-separated feed instead of invoking `fzf`.
    pub print: bool,
    /// Print only the selected path.
    pub path: bool,
    /// Launch the selected item through `gat tmux`.
    pub tmux: bool,
    /// Disable `fzf` and print the feed.
    pub no_fzf: bool,
    /// Skip expensive dirty/merged checks.
    pub fast: bool,
    /// Requested output format for selected items.
    pub format: OutputFormat,
}

/// Arguments for `gat tmux`.
#[derive(Clone, Debug)]
pub struct TmuxArgs<S = String> {
    /// Ticket or branch target.
    pub target: S,
    /// Optional override for numeric ticket prefixes.
    pub prefix: Option<S>,
    /// Whether numeric ticket prefixing should be disabled.
    pub no_prefix: bool,
    /// Optional tmux session name override.
    pub session: Option<S>,
    /// Optional prompt draft path exported to tmux panes.
    pub prompt_file: Option<S>,
    /// Command run in the left AI pane.
    pub codex_cmd: S,
    /// Editor command run in the right-top prompt pane.
    pub editor_cmd: S,
    /// Optional layout preset name (classic, ai-focus, editor-focus, wide).
    pub layout: Option<S>,
    /// Explicit left pane width percentage; overrides the layout preset.
    pub left_width: Option<u8>,
    /// Explicit right bottom pane height percentage; overrides the layout preset.
    pub bottom_height: Option<u8>,
    /// Whether to attach or switch to the tmux session.
    pub attach: bool,
    /// Print the tmux plan without making changes.
    pub dry_run: bool,
    /// Requested output format.
    pub format: OutputFormat,
}

/// Arguments for `gat dx`.
#[derive(Clone, Debug)]
pub struct DockerArgs<S = String, L = Vec<String>> {
    /// Optional service override for both exec targeting and compose fallback.
    pub service: Option<S>,
    /// Print Docker/worktree diagnostics instead of running a command.
    pub doctor: bool,
    /// Command to run inside the container, default `bash`.
    pub command: L,
}

/// Arguments for `gat archive`.
#[derive(Clone, Debug)]
pub struct ArchiveArgs<S = String> {
    /// Ticket or branch target.
    pub target: S,
    /// Optional override for numeric ticket prefixes.
    pub prefix: Option<S>,
    /// Whether numeric ticket prefixing should be disabled.
    pub no_prefix: bool,
    /// Optional archive root override.
    pub archive_dir: Option<S>,
    /// Permit archiving a dirty worktree.
    pub force: bool,
    /// Skip the confirmation prompt.
    pub yes: bool,
    /// Show the planned archive move without changing anything.
    pub dry_run: bool,
    /// Requested output format.
    pub format: OutputFormat,
}

/// Arguments for `gat rm` and `gat delete`.
#[derive(Clone, Debug)]
pub struct RemoveArgs<S = String> {
    /// Ticket or branch target.
    pub target: S,
    /// Optional override for numeric ticket prefixes.
    pub prefix: Option<S>,
    /// Whether numeric ticket prefixing should be disabled.
    pub no_prefix: bool,
    /// Permit removal of a dirty worktree.
    pub force: bool,
    /// Skip the confirmation prompt.
    pub yes: bool,
    /// Show planned removal without mutating state.
    pub dry_run: bool,
    /// Delete the local branch after removing the worktree.
    pub delete_branch: bool,
    /// Force-delete the local branch after removing the worktree.
    pub force_delete_branch: bool,
    /// Requested output format.
    pub format: OutputFormat,
}

/// Arguments for `gat prune`.
#[derive(Clone, Copy, Debug)]
pub struct PruneArgs {
    /// Remove clean worktrees whose branches are merged into the default branch.
    pub merged: bool,
    /// Remove worktrees not accessed in N days.
    pub older_than_days: Option<u64>,
    /// Show planned pruning/removal without changing state.
    pub dry_run: bool,
    /// Skip confirmation prompts.
    pub yes: bool,
    /// Force removal even if worktrees are dirty.
    pub force: bool,
    /// Requested output format.
    pub format: OutputFormat,
}

/// Arguments for `gat shell-init`.
#[derive(Clone, Copy, Debug)]
pub struct ShellInitArgs {
    /// Shell dialect to generate.
    pub shell: Shell,
}

/// Arguments for `gat doctor`.
#[derive(Clone, Copy, Debug)]
pub struct DoctorArgs {
    /// Requested output format.
    pub format: OutputFormat,
}

/// Top-level command selected from CLI arguments.
#[derive(Clone, Debug)]
pub enum Command<S = String, L = Vec<String>> {
    /// Print global help.
    Help,
    /// Print version information.
    Version,
    /// Create or reuse a ticket worktree.
    New(NewArgs<S>),
    /// Resolve an existing worktree path for shell switching.
    Go(GoArgs<S>),
    /// Attach to (or create) the tmux session for an existing worktree.
    Switch(SwitchArgs<S>),
    /// Set or show a worktree's description.
    Describe(DescribeArgs<S>),
    /// List live gat tmux sessions.
    Sessions(SessionsArgs),
    /// Launch the interactive TUI dashboard.
    Ui(UiArgs),
    /// Inspect or edit gat configuration.
    Config(ConfigArgs<S>),
    /// Merge a ticket branch into the default branch and clean up.
    Merge(MergeArgs<S>),
    /// Print only the path to a worktree.
    Path(PathArgs<S>),
    /// List registered worktrees.
    List(ListArgs),
    /// Repeatedly render the worktree list.
    Watch(WatchArgs),
    /// Search worktrees, optionally through `fzf`.
    Search(SearchArgs<S>),
    /// Create or switch to a tmux session for a worktree.
    Tmux(TmuxArgs<S>),
    /// Exec into or run a worktree-scoped Docker container.
    Docker(DockerArgs<S, L>),
    /// Remove a worktree.
    Remove(RemoveArgs<S>),
    /// Move a worktree to the archive area.
    Archive(ArchiveArgs<S>),
    /// Prune stale or merged worktrees.
    Prune(PruneArgs),
    /// Emit shell integration code.
    ShellInit(ShellInitArgs),
    /// Inspect local setup and dependencies.
    Doctor(DoctorArgs),
}

/// The specification-level command.
pub type CommandView = Command<Seq<char>, Seq<Seq<char>>>;

/// Strings taken by their views.
pub open spec fn strings_view(v: Seq<String>) -> Seq<Seq<char>> {
    v.map_values(|s: String| s@)
}

impl View for Command<String, Vec<String>> {
    type V = Command<Seq<char>, Seq<Seq<char>>>;

    open spec fn view(&self) -> Command<Seq<char>, Seq<Seq<char>>> {
        match self {
            Command::Help => Command::Help,
            Command::Version => Command::Version,
            Command::New(a) => Command::New(NewArgs {
                target: a.target@,
                prefix: opt_view(a.prefix),
                no_prefix: a.no_prefix,
                branch: opt_view(a.branch),
                base: opt_view(a.base),
                path: opt_view(a.path),
                detach: a.detach,
                description: opt_view(a.description),
                template: opt_view(a.template),
                dry_run: a.dry_run,
                format: a.format,
            }),
            Command::Go(a) => Command::Go(GoArgs {
                target: a.target@,
                prefix: opt_view(a.prefix),
                no_prefix: a.no_prefix,
                create: a.create,
                format: a.format,
            }),
            Command::Switch(a) => Command::Switch(SwitchArgs {
                target: a.target@,
                prefix: opt_view(a.prefix),
                no_prefix: a.no_prefix,
                session: opt_view(a.session),
                prompt_file: opt_view(a.prompt_file),
                codex_cmd: a.codex_cmd@,
                editor_cmd: a.editor_cmd@,
                layout: opt_view(a.layout),
                left_width: a.left_width,
                bottom_height: a.bottom_height,
                attach: a.attach,
                dry_run: a.dry_run,
                format: a.format,
            }),
            Command::Describe(a) => Command::Describe(DescribeArgs {
                target: a.target@,
                prefix: opt_view(a.prefix),
                no_prefix: a.no_prefix,
                description: opt_view(a.description),
                format: a.format,
            }),
            Command::Sessions(a) => Command::Sessions(*a),
            Command::Ui(a) => Command::Ui(*a),
            Command::Config(a) => Command::Config(ConfigArgs { action: a.action@, format: a.format }),
            Command::Merge(a) => Command::Merge(MergeArgs {
                target: a.target@,
                prefix: opt_view(a.prefix),
                no_prefix: a.no_prefix,
                into: opt_view(a.into),
                no_ff: a.no_ff,
                remove: a.remove,
                delete_branch: a.delete_branch,
                kill_session: a.kill_session,
                cleanup: a.cleanup,
                yes: a.yes,
                dry_run: a.dry_run,
                format: a.format,
            }),
            Command::Path(a) => Command::Path(PathArgs {
                target: a.target@,
                prefix: opt_view(a.prefix),
                no_prefix: a.no_prefix,
            }),
            Command::List(a) => Command::List(*a),
            Command::Watch(a) => Command::Watch(*a),
            Command::Search(a) => Command::Search(SearchArgs {
                query: opt_view(a.query),
                print: a.print,
                path: a.path,
                tmux: a.tmux,
                no_fzf: a.no_fzf,
                fast: a.fast,
                format: a.format,
            }),
            Command::Tmux(a) => Command::Tmux(TmuxArgs {
                target: a.target@,
                prefix: opt_view(a.prefix),
                no_prefix: a.no_prefix,
                session: opt_view(a.session),
                prompt_file: opt_view(a.prompt_file),
                codex_cmd: a.codex_cmd@,
                editor_cmd: a.editor_cmd@,
                layout: opt_view(a.layout),
                left_width: a.left_width,
                bottom_height: a.bottom_height,
                attach: a.attach,
                dry_run: a.dry_run,
                format: a.format,
            }),
            Command::Docker(a) => Command::Docker(DockerArgs {
                service: opt_view(a.service),
                doctor: a.doctor,
                command: strings_view(a.command@),
            }),
            Command::Remove(a) => Command::Remove(RemoveArgs {
                target: a.target@,
                prefix: opt_view(a.prefix),
                no_prefix: a.no_prefix,
                force: a.force,
                yes: a.yes,
                dry_run: a.dry_run,
                delete_branch: a.delete_branch,
                force_delete_branch: a.force_delete_branch,
                format: a.format,
            }),
            Command::Archive(a) => Command::Archive(ArchiveArgs {
                target: a.target@,
                prefix: opt_view(a.prefix),
                no_prefix: a.no_prefix,
                archive_dir: opt_view(a.archive_dir),
                force: a.force,
                yes: a.yes,
                dry_run: a.dry_run,
                format: a.format,
            }),
            Command::Prune(a) => Command::Prune(*a),
            Command::ShellInit(a) => Command::ShellInit(*a),
            Command::Doctor(a) => Command::Doctor(*a),
        }
    }
}

// ---------------------------------------------------------------------------
// Option rules
// ---------------------------------------------------------------------------

/// A boolean option a rule can switch.
#[derive(Clone, Copy, Debug, PartialEq, Eq, Structural)]
pub enum Flag {
    NoPrefix,
    Detach,
    DryRun,
    Attach,
    Create,
    Clear,
    NoFf,
    Remove,
    DeleteBranch,
    KillSession,
    Cleanup,
    Yes,
    Fast,
    Once,
    Print,
    PathOnly,
    Tmux,
    NoFzf,
    Doctor,
    Force,
    ForceDeleteBranch,
    Merged,
}

/// A text-valued option.
#[derive(Clone, Copy, Debug, PartialEq, Eq, Structural)]
pub enum TextOpt {
    Prefix,
    Branch,
    Base,
    Path,
    Description,
    Template,
    Session,
    PromptFile,
    CodexCmd,
    EditorCmd,
    Layout,
    Into,
    Service,
    ArchiveDir,
}

/// How an option's value is read.
#[derive(Clone, Copy, Debug, PartialEq, Eq, Structural)]
pub enum ValueKind {
    /// Stored as given.
    Text(TextOpt),
    /// `text`, `json` or `shell`.
    Format,
    /// A positive refresh interval in milliseconds (`--interval`).
    Interval,
    /// A positive number of days (`--older-than`).
    OlderThan,
    /// A left pane width percentage, 0-100 (`--left-width`).
    LeftWidth,
    /// A right bottom pane height percentage, 0-100 (`--bottom-height`).
    BottomHeight,
    /// `bash`, `zsh` or `fish`.
    Shell,
}

/// What an exactly named option does.
#[derive(Clone, Copy, Debug, PartialEq, Eq, Structural)]
pub enum Effect {
    /// Stop and print help.
    Help,
    /// Switch a flag on.
    Enable(Flag),
    /// Switch a flag off.
    Disable(Flag),
    /// Switch two flags on.
    EnablePair(Flag, Flag),
    /// Read the next argument as the option's value.
    Value(ValueKind),
    /// Disable templating (`--no-template`): an empty template name.
    NoTemplate,
    /// Select an output format.
    FormatIs(OutputFormat),
    /// Stop and watch the list (`list --watch`).
    Watch,
    /// Pass every later argument through untouched (`dx --`).
    Passthrough,
}

/// An exactly named option. `label` names the option when its value is
/// missing.
#[derive(Clone, Copy, Debug)]
pub struct OptRule<S = &'static str> {
    pub name: S,
    pub label: S,
    pub effect: Effect,
}

impl View for OptRule<&'static str> {
    type V = OptRule<Seq<char>>;

    open spec fn view(&self) -> OptRule<Seq<char>> {
        OptRule { name: self.name@, label: self.label@, effect: self.effect }
    }
}

/// A `--name=value` option: arguments starting with `prefix` carry their
/// value after it.
#[derive(Clone, Copy, Debug)]
pub struct PrefixRule<S = &'static str> {
    pub prefix: S,
    pub kind: ValueKind,
}

impl View for PrefixRule<&'static str> {
    type V = PrefixRule<Seq<char>>;

    open spec fn view(&self) -> PrefixRule<Seq<char>> {
        PrefixRule { prefix: self.prefix@, kind: self.kind }
    }
}

/// What an argument that matches no option means.
#[derive(Clone, Copy, Debug, PartialEq, Eq, Structural)]
pub enum Rest {
    /// It is an unknown option.
    Reject,
    /// It is the one target; a second one is an error. With `lone_dash`,
    /// a bare `-` counts as a target rather than an option.
    Single { lone_dash: bool },
    /// The first is the target, the rest are description words; a bare `-`
    /// is a word.
    Words,
    /// Each one is collected.
    Collect,
    /// The first starts a command whose arguments pass through untouched.
    Command,
}

/// The option rules of one subcommand.
pub struct Rules {
    pub exact: Vec<OptRule>,
    pub prefixed: Vec<PrefixRule>,
    pub rest: Rest,
    /// The subcommand's name in "unknown ... option" messages.
    pub name: &'static str,
    /// Appended to the "unexpected extra argument" message.
    pub extra_note: &'static str,
}

/// The specification-level rules.
pub struct RuleSet {
    pub exact: Seq<OptRule<Seq<char>>>,
    pub prefixed: Seq<PrefixRule<Seq<char>>>,
    pub rest: Rest,
    pub name: Seq<char>,
    pub extra_note: Seq<char>,
}

impl View for Rules {
    type V = RuleSet;

    open spec fn view(&self) -> RuleSet {
        RuleSet {
            exact: self.exact@.map_values(|r: OptRule| r@),
            prefixed: self.prefixed@.map_values(|p: PrefixRule| p@),
            rest: self.rest,
            name: self.name@,
            extra_note: self.extra_note@,
        }
    }
}

// ---------------------------------------------------------------------------
// The option state and its interpreter
// ---------------------------------------------------------------------------

/// The boolean options.
#[derive(Clone, Copy, Debug)]
pub struct Flags {
    pub no_prefix: bool,
    pub detach: bool,
    pub dry_run: bool,
    pub attach: bool,
    pub create: bool,
    pub clear: bool,
    pub no_ff: bool,
    pub remove: bool,
    pub delete_branch: bool,
    pub kill_session: bool,
    pub cleanup: bool,
    pub yes: bool,
    pub fast: bool,
    pub once: bool,
    pub print: bool,
    pub path_only: bool,
    pub tmux: bool,
    pub no_fzf: bool,
    pub doctor: bool,
    pub force: bool,
    pub force_delete_branch: bool,
    pub merged: bool,
}

/// The text-valued options.
#[derive(Clone, Debug)]
pub struct Texts<S = String> {
    pub prefix: Option<S>,
    pub branch: Option<S>,
    pub base: Option<S>,
    pub path: Option<S>,
    pub description: Option<S>,
    pub template: Option<S>,
    pub session: Option<S>,
    pub prompt_file: Option<S>,
    pub codex_cmd: Option<S>,
    pub editor_cmd: Option<S>,
    pub layout: Option<S>,
    pub into: Option<S>,
    pub service: Option<S>,
    pub archive_dir: Option<S>,
}

/// The specification-level text options.
pub type TextsView = Texts<Seq<char>>;

impl View for Texts<String> {
    type V = Texts<Seq<char>>;

    open spec fn view(&self) -> Texts<Seq<char>> {
        Texts {
            prefix: opt_view(self.prefix),
            branch: opt_view(self.branch),
            base: opt_view(self.base),
            path: opt_view(self.path),
            description: opt_view(self.description),
            template: opt_view(self.template),
            session: opt_view(self.session),
            prompt_file: opt_view(self.prompt_file),
            codex_cmd: opt_view(self.codex_cmd),
            editor_cmd: opt_view(self.editor_cmd),
            layout: opt_view(self.layout),
            into: opt_view(self.into),
            service: opt_view(self.service),
            archive_dir: opt_view(self.archive_dir),
        }
    }
}

/// Everything the options of any subcommand can set.
#[derive(Clone, Debug)]
pub struct Opts<S = String, L = Vec<String>> {
    pub flags: Flags,
    pub texts: Texts<S>,
    pub format: OutputFormat,
    pub shell: Shell,
    pub interval_ms: u64,
    pub older_than_days: Option<u64>,
    pub left_width: Option<u8>,
    pub bottom_height: Option<u8>,
    /// The positional target (or search query).
    pub target: Option<S>,
    /// Further positional words: description words, config words, or the
    /// `dx` command.
    pub words: L,
    /// Whether every later argument is a `dx` command word.
    pub passthrough: bool,
}

/// The specification-level option state.
pub type OptsView = Opts<Seq<char>, Seq<Seq<char>>>;

impl View for Opts<String, Vec<String>> {
    type V = Opts<Seq<char>, Seq<Seq<char>>>;

    open spec fn view(&self) -> Opts<Seq<char>, Seq<Seq<char>>> {
        Opts {
            flags: self.flags,
            texts: self.texts@,
            format: self.format,
            shell: self.shell,
            interval_ms: self.interval_ms,
            older_than_days: self.older_than_days,
            left_width: self.left_width,
            bottom_height: self.bottom_height,
            target: opt_view(self.target),
            words: strings_view(self.words@),
            passthrough: self.passthrough,
        }
    }
}

/// The state before any option is read: flags off except `attach`, `fast`
/// as given, text format, bash, a one-second watch interval.
pub open spec fn initial_opts(fast: bool) -> OptsView {
    Opts {
        flags: Flags {
            no_prefix: false,
            detach: false,
            dry_run: false,
            attach: true,
            create: false,
            clear: false,
            no_ff: false,
            remove: false,
            delete_branch: false,
            kill_session: false,
            cleanup: false,
            yes: false,
            fast: fast,
            once: false,
            print: false,
            path_only: false,
            tmux: false,
            no_fzf: false,
            doctor: false,
            force: false,
            force_delete_branch: false,
            merged: false,
        },
        texts: Texts {
            prefix: None,
            branch: None,
            base: None,
            path: None,
            description: None,
            template: None,
            session: None,
            prompt_file: None,
            codex_cmd: None,
            editor_cmd: None,
            layout: None,
            into: None,
            service: None,
            archive_dir: None,
        },
        format: OutputFormat::Text,
        shell: Shell::Bash,
        interval_ms: 1000,
        older_than_days: None,
        left_width: None,
        bottom_height: None,
        target: None,
        words: Seq::<Seq<char>>::empty(),
        passthrough: false,
    }
}

/// Flags with one set to `b`.
#[verifier::opaque]
pub open spec fn flags_with(fl: Flags, f: Flag, b: bool) -> Flags {
    match f {
        Flag::NoPrefix => Flags { no_prefix: b, ..fl },
        Flag::Detach => Flags { detach: b, ..fl },
        Flag::DryRun => Flags { dry_run: b, ..fl },
        Flag::Attach => Flags { attach: b, ..fl },
        Flag::Create => Flags { create: b, ..fl },
        Flag::Clear => Flags { clear: b, ..fl },
        Flag::NoFf => Flags { no_ff: b, ..fl },
        Flag::Remove => Flags { remove: b, ..fl },
        Flag::DeleteBranch => Flags { delete_branch: b, ..fl },
        Flag::KillSession => Flags { kill_session: b, ..fl },
        Flag::Cleanup => Flags { cleanup: b, ..fl },
        Flag::Yes => Flags { yes: b, ..fl },
        Flag::Fast => Flags { fast: b, ..fl },
        Flag::Once => Flags { once: b, ..fl },
        Flag::Print => Flags { print: b, ..fl },
        Flag::PathOnly => Flags { path_only: b, ..fl },
        Flag::Tmux => Flags { tmux: b, ..fl },
        Flag::NoFzf => Flags { no_fzf: b, ..fl },
        Flag::Doctor => Flags { doctor: b, ..fl },
        Flag::Force => Flags { force: b, ..fl },
        Flag::ForceDeleteBranch => Flags { force_delete_branch: b, ..fl },
        Flag::Merged => Flags { merged: b, ..fl },
    }
}

/// `o` with a flag set to `b`.
pub open spec fn with_flag(o: OptsView, f: Flag, b: bool) -> OptsView {
    Opts { flags: flags_with(o.flags, f, b), ..o }
}

/// Text options with one set to `v`.
#[verifier::opaque]
pub open spec fn texts_with(t: TextsView, k: TextOpt, v: Seq<char>) -> TextsView {
    match k {
        TextOpt::Prefix => Texts { prefix: Some(v), ..t },
        TextOpt::Branch => Texts { branch: Some(v), ..t },
        TextOpt::Base => Texts { base: Some(v), ..t },
        TextOpt::Path => Texts { path: Some(v), ..t },
        TextOpt::Description => Texts { description: Some(v), ..t },
        TextOpt::Template => Texts { template: Some(v), ..t },
        TextOpt::Session => Texts { session: Some(v), ..t },
        TextOpt::PromptFile => Texts { prompt_file: Some(v), ..t },
        TextOpt::CodexCmd => Texts { codex_cmd: Some(v), ..t },
        TextOpt::EditorCmd => Texts { editor_cmd: Some(v), ..t },
        TextOpt::Layout => Texts { layout: Some(v), ..t },
        TextOpt::Into => Texts { into: Some(v), ..t },
        TextOpt::Service => Texts { service: Some(v), ..t },
        TextOpt::ArchiveDir => Texts { archive_dir: Some(v), ..t },
    }
}

/// `o` with a text option set to `v`.
pub open spec fn with_text(o: OptsView, k: TextOpt, v: Seq<char>) -> OptsView {
    Opts { texts: texts_with(o.texts, k, v), ..o }
}

/// The shell named by a `--shell` value.
pub open spec fn shell_named(v: Seq<char>) -> Option<Shell> {
    if v == "bash"@ {
        Some(Shell::Bash)
    } else if v == "zsh"@ {
        Some(Shell::Zsh)
    } else if v == "fish"@ {
        Some(Shell::Fish)
    } else {
        None
    }
}

/// A positive `u64` option value (`str::parse` then nonzero).
#[verifier::opaque]
pub open spec fn positive_u64(v: Seq<char>) -> Option<u64> {
    match parse_unsigned(v, u64::MAX as nat) {
        Some(n) => if n > 0 { Some(n as u64) } else { None },
        None => None,
    }
}

/// A percentage option value: a number from 0 to 100.
pub open spec fn percent_value(v: Seq<char>) -> Option<u8> {
    match parse_unsigned(v, 100) {
        Some(n) => Some(n as u8),
        None => None,
    }
}

/// Reading an option value into the state, or the usage message.
pub open spec fn apply_value(o: OptsView, kind: ValueKind, v: Seq<char>) -> core::result::Result<OptsView, Seq<char>> {
    match kind {
        ValueKind::Text(t) => Ok(with_text(o, t, v)),
        ValueKind::Format => match format_named(v) {
            Some(f) => Ok(Opts { format: f, ..o }),
            None => Err("invalid format "@ + v + "; expected one of: text, json, shell"@),
        },
        ValueKind::Interval => match positive_u64(v) {
            Some(n) => Ok(Opts { interval_ms: n, ..o }),
            None => Err("--interval requires a positive integer"@),
        },
        ValueKind::OlderThan => match positive_u64(v) {
            Some(n) => Ok(Opts { older_than_days: Some(n), ..o }),
            None => Err("--older-than requires a positive integer"@),
        },
        ValueKind::LeftWidth => match percent_value(v) {
            Some(n) => Ok(Opts { left_width: Some(n), ..o }),
            None => Err("--left-width requires a percentage 0-100"@),
        },
        ValueKind::BottomHeight => match percent_value(v) {
            Some(n) => Ok(Opts { bottom_height: Some(n), ..o }),
            None => Err("--bottom-height requires a percentage 0-100"@),
        },
        ValueKind::Shell => match shell_named(v) {
            Some(sh) => Ok(Opts { shell: sh, ..o }),
            None => Err("invalid shell "@ + v + "; expected bash, zsh, or fish"@),
        },
    }
}

/// What a value-less effect does to the state.
pub open spec fn apply_effect(o: OptsView, e: Effect) -> OptsView {
    match e {
        Effect::Enable(f) => with_flag(o, f, true),
        Effect::Disable(f) => with_flag(o, f, false),
        Effect::EnablePair(f, g) => with_flag(with_flag(o, f, true), g, true),
        Effect::NoTemplate => with_text(o, TextOpt::Template, Seq::<char>::empty()),
        Effect::FormatIs(f) => Opts { format: f, ..o },
        Effect::Passthrough => Opts { passthrough: true, ..o },
        _ => o,
    }
}

/// The first rule named `tok`.
pub open spec fn find_rule(rules: Seq<OptRule<Seq<char>>>, tok: Seq<char>) -> Option<OptRule<Seq<char>>>
    decreases rules.len(),
{
    if rules.len() == 0 {
        None
    } else if rules[0].name == tok {
        Some(rules[0])
    } else {
        find_rule(rules.drop_first(), tok)
    }
}

/// The first prefix rule whose prefix `tok` starts with.
pub open spec fn find_prefix(rules: Seq<PrefixRule<Seq<char>>>, tok: Seq<char>) -> Option<PrefixRule<Seq<char>>>
    decreases rules.len(),
{
    if rules.len() == 0 {
        None
    } else if starts_with(tok, rules[0].prefix) {
        Some(rules[0])
    } else {
        find_prefix(rules.drop_first(), tok)
    }
}

/// Whether an argument reads as an option: it starts with `-`, unless it is
/// a bare `-` and that counts as a value.
pub open spec fn option_like(tok: Seq<char>, lone_dash: bool) -> bool {
    starts_with(tok, "-"@) && !(lone_dash && tok == "-"@)
}

/// What an argument that matches no option does to the state, or the usage
/// message.
pub open spec fn rest_step(rules: RuleSet, o: OptsView, tok: Seq<char>) -> core::result::Result<OptsView, Seq<char>> {
    let unknown = "unknown "@ + rules.name + " option "@ + tok;
    match rules.rest {
        Rest::Reject => Err(unknown),
        Rest::Single { lone_dash } => if option_like(tok, lone_dash) {
            Err(unknown)
        } else if o.target is Some {
            Err("unexpected extra argument "@ + tok + rules.extra_note)
        } else {
            Ok(Opts { target: Some(tok), ..o })
        },
        Rest::Words => if option_like(tok, true) {
            Err(unknown)
        } else if o.target is None {
            Ok(Opts { target: Some(tok), ..o })
        } else {
            Ok(Opts { words: o.words.push(tok), ..o })
        },
        Rest::Collect => if option_like(tok, false) {
            Err(unknown)
        } else {
            Ok(Opts { words: o.words.push(tok), ..o })
        },
        Rest::Command => if option_like(tok, false) {
            Err(unknown)
        } else {
            Ok(Opts { words: o.words.push(tok), passthrough: true, ..o })
        },
    }
}

/// How reading the options ends.
#[derive(Clone, Debug)]
pub enum Outcome<S = String, L = Vec<String>> {
    /// All arguments were read.
    Done(Opts<S, L>),
    /// Help was asked for.
    Help,
    /// `list --watch` turned the listing into a watch.
    Watch,
    /// A usage error.
    Fail(S),
}

/// The specification-level outcome.
pub type OutcomeView = Outcome<Seq<char>, Seq<Seq<char>>>;

impl View for Outcome<String, Vec<String>> {
    type V = Outcome<Seq<char>, Seq<Seq<char>>>;

    open spec fn view(&self) -> Outcome<Seq<char>, Seq<Seq<char>>> {
        match self {
            Outcome::Done(o) => Outcome::Done(o@),
            Outcome::Help => Outcome::Help,
            Outcome::Watch => Outcome::Watch,
            Outcome::Fail(m) => Outcome::Fail(m@),
        }
    }
}

/// Reading `args` from index `i` on, left to right: exact option names
/// first, then `--name=value` prefixes, then the subcommand's rule for
/// other words. An option that takes a value consumes the next argument.
pub open spec fn run(rules: RuleSet, args: Seq<Seq<char>>, i: nat, o: OptsView) -> OutcomeView
    decreases args.len() - i,
{
    if i >= args.len() {
        Outcome::Done(o)
    } else {
        let tok = args[i as int];
        if o.passthrough {
            run(rules, args, i + 1, Opts { words: o.words.push(tok), ..o })
        } else {
            match find_rule(rules.exact, tok) {
                Some(rule) => match rule.effect {
                    Effect::Help => Outcome::Help,
                    Effect::Watch => Outcome::Watch,
                    Effect::Value(kind) => if i + 1 < args.len() {
                        match apply_value(o, kind, args[i + 1int]) {
                            Ok(o2) => run(rules, args, i + 2, o2),
                            Err(m) => Outcome::Fail(m),
                        }
                    } else {
                        Outcome::Fail(rule.label + " requires a value"@)
                    },
                    _ => run(rules, args, i + 1, apply_effect(o, rule.effect)),
                },
                None => match find_prefix(rules.prefixed, tok) {
                    Some(p) => match apply_value(o, p.kind, trim_start_matches(tok, p.prefix)) {
                        Ok(o2) => run(rules, args, i + 1, o2),
                        Err(m) => Outcome::Fail(m),
                    },
                    None => match rest_step(rules, o, tok) {
                        Ok(o2) => run(rules, args, i + 1, o2),
                        Err(m) => Outcome::Fail(m),
                    },
                },
            }
        }
    }
}

// ---------------------------------------------------------------------------
// The subcommands' rules
// ---------------------------------------------------------------------------

/// A subcommand with option rules.
#[derive(Clone, Copy, Debug, PartialEq, Eq, Structural)]
pub enum Sub {
    New,
    Go,
    Switch,
    Describe,
    Sessions,
    Ui,
    Config,
    Merge,
    Path,
    List,
    Watch,
    Search,
    Tmux,
    Docker,
    Remove,
    Archive,
    Prune,
    ShellInit,
    Doctor,
}

/// An option named `name` whose missing value is reported under that name.
pub open spec fn opt_rule(name: Seq<char>, effect: Effect) -> OptRule<Seq<char>> {
    OptRule { name: name, label: name, effect: effect }
}

/// An option named `name` whose missing value is reported as `label`'s.
pub open spec fn opt_rule_as(name: Seq<char>, label: Seq<char>, effect: Effect) -> OptRule<Seq<char>> {
    OptRule { name: name, label: label, effect: effect }
}

/// A `--name=value` option.
pub open spec fn prefix_rule(prefix: Seq<char>, kind: ValueKind) -> PrefixRule<Seq<char>> {
    PrefixRule { prefix: prefix, kind: kind }
}

/// The rules of `new`.
pub open spec fn new_rules() -> RuleSet {
    RuleSet {
        exact: seq![
            opt_rule("-h"@, Effect::Help),
            opt_rule("--help"@, Effect::Help),
            opt_rule("--branch"@, Effect::Value(ValueKind::Text(TextOpt::Branch))),
            opt_rule("--prefix"@, Effect::Value(ValueKind::Text(TextOpt::Prefix))),
            opt_rule("--no-prefix"@, Effect::Enable(Flag::NoPrefix)),
            opt_rule("--base"@, Effect::Value(ValueKind::Text(TextOpt::Base))),
            opt_rule("--from"@, Effect::Value(ValueKind::Text(TextOpt::Base))),
            opt_rule("--from-ref"@, Effect::Value(ValueKind::Text(TextOpt::Base))),
            opt_rule("--path"@, Effect::Value(ValueKind::Text(TextOpt::Path))),
            opt_rule("--detach"@, Effect::Enable(Flag::Detach)),
            opt_rule("--description"@, Effect::Value(ValueKind::Text(TextOpt::Description))),
            opt_rule_as("-d"@, "--description"@, Effect::Value(ValueKind::Text(TextOpt::Description))),
            opt_rule_as("--desc"@, "--description"@, Effect::Value(ValueKind::Text(TextOpt::Description))),
            opt_rule("--template"@, Effect::Value(ValueKind::Text(TextOpt::Template))),
            opt_rule_as("-t"@, "--template"@, Effect::Value(ValueKind::Text(TextOpt::Template))),
            opt_rule("--no-template"@, Effect::NoTemplate),
            opt_rule("--dry-run"@, Effect::Enable(Flag::DryRun)),
            opt_rule("-n"@, Effect::Enable(Flag::DryRun)),
            opt_rule("--format"@, Effect::Value(ValueKind::Format)),
            opt_rule("--json"@, Effect::FormatIs(OutputFormat::Json)),
            opt_rule("--shell"@, Effect::FormatIs(OutputFormat::Shell))
        ],
        prefixed: seq![
            prefix_rule("--format="@, ValueKind::Format),
            prefix_rule("--prefix="@, ValueKind::Text(TextOpt::Prefix)),
            prefix_rule("--description="@, ValueKind::Text(TextOpt::Description)),
            prefix_rule("--desc="@, ValueKind::Text(TextOpt::Description)),
            prefix_rule("--template="@, ValueKind::Text(TextOpt::Template))
        ],
        rest: Rest::Single { lone_dash: false },
        name: "new"@,
        extra_note: "; create one worktree at a time"@,
    }
}

/// The rules of `go`.
pub open spec fn go_rules() -> RuleSet {
    RuleSet {
        exact: seq![
            opt_rule("-h"@, Effect::Help),
            opt_rule("--help"@, Effect::Help),
            opt_rule("--create"@, Effect::Enable(Flag::Create)),
            opt_rule("-c"@, Effect::Enable(Flag::Create)),
            opt_rule("--prefix"@, Effect::Value(ValueKind::Text(TextOpt::Prefix))),
            opt_rule("--no-prefix"@, Effect::Enable(Flag::NoPrefix)),
            opt_rule("--format"@, Effect::Value(ValueKind::Format)),
            opt_rule("--json"@, Effect::FormatIs(OutputFormat::Json)),
            opt_rule("--shell"@, Effect::FormatIs(OutputFormat::Shell))
        ],
        prefixed: seq![
            prefix_rule("--format="@, ValueKind::Format),
            prefix_rule("--prefix="@, ValueKind::Text(TextOpt::Prefix))
        ],
        rest: Rest::Single { lone_dash: true },
        name: "go"@,
        extra_note: ""@,
    }
}

/// The rules of `switch`.
pub open spec fn switch_rules() -> RuleSet {
    RuleSet {
        exact: seq![
            opt_rule("-h"@, Effect::Help),
            opt_rule("--help"@, Effect::Help),
            opt_rule("--prefix"@, Effect::Value(ValueKind::Text(TextOpt::Prefix))),
            opt_rule("--no-prefix"@, Effect::Enable(Flag::NoPrefix)),
            opt_rule("--session"@, Effect::Value(ValueKind::Text(TextOpt::Session))),
            opt_rule("--prompt-file"@, Effect::Value(ValueKind::Text(TextOpt::PromptFile))),
            opt_rule("--codex-cmd"@, Effect::Value(ValueKind::Text(TextOpt::CodexCmd))),
            opt_rule("--editor-cmd"@, Effect::Value(ValueKind::Text(TextOpt::EditorCmd))),
            opt_rule("--layout"@, Effect::Value(ValueKind::Text(TextOpt::Layout))),
            opt_rule("--left-width"@, Effect::Value(ValueKind::LeftWidth)),
            opt_rule("--bottom-height"@, Effect::Value(ValueKind::BottomHeight)),
            opt_rule("--no-attach"@, Effect::Disable(Flag::Attach)),
            opt_rule("--dry-run"@, Effect::Enable(Flag::DryRun)),
            opt_rule("-n"@, Effect::Enable(Flag::DryRun)),
            opt_rule("--format"@, Effect::Value(ValueKind::Format))
        ],
        prefixed: seq![
            prefix_rule("--prefix="@, ValueKind::Text(TextOpt::Prefix)),
            prefix_rule("--session="@, ValueKind::Text(TextOpt::Session)),
            prefix_rule("--prompt-file="@, ValueKind::Text(TextOpt::PromptFile)),
            prefix_rule("--codex-cmd="@, ValueKind::Text(TextOpt::CodexCmd)),
            prefix_rule("--editor-cmd="@, ValueKind::Text(TextOpt::EditorCmd)),
            prefix_rule("--layout="@, ValueKind::Text(TextOpt::Layout)),
            prefix_rule("--left-width="@, ValueKind::LeftWidth),
            prefix_rule("--bottom-height="@, ValueKind::BottomHeight),
            prefix_rule("--format="@, ValueKind::Format)
        ],
        rest: Rest::Single { lone_dash: false },
        name: "switch"@,
        extra_note: ""@,
    }
}

/// The rules of `describe`.
pub open spec fn describe_rules() -> RuleSet {
    RuleSet {
        exact: seq![
            opt_rule("-h"@, Effect::Help),
            opt_rule("--help"@, Effect::Help),
            opt_rule("--prefix"@, Effect::Value(ValueKind::Text(TextOpt::Prefix))),
            opt_rule("--no-prefix"@, Effect::Enable(Flag::NoPrefix)),
            opt_rule("--clear"@, Effect::Enable(Flag::Clear)),
            opt_rule("--format"@, Effect::Value(ValueKind::Format)),
            opt_rule("--json"@, Effect::FormatIs(OutputFormat::Json))
        ],
        prefixed: seq![
            prefix_rule("--prefix="@, ValueKind::Text(TextOpt::Prefix)),
            prefix_rule("--format="@, ValueKind::Format)
        ],
        rest: Rest::Words,
        name: "describe"@,
        extra_note: ""@,
    }
}

/// The rules of `sessions`.
pub open spec fn sessions_rules() -> RuleSet {
    RuleSet {
        exact: seq![
            opt_rule("-h"@, Effect::Help),
            opt_rule("--help"@, Effect::Help),
            opt_rule("--format"@, Effect::Value(ValueKind::Format)),
            opt_rule("--json"@, Effect::FormatIs(OutputFormat::Json))
        ],
        prefixed: seq![
            prefix_rule("--format="@, ValueKind::Format)
        ],
        rest: Rest::Reject,
        name: "sessions"@,
        extra_note: ""@,
    }
}

/// The rules of `ui`.
pub open spec fn ui_rules() -> RuleSet {
    RuleSet {
        exact: seq![
            opt_rule("-h"@, Effect::Help),
            opt_rule("--help"@, Effect::Help),
            opt_rule("--fast"@, Effect::Enable(Flag::Fast))
        ],
        prefixed: seq![],
        rest: Rest::Reject,
        name: "ui"@,
        extra_note: ""@,
    }
}

/// The rules of `config`.
pub open spec fn config_rules() -> RuleSet {
    RuleSet {
        exact: seq![
            opt_rule("-h"@, Effect::Help),
            opt_rule("--help"@, Effect::Help),
            opt_rule("--force"@, Effect::Enable(Flag::Force)),
            opt_rule("-f"@, Effect::Enable(Flag::Force)),
            opt_rule("--format"@, Effect::Value(ValueKind::Format)),
            opt_rule("--json"@, Effect::FormatIs(OutputFormat::Json))
        ],
        prefixed: seq![
            prefix_rule("--format="@, ValueKind::Format)
        ],
        rest: Rest::Collect,
        name: "config"@,
        extra_note: ""@,
    }
}

/// The rules of `merge`.
pub open spec fn merge_rules() -> RuleSet {
    RuleSet {
        exact: seq![
            opt_rule("-h"@, Effect::Help),
            opt_rule("--help"@, Effect::Help),
            opt_rule("--prefix"@, Effect::Value(ValueKind::Text(TextOpt::Prefix))),
            opt_rule("--no-prefix"@, Effect::Enable(Flag::NoPrefix)),
            opt_rule("--into"@, Effect::Value(ValueKind::Text(TextOpt::Into))),
            opt_rule("--no-ff"@, Effect::Enable(Flag::NoFf)),
            opt_rule("--remove"@, Effect::Enable(Flag::Remove)),
            opt_rule("--rm"@, Effect::Enable(Flag::Remove)),
            opt_rule("--delete-branch"@, Effect::EnablePair(Flag::Remove, Flag::DeleteBranch)),
            opt_rule("--kill-session"@, Effect::Enable(Flag::KillSession)),
            opt_rule("--cleanup"@, Effect::Enable(Flag::Cleanup)),
            opt_rule("--yes"@, Effect::Enable(Flag::Yes)),
            opt_rule("-y"@, Effect::Enable(Flag::Yes)),
            opt_rule("--dry-run"@, Effect::Enable(Flag::DryRun)),
            opt_rule("-n"@, Effect::Enable(Flag::DryRun)),
            opt_rule("--format"@, Effect::Value(ValueKind::Format)),
            opt_rule("--json"@, Effect::FormatIs(OutputFormat::Json))
        ],
        prefixed: seq![
            prefix_rule("--into="@, ValueKind::Text(TextOpt::Into)),
            prefix_rule("--prefix="@, ValueKind::Text(TextOpt::Prefix)),
            prefix_rule("--format="@, ValueKind::Format)
        ],
        rest: Rest::Single { lone_dash: false },
        name: "merge"@,
        extra_note: ""@,
    }
}

/// The rules of `path`.
pub open spec fn path_rules() -> RuleSet {
    RuleSet {
        exact: seq![
            opt_rule("-h"@, Effect::Help),
            opt_rule("--help"@, Effect::Help),
            opt_rule("--prefix"@, Effect::Value(ValueKind::Text(TextOpt::Prefix))),
            opt_rule("--no-prefix"@, Effect::Enable(Flag::NoPrefix))
        ],
        prefixed: seq![
            prefix_rule("--prefix="@, ValueKind::Text(TextOpt::Prefix))
        ],
        rest: Rest::Single { lone_dash: true },
        name: "path"@,
        extra_note: ""@,
    }
}

/// The rules of `list`.
pub open spec fn list_rules() -> RuleSet {
    RuleSet {
        exact: seq![
            opt_rule("-h"@, Effect::Help),
            opt_rule("--help"@, Effect::Help),
            opt_rule("--fast"@, Effect::Enable(Flag::Fast)),
            opt_rule("--watch"@, Effect::Watch),
            opt_rule("--format"@, Effect::Value(ValueKind::Format)),
            opt_rule("--json"@, Effect::FormatIs(OutputFormat::Json))
        ],
        prefixed: seq![
            prefix_rule("--format="@, ValueKind::Format)
        ],
        rest: Rest::Reject,
        name: "list"@,
        extra_note: ""@,
    }
}

/// The rules of `watch`.
pub open spec fn watch_rules() -> RuleSet {
    RuleSet {
        exact: seq![
            opt_rule("-h"@, Effect::Help),
            opt_rule("--help"@, Effect::Help),
            opt_rule("--interval"@, Effect::Value(ValueKind::Interval)),
            opt_rule("--once"@, Effect::Enable(Flag::Once)),
            opt_rule("--full"@, Effect::Disable(Flag::Fast)),
            opt_rule("--fast"@, Effect::Enable(Flag::Fast))
        ],
        prefixed: seq![
            prefix_rule("--interval="@, ValueKind::Interval)
        ],
        rest: Rest::Reject,
        name: "watch"@,
        extra_note: ""@,
    }
}

/// The rules of `search`.
pub open spec fn search_rules() -> RuleSet {
    RuleSet {
        exact: seq![
            opt_rule("-h"@, Effect::Help),
            opt_rule("--help"@, Effect::Help),
            opt_rule("--print"@, Effect::Enable(Flag::Print)),
            opt_rule("--path"@, Effect::Enable(Flag::PathOnly)),
            opt_rule("--tmux"@, Effect::Enable(Flag::Tmux)),
            opt_rule("--no-fzf"@, Effect::Enable(Flag::NoFzf)),
            opt_rule("--full"@, Effect::Disable(Flag::Fast)),
            opt_rule("--fast"@, Effect::Enable(Flag::Fast)),
            opt_rule("--format"@, Effect::Value(ValueKind::Format)),
            opt_rule("--json"@, Effect::FormatIs(OutputFormat::Json)),
            opt_rule("--shell"@, Effect::FormatIs(OutputFormat::Shell))
        ],
        prefixed: seq![
            prefix_rule("--format="@, ValueKind::Format)
        ],
        rest: Rest::Single { lone_dash: false },
        name: "search"@,
        extra_note: ""@,
    }
}

/// The rules of `tmux`.
pub open spec fn tmux_rules() -> RuleSet {
    RuleSet {
        exact: seq![
            opt_rule("-h"@, Effect::Help),
            opt_rule("--help"@, Effect::Help),
            opt_rule("--prefix"@, Effect::Value(ValueKind::Text(TextOpt::Prefix))),
            opt_rule("--no-prefix"@, Effect::Enable(Flag::NoPrefix)),
            opt_rule("--session"@, Effect::Value(ValueKind::Text(TextOpt::Session))),
            opt_rule("--prompt-file"@, Effect::Value(ValueKind::Text(TextOpt::PromptFile))),
            opt_rule("--codex-cmd"@, Effect::Value(ValueKind::Text(TextOpt::CodexCmd))),
            opt_rule("--editor-cmd"@, Effect::Value(ValueKind::Text(TextOpt::EditorCmd))),
            opt_rule("--layout"@, Effect::Value(ValueKind::Text(TextOpt::Layout))),
            opt_rule("--left-width"@, Effect::Value(ValueKind::LeftWidth)),
            opt_rule("--bottom-height"@, Effect::Value(ValueKind::BottomHeight)),
            opt_rule("--no-attach"@, Effect::Disable(Flag::Attach)),
            opt_rule("--dry-run"@, Effect::Enable(Flag::DryRun)),
            opt_rule("-n"@, Effect::Enable(Flag::DryRun)),
            opt_rule("--format"@, Effect::Value(ValueKind::Format))
        ],
        prefixed: seq![
            prefix_rule("--prefix="@, ValueKind::Text(TextOpt::Prefix)),
            prefix_rule("--session="@, ValueKind::Text(TextOpt::Session)),
            prefix_rule("--prompt-file="@, ValueKind::Text(TextOpt::PromptFile)),
            prefix_rule("--codex-cmd="@, ValueKind::Text(TextOpt::CodexCmd)),
            prefix_rule("--editor-cmd="@, ValueKind::Text(TextOpt::EditorCmd)),
            prefix_rule("--layout="@, ValueKind::Text(TextOpt::Layout)),
            prefix_rule("--left-width="@, ValueKind::LeftWidth),
            prefix_rule("--bottom-height="@, ValueKind::BottomHeight),
            prefix_rule("--format="@, ValueKind::Format)
        ],
        rest: Rest::Single { lone_dash: false },
        name: "tmux"@,
        extra_note: ""@,
    }
}

/// The rules of `dx`.
pub open spec fn docker_rules() -> RuleSet {
    RuleSet {
        exact: seq![
            opt_rule("-h"@, Effect::Help),
            opt_rule("--help"@, Effect::Help),
            opt_rule("--service"@, Effect::Value(ValueKind::Text(TextOpt::Service))),
            opt_rule("--doctor"@, Effect::Enable(Flag::Doctor)),
            opt_rule("--"@, Effect::Passthrough)
        ],
        prefixed: seq![
            prefix_rule("--service="@, ValueKind::Text(TextOpt::Service))
        ],
        rest: Rest::Command,
        name: "dx"@,
        extra_note: ""@,
    }
}

/// The rules of `remove`.
pub open spec fn remove_rules() -> RuleSet {
    RuleSet {
        exact: seq![
            opt_rule("-h"@, Effect::Help),
            opt_rule("--help"@, Effect::Help),
            opt_rule("--force"@, Effect::Enable(Flag::Force)),
            opt_rule("-f"@, Effect::Enable(Flag::Force)),
            opt_rule("--yes"@, Effect::Enable(Flag::Yes)),
            opt_rule("-y"@, Effect::Enable(Flag::Yes)),
            opt_rule("--dry-run"@, Effect::Enable(Flag::DryRun)),
            opt_rule("-n"@, Effect::Enable(Flag::DryRun)),
            opt_rule("--prefix"@, Effect::Value(ValueKind::Text(TextOpt::Prefix))),
            opt_rule("--no-prefix"@, Effect::Enable(Flag::NoPrefix)),
            opt_rule("--delete-branch"@, Effect::Enable(Flag::DeleteBranch)),
            opt_rule("--force-delete-branch"@, Effect::EnablePair(Flag::DeleteBranch, Flag::ForceDeleteBranch)),
            opt_rule("--format"@, Effect::Value(ValueKind::Format)),
            opt_rule("--json"@, Effect::FormatIs(OutputFormat::Json))
        ],
        prefixed: seq![
            prefix_rule("--format="@, ValueKind::Format),
            prefix_rule("--prefix="@, ValueKind::Text(TextOpt::Prefix))
        ],
        rest: Rest::Single { lone_dash: false },
        name: "remove"@,
        extra_note: ""@,
    }
}

/// The rules of `archive`.
pub open spec fn archive_rules() -> RuleSet {
    RuleSet {
        exact: seq![
            opt_rule("-h"@, Effect::Help),
            opt_rule("--help"@, Effect::Help),
            opt_rule("--prefix"@, Effect::Value(ValueKind::Text(TextOpt::Prefix))),
            opt_rule("--no-prefix"@, Effect::Enable(Flag::NoPrefix)),
            opt_rule("--archive-dir"@, Effect::Value(ValueKind::Text(TextOpt::ArchiveDir))),
            opt_rule("--force"@, Effect::Enable(Flag::Force)),
            opt_rule("-f"@, Effect::Enable(Flag::Force)),
            opt_rule("--yes"@, Effect::Enable(Flag::Yes)),
            opt_rule("-y"@, Effect::Enable(Flag::Yes)),
            opt_rule("--dry-run"@, Effect::Enable(Flag::DryRun)),
            opt_rule("-n"@, Effect::Enable(Flag::DryRun)),
            opt_rule("--format"@, Effect::Value(ValueKind::Format)),
            opt_rule("--json"@, Effect::FormatIs(OutputFormat::Json))
        ],
        prefixed: seq![
            prefix_rule("--prefix="@, ValueKind::Text(TextOpt::Prefix)),
            prefix_rule("--archive-dir="@, ValueKind::Text(TextOpt::ArchiveDir)),
            prefix_rule("--format="@, ValueKind::Format)
        ],
        rest: Rest::Single { lone_dash: false },
        name: "archive"@,
        extra_note: ""@,
    }
}

/// The rules of `prune`.
pub open spec fn prune_rules() -> RuleSet {
    RuleSet {
        exact: seq![
            opt_rule("-h"@, Effect::Help),
            opt_rule("--help"@, Effect::Help),
            opt_rule("--merged"@, Effect::Enable(Flag::Merged)),
            opt_rule("--older-than"@, Effect::Value(ValueKind::OlderThan)),
            opt_rule("--dry-run"@, Effect::Enable(Flag::DryRun)),
            opt_rule("-n"@, Effect::Enable(Flag::DryRun)),
            opt_rule("--yes"@, Effect::Enable(Flag::Yes)),
            opt_rule("-y"@, Effect::Enable(Flag::Yes)),
            opt_rule("--force"@, Effect::Enable(Flag::Force)),
            opt_rule("-f"@, Effect::Enable(Flag::Force)),
            opt_rule("--format"@, Effect::Value(ValueKind::Format)),
            opt_rule("--json"@, Effect::FormatIs(OutputFormat::Json))
        ],
        prefixed: seq![
            prefix_rule("--format="@, ValueKind::Format),
            prefix_rule("--older-than="@, ValueKind::OlderThan)
        ],
        rest: Rest::Reject,
        name: "prune"@,
        extra_note: ""@,
    }
}

/// The rules of `shell-init`.
pub open spec fn shell_init_rules() -> RuleSet {
    RuleSet {
        exact: seq![
            opt_rule("-h"@, Effect::Help),
            opt_rule("--help"@, Effect::Help),
            opt_rule("--shell"@, Effect::Value(ValueKind::Shell))
        ],
        prefixed: seq![
            prefix_rule("--shell="@, ValueKind::Shell)
        ],
        rest: Rest::Reject,
        name: "shell-init"@,
        extra_note: ""@,
    }
}

/// The rules of `doctor`.
pub open spec fn doctor_rules() -> RuleSet {
    RuleSet {
        exact: seq![
            opt_rule("-h"@, Effect::Help),
            opt_rule("--help"@, Effect::Help),
            opt_rule("--format"@, Effect::Value(ValueKind::Format)),
            opt_rule("--json"@, Effect::FormatIs(OutputFormat::Json))
        ],
        prefixed: seq![
            prefix_rule("--format="@, ValueKind::Format)
        ],
        rest: Rest::Reject,
        name: "doctor"@,
        extra_note: ""@,
    }
}

/// The rules of a subcommand.
pub open spec fn rules_of(sub: Sub) -> RuleSet {
    match sub {
        Sub::New => new_rules(),
        Sub::Go => go_rules(),
        Sub::Switch => switch_rules(),
        Sub::Describe => describe_rules(),
        Sub::Sessions => sessions_rules(),
        Sub::Ui => ui_rules(),
        Sub::Config => config_rules(),
        Sub::Merge => merge_rules(),
        Sub::Path => path_rules(),
        Sub::List => list_rules(),
        Sub::Watch => watch_rules(),
        Sub::Search => search_rules(),
        Sub::Tmux => tmux_rules(),
        Sub::Docker => docker_rules(),
        Sub::Remove => remove_rules(),
        Sub::Archive => archive_rules(),
        Sub::Prune => prune_rules(),
        Sub::ShellInit => shell_init_rules(),
        Sub::Doctor => doctor_rules(),
    }
}

/// Whether `fast` starts on: `watch` and `search` skip expensive checks
/// unless `--full` is given.
pub open spec fn initial_fast(sub: Sub) -> bool {
    sub == Sub::Watch || sub == Sub::Search
}

/// A usage error.
pub open spec fn usage_error(m: Seq<char>) -> ErrorView {
    GatError::Usage(m)
}

/// The command built from the options read.
pub open spec fn finish(sub: Sub, o: OptsView) -> core::result::Result<CommandView, ErrorView> {
    match sub {
        Sub::New => match o.target {
            Some(t) => Ok(Command::New(NewArgs {
                target: t,
                prefix: o.texts.prefix,
                no_prefix: o.flags.no_prefix,
                branch: o.texts.branch,
                base: o.texts.base,
                path: o.texts.path,
                detach: o.flags.detach,
                description: o.texts.description,
                template: o.texts.template,
                dry_run: o.flags.dry_run,
                format: o.format,
            })),
            None => Err(usage_error("missing ticket or branch"@)),
        },
        Sub::Go => match o.target {
            Some(t) => Ok(Command::Go(GoArgs { target: t, prefix: o.texts.prefix, no_prefix: o.flags.no_prefix, create: o.flags.create, format: o.format })),
            None => Err(usage_error("missing worktree target"@)),
        },
        Sub::Switch => match o.target {
            Some(t) => Ok(Command::Switch(SwitchArgs {
                target: t,
                prefix: o.texts.prefix,
                no_prefix: o.flags.no_prefix,
                session: o.texts.session,
                prompt_file: o.texts.prompt_file,
                codex_cmd: text_or(o.texts.codex_cmd, "codex"@),
                editor_cmd: text_or(o.texts.editor_cmd, "nvim"@),
                layout: o.texts.layout,
                left_width: o.left_width,
                bottom_height: o.bottom_height,
                attach: o.flags.attach,
                dry_run: o.flags.dry_run,
                format: o.format,
            })),
            None => Err(usage_error("switch requires a target"@)),
        },
        Sub::Describe => match o.target {
            Some(t) => Ok(Command::Describe(DescribeArgs {
                target: t,
                prefix: o.texts.prefix,
                no_prefix: o.flags.no_prefix,
                description: if o.flags.clear {
                    Some(Seq::<char>::empty())
                } else if o.words.len() == 0 {
                    None
                } else {
                    Some(join_words(o.words))
                },
                format: o.format,
            })),
            None => Err(usage_error("describe requires a target"@)),
        },
        Sub::Sessions => Ok(Command::Sessions(SessionsArgs { format: o.format })),
        Sub::Ui => Ok(Command::Ui(UiArgs { fast: o.flags.fast })),
        Sub::Config => match config_action(o) {
            Ok(action) => Ok(Command::Config(ConfigArgs { action: action, format: o.format })),
            Err(e) => Err(e),
        },
        Sub::Merge => match o.target {
            Some(t) => Ok(Command::Merge(MergeArgs {
                target: t,
                prefix: o.texts.prefix,
                no_prefix: o.flags.no_prefix,
                into: o.texts.into,
                no_ff: o.flags.no_ff,
                remove: o.flags.remove,
                delete_branch: o.flags.delete_branch,
                kill_session: o.flags.kill_session,
                cleanup: o.flags.cleanup,
                yes: o.flags.yes,
                dry_run: o.flags.dry_run,
                format: o.format,
            })),
            None => Err(usage_error("merge requires a target"@)),
        },
        Sub::Path => match o.target {
            Some(t) => Ok(Command::Path(PathArgs { target: t, prefix: o.texts.prefix, no_prefix: o.flags.no_prefix })),
            None => Err(usage_error("path requires a target"@)),
        },
        Sub::List => Ok(Command::List(ListArgs { format: o.format, fast: o.flags.fast })),
        Sub::Watch => Ok(Command::Watch(WatchArgs { interval_ms: o.interval_ms, fast: o.flags.fast, once: o.flags.once })),
        Sub::Search => Ok(Command::Search(SearchArgs {
            query: o.target,
            print: o.flags.print,
            path: o.flags.path_only,
            tmux: o.flags.tmux,
            no_fzf: o.flags.no_fzf,
            fast: o.flags.fast,
            format: o.format,
        })),
        Sub::Tmux => match o.target {
            Some(t) => Ok(Command::Tmux(TmuxArgs {
                target: t,
                prefix: o.texts.prefix,
                no_prefix: o.flags.no_prefix,
                session: o.texts.session,
                prompt_file: o.texts.prompt_file,
                codex_cmd: text_or(o.texts.codex_cmd, "codex"@),
                editor_cmd: text_or(o.texts.editor_cmd, "nvim"@),
                layout: o.texts.layout,
                left_width: o.left_width,
                bottom_height: o.bottom_height,
                attach: o.flags.attach,
                dry_run: o.flags.dry_run,
                format: o.format,
            })),
            None => Err(usage_error("tmux requires a target"@)),
        },
        Sub::Docker => if o.flags.doctor && o.words.len() > 0 {
            Err(usage_error("dx --doctor does not accept a command"@))
        } else {
            Ok(Command::Docker(DockerArgs { service: o.texts.service, doctor: o.flags.doctor, command: o.words }))
        },
        Sub::Remove => match o.target {
            Some(t) => Ok(Command::Remove(RemoveArgs {
                target: t,
                prefix: o.texts.prefix,
                no_prefix: o.flags.no_prefix,
                force: o.flags.force,
                yes: o.flags.yes,
                dry_run: o.flags.dry_run,
                delete_branch: o.flags.delete_branch,
                force_delete_branch: o.flags.force_delete_branch,
                format: o.format,
            })),
            None => Err(usage_error("missing worktree target"@)),
        },
        Sub::Archive => match o.target {
            Some(t) => Ok(Command::Archive(ArchiveArgs {
                target: t,
                prefix: o.texts.prefix,
                no_prefix: o.flags.no_prefix,
                archive_dir: o.texts.archive_dir,
                force: o.flags.force,
                yes: o.flags.yes,
                dry_run: o.flags.dry_run,
                format: o.format,
            })),
            None => Err(usage_error("archive requires a target"@)),
        },
        Sub::Prune => Ok(Command::Prune(PruneArgs {
            merged: o.flags.merged,
            older_than_days: o.older_than_days,
            dry_run: o.flags.dry_run,
            yes: o.flags.yes,
            force: o.flags.force,
            format: o.format,
        })),
        Sub::ShellInit => Ok(Command::ShellInit(ShellInitArgs { shell: o.shell })),
        Sub::Doctor => Ok(Command::Doctor(DoctorArgs { format: o.format })),
    }
}

/// An optional text, or a default.
pub open spec fn text_or(o: Option<Seq<char>>, default: Seq<char>) -> Seq<char> {
    match o {
        Some(t) => t,
        None => default,
    }
}

/// The `gat config` sub-action named by the positional words.
pub open spec fn config_action(o: OptsView) -> core::result::Result<ConfigAction<Seq<char>>, ErrorView> {
    if o.words.len() == 0 {
        Err(usage_error("config requires a subcommand: init|path|list|get|set"@))
    } else {
        let sub = o.words[0];
        if sub == "init"@ {
            Ok(ConfigAction::Init { force: o.flags.force })
        } else if sub == "path"@ {
            Ok(ConfigAction::Path)
        } else if sub == "list"@ {
            Ok(ConfigAction::List)
        } else if sub == "get"@ {
            if o.words.len() > 1 {
                Ok(ConfigAction::Get { key: o.words[1] })
            } else {
                Err(usage_error("config get requires a key"@))
            }
        } else if sub == "set"@ {
            if o.words.len() <= 1 {
                Err(usage_error("config set requires a key and value"@))
            } else if o.words.len() <= 2 {
                Err(usage_error("config set requires a value"@))
            } else {
                Ok(ConfigAction::SetValue { key: o.words[1], value: join_words(o.words.skip(2)) })
            }
        } else {
            Err(usage_error("unknown config subcommand '"@ + sub + "'; expected init|path|list|get|set"@))
        }
    }
}

/// The command a finished read of the options yields.
pub open spec fn settle(sub: Sub, out: OutcomeView) -> core::result::Result<CommandView, ErrorView> {
    match out {
        Outcome::Done(o) => finish(sub, o),
        Outcome::Help => Ok(Command::Help),
        Outcome::Watch => Ok(Command::Watch(WatchArgs { interval_ms: 1000, fast: true, once: false })),
        Outcome::Fail(m) => Err(usage_error(m)),
    }
}

/// What a subcommand's arguments parse to.
pub open spec fn parse_sub(sub: Sub, args: Seq<Seq<char>>) -> core::result::Result<CommandView, ErrorView> {
    settle(sub, run(rules_of(sub), args, 0, initial_opts(initial_fast(sub))))
}

/// The subcommand a first argument names.
pub open spec fn sub_named(first: Seq<char>) -> Option<Sub> {
    if first == "new"@ || first == "add"@ {
        Some(Sub::New)
    } else if first == "go"@ {
        Some(Sub::Go)
    } else if first == "switch"@ {
        Some(Sub::Switch)
    } else if first == "describe"@ || first == "desc"@ {
        Some(Sub::Describe)
    } else if first == "sessions"@ {
        Some(Sub::Sessions)
    } else if first == "ui"@ || first == "dashboard"@ {
        Some(Sub::Ui)
    } else if first == "config"@ {
        Some(Sub::Config)
    } else if first == "merge"@ {
        Some(Sub::Merge)
    } else if first == "path"@ {
        Some(Sub::Path)
    } else if first == "list"@ || first == "ls"@ {
        Some(Sub::List)
    } else if first == "watch"@ {
        Some(Sub::Watch)
    } else if first == "search"@ || first == "find"@ {
        Some(Sub::Search)
    } else if first == "tmux"@ || first == "session"@ || first == "start"@ {
        Some(Sub::Tmux)
    } else if first == "dx"@ || first == "docker"@ {
        Some(Sub::Docker)
    } else if first == "rm"@ || first == "remove"@ || first == "delete"@ {
        Some(Sub::Remove)
    } else if first == "archive"@ {
        Some(Sub::Archive)
    } else if first == "prune"@ {
        Some(Sub::Prune)
    } else if first == "shell-init"@ {
        Some(Sub::ShellInit)
    } else if first == "doctor"@ {
        Some(Sub::Doctor)
    } else {
        None
    }
}

/// What the process arguments parse to. No arguments print help; an unknown
/// first word that is not an option is the shorthand `gat new <ticket>`.
pub open spec fn parse_spec(args: Seq<Seq<char>>) -> core::result::Result<CommandView, ErrorView> {
    if args.len() == 0 {
        Ok(Command::Help)
    } else {
        let first = args[0];
        if first == "-h"@ || first == "--help"@ || first == "help"@ {
            Ok(Command::Help)
        } else if first == "-V"@ || first == "--version"@ || first == "version"@ {
            Ok(Command::Version)
        } else {
            match sub_named(first) {
                Some(sub) => parse_sub(sub, args.drop_first()),
                None => if starts_with(first, "-"@) {
                    Err(usage_error("unknown option "@ + first + "; run `gat --help`"@))
                } else {
                    parse_sub(Sub::New, args)
                },
            }
        }
    }
}

// ---------------------------------------------------------------------------
// Building the rules
// ---------------------------------------------------------------------------

/// Builds the rules of `new`.
fn build_new_rules() -> (r: Rules)
    ensures
        r@ == new_rules(),
{
    let mut exact: Vec<OptRule> = Vec::new();
    exact.push(OptRule { name: "-h", label: "-h", effect: Effect::Help });
    exact.push(OptRule { name: "--help", label: "--help", effect: Effect::Help });
    exact.push(OptRule { name: "--branch", label: "--branch", effect: Effect::Value(ValueKind::Text(TextOpt::Branch)) });
    exact.push(OptRule { name: "--prefix", label: "--prefix", effect: Effect::Value(ValueKind::Text(TextOpt::Prefix)) });
    exact.push(OptRule { name: "--no-prefix", label: "--no-prefix", effect: Effect::Enable(Flag::NoPrefix) });
    exact.push(OptRule { name: "--base", label: "--base", effect: Effect::Value(ValueKind::Text(TextOpt::Base)) });
    exact.push(OptRule { name: "--from", label: "--from", effect: Effect::Value(ValueKind::Text(TextOpt::Base)) });
    exact.push(OptRule { name: "--from-ref", label: "--from-ref", effect: Effect::Value(ValueKind::Text(TextOpt::Base)) });
    exact.push(OptRule { name: "--path", label: "--path", effect: Effect::Value(ValueKind::Text(TextOpt::Path)) });
    exact.push(OptRule { name: "--detach", label: "--detach", effect: Effect::Enable(Flag::Detach) });
    exact.push(OptRule { name: "--description", label: "--description", effect: Effect::Value(ValueKind::Text(TextOpt::Description)) });
    exact.push(OptRule { name: "-d", label: "--description", effect: Effect::Value(ValueKind::Text(TextOpt::Description)) });
    exact.push(OptRule { name: "--desc", label: "--description", effect: Effect::Value(ValueKind::Text(TextOpt::Description)) });
    exact.push(OptRule { name: "--template", label: "--template", effect: Effect::Value(ValueKind::Text(TextOpt::Template)) });
    exact.push(OptRule { name: "-t", label: "--template", effect: Effect::Value(ValueKind::Text(TextOpt::Template)) });
    exact.push(OptRule { name: "--no-template", label: "--no-template", effect: Effect::NoTemplate });
    exact.push(OptRule { name: "--dry-run", label: "--dry-run", effect: Effect::Enable(Flag::DryRun) });
    exact.push(OptRule { name: "-n", label: "-n", effect: Effect::Enable(Flag::DryRun) });
    exact.push(OptRule { name: "--format", label: "--format", effect: Effect::Value(ValueKind::Format) });
    exact.push(OptRule { name: "--json", label: "--json", effect: Effect::FormatIs(OutputFormat::Json) });
    exact.push(OptRule { name: "--shell", label: "--shell", effect: Effect::FormatIs(OutputFormat::Shell) });
    let mut prefixed: Vec<PrefixRule> = Vec::new();
    prefixed.push(PrefixRule { prefix: "--format=", kind: ValueKind::Format });
    prefixed.push(PrefixRule { prefix: "--prefix=", kind: ValueKind::Text(TextOpt::Prefix) });
    prefixed.push(PrefixRule { prefix: "--description=", kind: ValueKind::Text(TextOpt::Description) });
    prefixed.push(PrefixRule { prefix: "--desc=", kind: ValueKind::Text(TextOpt::Description) });
    prefixed.push(PrefixRule { prefix: "--template=", kind: ValueKind::Text(TextOpt::Template) });
    let r = Rules { exact, prefixed, rest: Rest::Single { lone_dash: false }, name: "new", extra_note: "; create one worktree at a time" };
    assert(r@.exact =~= new_rules().exact);
    assert(r@.prefixed =~= new_rules().prefixed);
    r
}

/// Builds the rules of `go`.
fn build_go_rules() -> (r: Rules)
    ensures
        r@ == go_rules(),
{
    let mut exact: Vec<OptRule> = Vec::new();
    exact.push(OptRule { name: "-h", label: "-h", effect: Effect::Help });
    exact.push(OptRule { name: "--help", label: "--help", effect: Effect::Help });
    exact.push(OptRule { name: "--create", label: "--create", effect: Effect::Enable(Flag::Create) });
    exact.push(OptRule { name: "-c", label: "-c", effect: Effect::Enable(Flag::Create) });
    exact.push(OptRule { name: "--prefix", label: "--prefix", effect: Effect::Value(ValueKind::Text(TextOpt::Prefix)) });
    exact.push(OptRule { name: "--no-prefix", label: "--no-prefix", effect: Effect::Enable(Flag::NoPrefix) });
    exact.push(OptRule { name: "--format", label: "--format", effect: Effect::Value(ValueKind::Format) });
    exact.push(OptRule { name: "--json", label: "--json", effect: Effect::FormatIs(OutputFormat::Json) });
    exact.push(OptRule { name: "--shell", label: "--shell", effect: Effect::FormatIs(OutputFormat::Shell) });
    let mut prefixed: Vec<PrefixRule> = Vec::new();
    prefixed.push(PrefixRule { prefix: "--format=", kind: ValueKind::Format });
    prefixed.push(PrefixRule { prefix: "--prefix=", kind: ValueKind::Text(TextOpt::Prefix) });
    let r = Rules { exact, prefixed, rest: Rest::Single { lone_dash: true }, name: "go", extra_note: "" };
    assert(r@.exact =~= go_rules().exact);
    assert(r@.prefixed =~= go_rules().prefixed);
    r
}

/// Builds the rules of `switch`.
fn build_switch_rules() -> (r: Rules)
    ensures
        r@ == switch_rules(),
{
    let mut exact: Vec<OptRule> = Vec::new();
    exact.push(OptRule { name: "-h", label: "-h", effect: Effect::Help });
    exact.push(OptRule { name: "--help", label: "--help", effect: Effect::Help });
    exact.push(OptRule { name: "--prefix", label: "--prefix", effect: Effect::Value(ValueKind::Text(TextOpt::Prefix)) });
    exact.push(OptRule { name: "--no-prefix", label: "--no-prefix", effect: Effect::Enable(Flag::NoPrefix) });
    exact.push(OptRule { name: "--session", label: "--session", effect: Effect::Value(ValueKind::Text(TextOpt::Session)) });
    exact.push(OptRule { name: "--prompt-file", label: "--prompt-file", effect: Effect::Value(ValueKind::Text(TextOpt::PromptFile)) });
    exact.push(OptRule { name: "--codex-cmd", label: "--codex-cmd", effect: Effect::Value(ValueKind::Text(TextOpt::CodexCmd)) });
    exact.push(OptRule { name: "--editor-cmd", label: "--editor-cmd", effect: Effect::Value(ValueKind::Text(TextOpt::EditorCmd)) });
    exact.push(OptRule { name: "--layout", label: "--layout", effect: Effect::Value(ValueKind::Text(TextOpt::Layout)) });
    exact.push(OptRule { name: "--left-width", label: "--left-width", effect: Effect::Value(ValueKind::LeftWidth) });
    exact.push(OptRule { name: "--bottom-height", label: "--bottom-height", effect: Effect::Value(ValueKind::BottomHeight) });
    exact.push(OptRule { name: "--no-attach", label: "--no-attach", effect: Effect::Disable(Flag::Attach) });
    exact.push(OptRule { name: "--dry-run", label: "--dry-run", effect: Effect::Enable(Flag::DryRun) });
    exact.push(OptRule { name: "-n", label: "-n", effect: Effect::Enable(Flag::DryRun) });
    exact.push(OptRule { name: "--format", label: "--format", effect: Effect::Value(ValueKind::Format) });
    let mut prefixed: Vec<PrefixRule> = Vec::new();
    prefixed.push(PrefixRule { prefix: "--prefix=", kind: ValueKind::Text(TextOpt::Prefix) });
    prefixed.push(PrefixRule { prefix: "--session=", kind: ValueKind::Text(TextOpt::Session) });
    prefixed.push(PrefixRule { prefix: "--prompt-file=", kind: ValueKind::Text(TextOpt::PromptFile) });
    prefixed.push(PrefixRule { prefix: "--codex-cmd=", kind: ValueKind::Text(TextOpt::CodexCmd) });
    prefixed.push(PrefixRule { prefix: "--editor-cmd=", kind: ValueKind::Text(TextOpt::EditorCmd) });
    prefixed.push(PrefixRule { prefix: "--layout=", kind: ValueKind::Text(TextOpt::Layout) });
    prefixed.push(PrefixRule { prefix: "--left-width=", kind: ValueKind::LeftWidth });
    prefixed.push(PrefixRule { prefix: "--bottom-height=", kind: ValueKind::BottomHeight });
    prefixed.push(PrefixRule { prefix: "--format=", kind: ValueKind::Format });
    let r = Rules { exact, prefixed, rest: Rest::Single { lone_dash: false }, name: "switch", extra_note: "" };
    assert(r@.exact =~= switch_rules().exact);
    assert(r@.prefixed =~= switch_rules().prefixed);
    r
}

/// Builds the rules of `describe`.
fn build_describe_rules() -> (r: Rules)
    ensures
        r@ == describe_rules(),
{
    let mut exact: Vec<OptRule> = Vec::new();
    exact.push(OptRule { name: "-h", label: "-h", effect: Effect::Help });
    exact.push(OptRule { name: "--help", label: "--help", effect: Effect::Help });
    exact.push(OptRule { name: "--prefix", label: "--prefix", effect: Effect::Value(ValueKind::Text(TextOpt::Prefix)) });
    exact.push(OptRule { name: "--no-prefix", label: "--no-prefix", effect: Effect::Enable(Flag::NoPrefix) });
    exact.push(OptRule { name: "--clear", label: "--clear", effect: Effect::Enable(Flag::Clear) });
    exact.push(OptRule { name: "--format", label: "--format", effect: Effect::Value(ValueKind::Format) });
    exact.push(OptRule { name: "--json", label: "--json", effect: Effect::FormatIs(OutputFormat::Json) });
    let mut prefixed: Vec<PrefixRule> = Vec::new();
    prefixed.push(PrefixRule { prefix: "--prefix=", kind: ValueKind::Text(TextOpt::Prefix) });
    prefixed.push(PrefixRule { prefix: "--format=", kind: ValueKind::Format });
    let r = Rules { exact, prefixed, rest: Rest::Words, name: "describe", extra_note: "" };
    assert(r@.exact =~= describe_rules().exact);
    assert(r@.prefixed =~= describe_rules().prefixed);
    r
}

/// Builds the rules of `sessions`.
fn build_sessions_rules() -> (r: Rules)
    ensures
        r@ == sessions_rules(),
{
    let mut exact: Vec<OptRule> = Vec::new();
    exact.push(OptRule { name: "-h", label: "-h", effect: Effect::Help });
    exact.push(OptRule { name: "--help", label: "--help", effect: Effect::Help });
    exact.push(OptRule { name: "--format", label: "--format", effect: Effect::Value(ValueKind::Format) });
    exact.push(OptRule { name: "--json", label: "--json", effect: Effect::FormatIs(OutputFormat::Json) });
    let mut prefixed: Vec<PrefixRule> = Vec::new();
    prefixed.push(PrefixRule { prefix: "--format=", kind: ValueKind::Format });
    let r = Rules { exact, prefixed, rest: Rest::Reject, name: "sessions", extra_note: "" };
    assert(r@.exact =~= sessions_rules().exact);
    assert(r@.prefixed =~= sessions_rules().prefixed);
    r
}

/// Builds the rules of `ui`.
fn build_ui_rules() -> (r: Rules)
    ensures
        r@ == ui_rules(),
{
    let mut exact: Vec<OptRule> = Vec::new();
    exact.push(OptRule { name: "-h", label: "-h", effect: Effect::Help });
    exact.push(OptRule { name: "--help", label: "--help", effect: Effect::Help });
    exact.push(OptRule { name: "--fast", label: "--fast", effect: Effect::Enable(Flag::Fast) });
    let mut prefixed: Vec<PrefixRule> = Vec::new();
    let r = Rules { exact, prefixed, rest: Rest::Reject, name: "ui", extra_note: "" };
    assert(r@.exact =~= ui_rules().exact);
    assert(r@.prefixed =~= ui_rules().prefixed);
    r
}

/// Builds the rules of `config`.
fn build_config_rules() -> (r: Rules)
    ensures
        r@ == config_rules(),
{
    let mut exact: Vec<OptRule> = Vec::new();
    exact.push(OptRule { name: "-h", label: "-h", effect: Effect::Help });
    exact.push(OptRule { name: "--help", label: "--help", effect: Effect::Help });
    exact.push(OptRule { name: "--force", label: "--force", effect: Effect::Enable(Flag::Force) });
    exact.push(OptRule { name: "-f", label: "-f", effect: Effect::Enable(Flag::Force) });
    exact.push(OptRule { name: "--format", label: "--format", effect: Effect::Value(ValueKind::Format) });
    exact.push(OptRule { name: "--json", label: "--json", effect: Effect::FormatIs(OutputFormat::Json) });
    let mut prefixed: Vec<PrefixRule> = Vec::new();
    prefixed.push(PrefixRule { prefix: "--format=", kind: ValueKind::Format });
    let r = Rules { exact, prefixed, rest: Rest::Collect, name: "config", extra_note: "" };
    assert(r@.exact =~= config_rules().exact);
    assert(r@.prefixed =~= config_rules().prefixed);
    r
}

/// Builds the rules of `merge`.
fn build_merge_rules() -> (r: Rules)
    ensures
        r@ == merge_rules(),
{
    let mut exact: Vec<OptRule> = Vec::new();
    exact.push(OptRule { name: "-h", label: "-h", effect: Effect::Help });
    exact.push(OptRule { name: "--help", label: "--help", effect: Effect::Help });
    exact.push(OptRule { name: "--prefix", label: "--prefix", effect: Effect::Value(ValueKind::Text(TextOpt::Prefix)) });
    exact.push(OptRule { name: "--no-prefix", label: "--no-prefix", effect: Effect::Enable(Flag::NoPrefix) });
    exact.push(OptRule { name: "--into", label: "--into", effect: Effect::Value(ValueKind::Text(TextOpt::Into)) });
    exact.push(OptRule { name: "--no-ff", label: "--no-ff", effect: Effect::Enable(Flag::NoFf) });
    exact.push(OptRule { name: "--remove", label: "--remove", effect: Effect::Enable(Flag::Remove) });
    exact.push(OptRule { name: "--rm", label: "--rm", effect: Effect::Enable(Flag::Remove) });
    exact.push(OptRule { name: "--delete-branch", label: "--delete-branch", effect: Effect::EnablePair(Flag::Remove, Flag::DeleteBranch) });
    exact.push(OptRule { name: "--kill-session", label: "--kill-session", effect: Effect::Enable(Flag::KillSession) });
    exact.push(OptRule { name: "--cleanup", label: "--cleanup", effect: Effect::Enable(Flag::Cleanup) });
    exact.push(OptRule { name: "--yes", label: "--yes", effect: Effect::Enable(Flag::Yes) });
    exact.push(OptRule { name: "-y", label: "-y", effect: Effect::Enable(Flag::Yes) });
    exact.push(OptRule { name: "--dry-run", label: "--dry-run", effect: Effect::Enable(Flag::DryRun) });
    exact.push(OptRule { name: "-n", label: "-n", effect: Effect::Enable(Flag::DryRun) });
    exact.push(OptRule { name: "--format", label: "--format", effect: Effect::Value(ValueKind::Format) });
    exact.push(OptRule { name: "--json", label: "--json", effect: Effect::FormatIs(OutputFormat::Json) });
    let mut prefixed: Vec<PrefixRule> = Vec::new();
    prefixed.push(PrefixRule { prefix: "--into=", kind: ValueKind::Text(TextOpt::Into) });
    prefixed.push(PrefixRule { prefix: "--prefix=", kind: ValueKind::Text(TextOpt::Prefix) });
    prefixed.push(PrefixRule { prefix: "--format=", kind: ValueKind::Format });
    let r = Rules { exact, prefixed, rest: Rest::Single { lone_dash: false }, name: "merge", extra_note: "" };
    assert(r@.exact =~= merge_rules().exact);
    assert(r@.prefixed =~= merge_rules().prefixed);
    r
}

/// Builds the rules of `path`.
fn build_path_rules() -> (r: Rules)
    ensures
        r@ == path_rules(),
{
    let mut exact: Vec<OptRule> = Vec::new();
    exact.push(OptRule { name: "-h", label: "-h", effect: Effect::Help });
    exact.push(OptRule { name: "--help", label: "--help", effect: Effect::Help });
    exact.push(OptRule { name: "--prefix", label: "--prefix", effect: Effect::Value(ValueKind::Text(TextOpt::Prefix)) });
    exact.push(OptRule { name: "--no-prefix", label: "--no-prefix", effect: Effect::Enable(Flag::NoPrefix) });
    let mut prefixed: Vec<PrefixRule> = Vec::new();
    prefixed.push(PrefixRule { prefix: "--prefix=", kind: ValueKind::Text(TextOpt::Prefix) });
    let r = Rules { exact, prefixed, rest: Rest::Single { lone_dash: true }, name: "path", extra_note: "" };
    assert(r@.exact =~= path_rules().exact);
    assert(r@.prefixed =~= path_rules().prefixed);
    r
}

/// Builds the rules of `list`.
fn build_list_rules() -> (r: Rules)
    ensures
        r@ == list_rules(),
{
    let mut exact: Vec<OptRule> = Vec::new();
    exact.push(OptRule { name: "-h", label: "-h", effect: Effect::Help });
    exact.push(OptRule { name: "--help", label: "--help", effect: Effect::Help });
    exact.push(OptRule { name: "--fast", label: "--fast", effect: Effect::Enable(Flag::Fast) });
    exact.push(OptRule { name: "--watch", label: "--watch", effect: Effect::Watch });
    exact.push(OptRule { name: "--format", label: "--format", effect: Effect::Value(ValueKind::Format) });
    exact.push(OptRule { name: "--json", label: "--json", effect: Effect::FormatIs(OutputFormat::Json) });
    let mut prefixed: Vec<PrefixRule> = Vec::new();
    prefixed.push(PrefixRule { prefix: "--format=", kind: ValueKind::Format });
    let r = Rules { exact, prefixed, rest: Rest::Reject, name: "list", extra_note: "" };
    assert(r@.exact =~= list_rules().exact);
    assert(r@.prefixed =~= list_rules().prefixed);
    r
}

/// Builds the rules of `watch`.
fn build_watch_rules() -> (r: Rules)
    ensures
        r@ == watch_rules(),
{
    let mut exact: Vec<OptRule> = Vec::new();
    exact.push(OptRule { name: "-h", label: "-h", effect: Effect::Help });
    exact.push(OptRule { name: "--help", label: "--help", effect: Effect::Help });
    exact.push(OptRule { name: "--interval", label: "--interval", effect: Effect::Value(ValueKind::Interval) });
    exact.push(OptRule { name: "--once", label: "--once", effect: Effect::Enable(Flag::Once) });
    exact.push(OptRule { name: "--full", label: "--full", effect: Effect::Disable(Flag::Fast) });
    exact.push(OptRule { name: "--fast", label: "--fast", effect: Effect::Enable(Flag::Fast) });
    let mut prefixed: Vec<PrefixRule> = Vec::new();
    prefixed.push(PrefixRule { prefix: "--interval=", kind: ValueKind::Interval });
    let r = Rules { exact, prefixed, rest: Rest::Reject, name: "watch", extra_note: "" };
    assert(r@.exact =~= watch_rules().exact);
    assert(r@.prefixed =~= watch_rules().prefixed);
    r
}

/// Builds the rules of `search`.
fn build_search_rules() -> (r: Rules)
    ensures
        r@ == search_rules(),
{
    let mut exact: Vec<OptRule> = Vec::new();
    exact.push(OptRule { name: "-h", label: "-h", effect: Effect::Help });
    exact.push(OptRule { name: "--help", label: "--help", effect: Effect::Help });
    exact.push(OptRule { name: "--print", label: "--print", effect: Effect::Enable(Flag::Print) });
    exact.push(OptRule { name: "--path", label: "--path", effect: Effect::Enable(Flag::PathOnly) });
    exact.push(OptRule { name: "--tmux", label: "--tmux", effect: Effect::Enable(Flag::Tmux) });
    exact.push(OptRule { name: "--no-fzf", label: "--no-fzf", effect: Effect::Enable(Flag::NoFzf) });
    exact.push(OptRule { name: "--full", label: "--full", effect: Effect::Disable(Flag::Fast) });
    exact.push(OptRule { name: "--fast", label: "--fast", effect: Effect::Enable(Flag::Fast) });
    exact.push(OptRule { name: "--format", label: "--format", effect: Effect::Value(ValueKind::Format) });
    exact.push(OptRule { name: "--json", label: "--json", effect: Effect::FormatIs(OutputFormat::Json) });
    exact.push(OptRule { name: "--shell", label: "--shell", effect: Effect::FormatIs(OutputFormat::Shell) });
    let mut prefixed: Vec<PrefixRule> = Vec::new();
    prefixed.push(PrefixRule { prefix: "--format=", kind: ValueKind::Format });
    let r = Rules { exact, prefixed, rest: Rest::Single { lone_dash: false }, name: "search", extra_note: "" };
    assert(r@.exact =~= search_rules().exact);
    assert(r@.prefixed =~= search_rules().prefixed);
    r
}

/// Builds the rules of `tmux`.
fn build_tmux_rules() -> (r: Rules)
    ensures
        r@ == tmux_rules(),
{
    let mut exact: Vec<OptRule> = Vec::new();
    exact.push(OptRule { name: "-h", label: "-h", effect: Effect::Help });
    exact.push(OptRule { name: "--help", label: "--help", effect: Effect::Help });
    exact.push(OptRule { name: "--prefix", label: "--prefix", effect: Effect::Value(ValueKind::Text(TextOpt::Prefix)) });
    exact.push(OptRule { name: "--no-prefix", label: "--no-prefix", effect: Effect::Enable(Flag::NoPrefix) });
    exact.push(OptRule { name: "--session", label: "--session", effect: Effect::Value(ValueKind::Text(TextOpt::Session)) });
    exact.push(OptRule { name: "--prompt-file", label: "--prompt-file", effect: Effect::Value(ValueKind::Text(TextOpt::PromptFile)) });
    exact.push(OptRule { name: "--codex-cmd", label: "--codex-cmd", effect: Effect::Value(ValueKind::Text(TextOpt::CodexCmd)) });
    exact.push(OptRule { name: "--editor-cmd", label: "--editor-cmd", effect: Effect::Value(ValueKind::Text(TextOpt::EditorCmd)) });
    exact.push(OptRule { name: "--layout", label: "--layout", effect: Effect::Value(ValueKind::Text(TextOpt::Layout)) });
    exact.push(OptRule { name: "--left-width", label: "--left-width", effect: Effect::Value(ValueKind::LeftWidth) });
    exact.push(OptRule { name: "--bottom-height", label: "--bottom-height", effect: Effect::Value(ValueKind::BottomHeight) });
    exact.push(OptRule { name: "--no-attach", label: "--no-attach", effect: Effect::Disable(Flag::Attach) });
    exact.push(OptRule { name: "--dry-run", label: "--dry-run", effect: Effect::Enable(Flag::DryRun) });
    exact.push(OptRule { name: "-n", label: "-n", effect: Effect::Enable(Flag::DryRun) });
    exact.push(OptRule { name: "--format", label: "--format", effect: Effect::Value(ValueKind::Format) });
    let mut prefixed: Vec<PrefixRule> = Vec::new();
    prefixed.push(PrefixRule { prefix: "--prefix=", kind: ValueKind::Text(TextOpt::Prefix) });
    prefixed.push(PrefixRule { prefix: "--session=", kind: ValueKind::Text(TextOpt::Session) });
    prefixed.push(PrefixRule { prefix: "--prompt-file=", kind: ValueKind::Text(TextOpt::PromptFile) });
    prefixed.push(PrefixRule { prefix: "--codex-cmd=", kind: ValueKind::Text(TextOpt::CodexCmd) });
    prefixed.push(PrefixRule { prefix: "--editor-cmd=", kind: ValueKind::Text(TextOpt::EditorCmd) });
    prefixed.push(PrefixRule { prefix: "--layout=", kind: ValueKind::Text(TextOpt::Layout) });
    prefixed.push(PrefixRule { prefix: "--left-width=", kind: ValueKind::LeftWidth });
    prefixed.push(PrefixRule { prefix: "--bottom-height=", kind: ValueKind::BottomHeight });
    prefixed.push(PrefixRule { prefix: "--format=", kind: ValueKind::Format });
    let r = Rules { exact, prefixed, rest: Rest::Single { lone_dash: false }, name: "tmux", extra_note: "" };
    assert(r@.exact =~= tmux_rules().exact);
    assert(r@.prefixed =~= tmux_rules().prefixed);
    r
}

/// Builds the rules of `dx`.
fn build_docker_rules() -> (r: Rules)
    ensures
        r@ == docker_rules(),
{
    let mut exact: Vec<OptRule> = Vec::new();
    exact.push(OptRule { name: "-h", label: "-h", effect: Effect::Help });
    exact.push(OptRule { name: "--help", label: "--help", effect: Effect::Help });
    exact.push(OptRule { name: "--service", label: "--service", effect: Effect::Value(ValueKind::Text(TextOpt::Service)) });
    exact.push(OptRule { name: "--doctor", label: "--doctor", effect: Effect::Enable(Flag::Doctor) });
    exact.push(OptRule { name: "--", label: "--", effect: Effect::Passthrough });
    let mut prefixed: Vec<PrefixRule> = Vec::new();
    prefixed.push(PrefixRule { prefix: "--service=", kind: ValueKind::Text(TextOpt::Service) });
    let r = Rules { exact, prefixed, rest: Rest::Command, name: "dx", extra_note: "" };
    assert(r@.exact =~= docker_rules().exact);
    assert(r@.prefixed =~= docker_rules().prefixed);
    r
}

/// Builds the rules of `remove`.
fn build_remove_rules() -> (r: Rules)
    ensures
        r@ == remove_rules(),
{
    let mut exact: Vec<OptRule> = Vec::new();
    exact.push(OptRule { name: "-h", label: "-h", effect: Effect::Help });
    exact.push(OptRule { name: "--help", label: "--help", effect: Effect::Help });
    exact.push(OptRule { name: "--force", label: "--force", effect: Effect::Enable(Flag::Force) });
    exact.push(OptRule { name: "-f", label: "-f", effect: Effect::Enable(Flag::Force) });
    exact.push(OptRule { name: "--yes", label: "--yes", effect: Effect::Enable(Flag::Yes) });
    exact.push(OptRule { name: "-y", label: "-y", effect: Effect::Enable(Flag::Yes) });
    exact.push(OptRule { name: "--dry-run", label: "--dry-run", effect: Effect::Enable(Flag::DryRun) });
    exact.push(OptRule { name: "-n", label: "-n", effect: Effect::Enable(Flag::DryRun) });
    exact.push(OptRule { name: "--prefix", label: "--prefix", effect: Effect::Value(ValueKind::Text(TextOpt::Prefix)) });
    exact.push(OptRule { name: "--no-prefix", label: "--no-prefix", effect: Effect::Enable(Flag::NoPrefix) });
    exact.push(OptRule { name: "--delete-branch", label: "--delete-branch", effect: Effect::Enable(Flag::DeleteBranch) });
    exact.push(OptRule { name: "--force-delete-branch", label: "--force-delete-branch", effect: Effect::EnablePair(Flag::DeleteBranch, Flag::ForceDeleteBranch) });
    exact.push(OptRule { name: "--format", label: "--format", effect: Effect::Value(ValueKind::Format) });
    exact.push(OptRule { name: "--json", label: "--json", effect: Effect::FormatIs(OutputFormat::Json) });
    let mut prefixed: Vec<PrefixRule> = Vec::new();
    prefixed.push(PrefixRule { prefix: "--format=", kind: ValueKind::Format });
    prefixed.push(PrefixRule { prefix: "--prefix=", kind: ValueKind::Text(TextOpt::Prefix) });
    let r = Rules { exact, prefixed, rest: Rest::Single { lone_dash: false }, name: "remove", extra_note: "" };
    assert(r@.exact =~= remove_rules().exact);
    assert(r@.prefixed =~= remove_rules().prefixed);
    r
}

/// Builds the rules of `archive`.
fn build_archive_rules() -> (r: Rules)
    ensures
        r@ == archive_rules(),
{
    let mut exact: Vec<OptRule> = Vec::new();
    exact.push(OptRule { name: "-h", label: "-h", effect: Effect::Help });
    exact.push(OptRule { name: "--help", label: "--help", effect: Effect::Help });
    exact.push(OptRule { name: "--prefix", label: "--prefix", effect: Effect::Value(ValueKind::Text(TextOpt::Prefix)) });
    exact.push(OptRule { name: "--no-prefix", label: "--no-prefix", effect: Effect::Enable(Flag::NoPrefix) });
    exact.push(OptRule { name: "--archive-dir", label: "--archive-dir", effect: Effect::Value(ValueKind::Text(TextOpt::ArchiveDir)) });
    exact.push(OptRule { name: "--force", label: "--force", effect: Effect::Enable(Flag::Force) });
    exact.push(OptRule { name: "-f", label: "-f", effect: Effect::Enable(Flag::Force) });
    exact.push(OptRule { name: "--yes", label: "--yes", effect: Effect::Enable(Flag::Yes) });
    exact.push(OptRule { name: "-y", label: "-y", effect: Effect::Enable(Flag::Yes) });
    exact.push(OptRule { name: "--dry-run", label: "--dry-run", effect: Effect::Enable(Flag::DryRun) });
    exact.push(OptRule { name: "-n", label: "-n", effect: Effect::Enable(Flag::DryRun) });
    exact.push(OptRule { name: "--format", label: "--format", effect: Effect::Value(ValueKind::Format) });
    exact.push(OptRule { name: "--json", label: "--json", effect: Effect::FormatIs(OutputFormat::Json) });
    let mut prefixed: Vec<PrefixRule> = Vec::new();
    prefixed.push(PrefixRule { prefix: "--prefix=", kind: ValueKind::Text(TextOpt::Prefix) });
    prefixed.push(PrefixRule { prefix: "--archive-dir=", kind: ValueKind::Text(TextOpt::ArchiveDir) });
    prefixed.push(PrefixRule { prefix: "--format=", kind: ValueKind::Format });
    let r = Rules { exact, prefixed, rest: Rest::Single { lone_dash: false }, name: "archive", extra_note: "" };
    assert(r@.exact =~= archive_rules().exact);
    assert(r@.prefixed =~= archive_rules().prefixed);
    r
}

/// Builds the rules of `prune`.
fn build_prune_rules() -> (r: Rules)
    ensures
        r@ == prune_rules(),
{
    let mut exact: Vec<OptRule> = Vec::new();
    exact.push(OptRule { name: "-h", label: "-h", effect: Effect::Help });
    exact.push(OptRule { name: "--help", label: "--help", effect: Effect::Help });
    exact.push(OptRule { name: "--merged", label: "--merged", effect: Effect::Enable(Flag::Merged) });
    exact.push(OptRule { name: "--older-than", label: "--older-than", effect: Effect::Value(ValueKind::OlderThan) });
    exact.push(OptRule { name: "--dry-run", label: "--dry-run", effect: Effect::Enable(Flag::DryRun) });
    exact.push(OptRule { name: "-n", label: "-n", effect: Effect::Enable(Flag::DryRun) });
    exact.push(OptRule { name: "--yes", label: "--yes", effect: Effect::Enable(Flag::Yes) });
    exact.push(OptRule { name: "-y", label: "-y", effect: Effect::Enable(Flag::Yes) });
    exact.push(OptRule { name: "--force", label: "--force", effect: Effect::Enable(Flag::Force) });
    exact.push(OptRule { name: "-f", label: "-f", effect: Effect::Enable(Flag::Force) });
    exact.push(OptRule { name: "--format", label: "--format", effect: Effect::Value(ValueKind::Format) });
    exact.push(OptRule { name: "--json", label: "--json", effect: Effect::FormatIs(OutputFormat::Json) });
    let mut prefixed: Vec<PrefixRule> = Vec::new();
    prefixed.push(PrefixRule { prefix: "--format=", kind: ValueKind::Format });
    prefixed.push(PrefixRule { prefix: "--older-than=", kind: ValueKind::OlderThan });
    let r = Rules { exact, prefixed, rest: Rest::Reject, name: "prune", extra_note: "" };
    assert(r@.exact =~= prune_rules().exact);
    assert(r@.prefixed =~= prune_rules().prefixed);
    r
}

/// Builds the rules of `shell-init`.
fn build_shell_init_rules() -> (r: Rules)
    ensures
        r@ == shell_init_rules(),
{
    let mut exact: Vec<OptRule> = Vec::new();
    exact.push(OptRule { name: "-h", label: "-h", effect: Effect::Help });
    exact.push(OptRule { name: "--help", label: "--help", effect: Effect::Help });
    exact.push(OptRule { name: "--shell", label: "--shell", effect: Effect::Value(ValueKind::Shell) });
    let mut prefixed: Vec<PrefixRule> = Vec::new();
    prefixed.push(PrefixRule { prefix: "--shell=", kind: ValueKind::Shell });
    let r = Rules { exact, prefixed, rest: Rest::Reject, name: "shell-init", extra_note: "" };
    assert(r@.exact =~= shell_init_rules().exact);
    assert(r@.prefixed =~= shell_init_rules().prefixed);
    r
}

/// Builds the rules of `doctor`.
fn build_doctor_rules() -> (r: Rules)
    ensures
        r@ == doctor_rules(),
{
    let mut exact: Vec<OptRule> = Vec::new();
    exact.push(OptRule { name: "-h", label: "-h", effect: Effect::Help });
    exact.push(OptRule { name: "--help", label: "--help", effect: Effect::Help });
    exact.push(OptRule { name: "--format", label: "--format", effect: Effect::Value(ValueKind::Format) });
    exact.push(OptRule { name: "--json", label: "--json", effect: Effect::FormatIs(OutputFormat::Json) });
    let mut prefixed: Vec<PrefixRule> = Vec::new();
    prefixed.push(PrefixRule { prefix: "--format=", kind: ValueKind::Format });
    let r = Rules { exact, prefixed, rest: Rest::Reject, name: "doctor", extra_note: "" };
    assert(r@.exact =~= doctor_rules().exact);
    assert(r@.prefixed =~= doctor_rules().prefixed);
    r
}

/// Builds the rules of a subcommand.
fn rules_for(sub: Sub) -> (r: Rules)
    ensures
        r@ == rules_of(sub),
{
    match sub {
        Sub::New => build_new_rules(),
        Sub::Go => build_go_rules(),
        Sub::Switch => build_switch_rules(),
        Sub::Describe => build_describe_rules(),
        Sub::Sessions => build_sessions_rules(),
        Sub::Ui => build_ui_rules(),
        Sub::Config => build_config_rules(),
        Sub::Merge => build_merge_rules(),
        Sub::Path => build_path_rules(),
        Sub::List => build_list_rules(),
        Sub::Watch => build_watch_rules(),
        Sub::Search => build_search_rules(),
        Sub::Tmux => build_tmux_rules(),
        Sub::Docker => build_docker_rules(),
        Sub::Remove => build_remove_rules(),
        Sub::Archive => build_archive_rules(),
        Sub::Prune => build_prune_rules(),
        Sub::ShellInit => build_shell_init_rules(),
        Sub::Doctor => build_doctor_rules(),
    }
}

// ---------------------------------------------------------------------------
// Reading the options
// ---------------------------------------------------------------------------

impl Opts<String, Vec<String>> {
    /// The state before any option is read.
    fn initial(fast: bool) -> (r: Self)
        ensures
            r@ == initial_opts(fast),
    {
        let r = Opts {
            flags: Flags {
                no_prefix: false,
                detach: false,
                dry_run: false,
                attach: true,
                create: false,
                clear: false,
                no_ff: false,
                remove: false,
                delete_branch: false,
                kill_session: false,
                cleanup: false,
                yes: false,
                fast: fast,
                once: false,
                print: false,
                path_only: false,
                tmux: false,
                no_fzf: false,
                doctor: false,
                force: false,
                force_delete_branch: false,
                merged: false,
            },
            texts: Texts {
                prefix: None,
                branch: None,
                base: None,
                path: None,
                description: None,
                template: None,
                session: None,
                prompt_file: None,
                codex_cmd: None,
                editor_cmd: None,
                layout: None,
                into: None,
                service: None,
                archive_dir: None,
            },
            format: OutputFormat::Text,
            shell: Shell::Bash,
            interval_ms: 1000,
            older_than_days: None,
            left_width: None,
            bottom_height: None,
            target: None,
            words: Vec::new(),
            passthrough: false,
        };
        assert(r@.words =~= Seq::<Seq<char>>::empty());
        r
    }

    /// The state with a positional word appended.
    fn with_word(self, w: String) -> (r: Self)
        ensures
            r@ == (Opts { words: self@.words.push(w@), ..self@ }),
    {
        let mut words = self.words;
        let ghost before = strings_view(words@);
        words.push(w);
        assert(strings_view(words@) =~= before.push(w@));
        Opts { words, ..self }
    }
}

/// Flags with one set to `b`.
fn flags_set(fl: Flags, f: Flag, b: bool) -> (r: Flags)
    ensures
        r == flags_with(fl, f, b),
{
    proof {
        reveal(flags_with);
    }
    match f {
        Flag::NoPrefix => Flags { no_prefix: b, ..fl },
        Flag::Detach => Flags { detach: b, ..fl },
        Flag::DryRun => Flags { dry_run: b, ..fl },
        Flag::Attach => Flags { attach: b, ..fl },
        Flag::Create => Flags { create: b, ..fl },
        Flag::Clear => Flags { clear: b, ..fl },
        Flag::NoFf => Flags { no_ff: b, ..fl },
        Flag::Remove => Flags { remove: b, ..fl },
        Flag::DeleteBranch => Flags { delete_branch: b, ..fl },
        Flag::KillSession => Flags { kill_session: b, ..fl },
        Flag::Cleanup => Flags { cleanup: b, ..fl },
        Flag::Yes => Flags { yes: b, ..fl },
        Flag::Fast => Flags { fast: b, ..fl },
        Flag::Once => Flags { once: b, ..fl },
        Flag::Print => Flags { print: b, ..fl },
        Flag::PathOnly => Flags { path_only: b, ..fl },
        Flag::Tmux => Flags { tmux: b, ..fl },
        Flag::NoFzf => Flags { no_fzf: b, ..fl },
        Flag::Doctor => Flags { doctor: b, ..fl },
        Flag::Force => Flags { force: b, ..fl },
        Flag::ForceDeleteBranch => Flags { force_delete_branch: b, ..fl },
        Flag::Merged => Flags { merged: b, ..fl },
    }
}

/// Sets a text option.
fn set_text(t: &mut Texts, k: TextOpt, v: String)
    ensures
        final(t)@ == texts_with(old(t)@, k, v@),
{
    proof {
        reveal(texts_with);
    }
    match k {
        TextOpt::Prefix => { t.prefix = Some(v); },
        TextOpt::Branch => { t.branch = Some(v); },
        TextOpt::Base => { t.base = Some(v); },
        TextOpt::Path => { t.path = Some(v); },
        TextOpt::Description => { t.description = Some(v); },
        TextOpt::Template => { t.template = Some(v); },
        TextOpt::Session => { t.session = Some(v); },
        TextOpt::PromptFile => { t.prompt_file = Some(v); },
        TextOpt::CodexCmd => { t.codex_cmd = Some(v); },
        TextOpt::EditorCmd => { t.editor_cmd = Some(v); },
        TextOpt::Layout => { t.layout = Some(v); },
        TextOpt::Into => { t.into = Some(v); },
        TextOpt::Service => { t.service = Some(v); },
        TextOpt::ArchiveDir => { t.archive_dir = Some(v); },
    }
}

/// A message: `a`, then `b`, then `c`.
fn message3(a: &str, b: &str, c: &str) -> (r: String)
    ensures
        r@ == a@ + b@ + c@,
{
    let mut m = String::new();
    push_str(&mut m, a);
    push_str(&mut m, b);
    push_str(&mut m, c);
    m
}

/// Reads a positive `u64` option value.
fn positive_u64_of(v: &str) -> (r: Option<u64>)
    ensures
        r == positive_u64(v@),
{
    proof {
        reveal(positive_u64);
    }
    match parse_unsigned_chars(&chars_of(v), u64::MAX) {
        Some(n) => if n > 0 { Some(n) } else { None },
        None => None,
    }
}

/// Reads a `--shell` value.
fn shell_of(v: &str) -> (r: Option<Shell>)
    ensures
        r == shell_named(v@),
{
    let c = chars_of(v);
    if eq_lit(&c, "bash") {
        Some(Shell::Bash)
    } else if eq_lit(&c, "zsh") {
        Some(Shell::Zsh)
    } else if eq_lit(&c, "fish") {
        Some(Shell::Fish)
    } else {
        None
    }
}

/// Reads an option value into the state, or the usage message.
fn read_value(o: Opts, kind: ValueKind, v: &str) -> (r: core::result::Result<Opts, String>)
    ensures
        match apply_value(o@, kind, v@) {
            Ok(o2) => r matches Ok(x) && x@ == o2,
            Err(m) => r matches Err(e) && e@ == m,
        },
{
    match kind {
        ValueKind::Text(t) => Ok(with_text_value(o, t, v.to_string())),
        ValueKind::Format => read_format(o, v),
        ValueKind::Interval => read_interval(o, v),
        ValueKind::OlderThan => read_older_than(o, v),
        ValueKind::LeftWidth => read_left_width(o, v),
        ValueKind::BottomHeight => read_bottom_height(o, v),
        ValueKind::Shell => read_shell(o, v),
    }
}

/// Reads a `--format` value.
fn read_format(o: Opts, v: &str) -> (r: core::result::Result<Opts, String>)
    ensures
        match apply_value(o@, ValueKind::Format, v@) {
            Ok(o2) => r matches Ok(x) && x@ == o2,
            Err(m) => r matches Err(e) && e@ == m,
        },
{
    match OutputFormat::parse(v) {
        Some(f) => Ok(Opts { format: f, ..o }),
        None => Err(message3("invalid format ", v, "; expected one of: text, json, shell")),
    }
}

/// Reads an `--interval` value.
fn read_interval(o: Opts, v: &str) -> (r: core::result::Result<Opts, String>)
    ensures
        match apply_value(o@, ValueKind::Interval, v@) {
            Ok(o2) => r matches Ok(x) && x@ == o2,
            Err(m) => r matches Err(e) && e@ == m,
        },
{
    match positive_u64_of(v) {
        Some(n) => Ok(Opts { interval_ms: n, ..o }),
        None => Err("--interval requires a positive integer".to_string()),
    }
}

/// Reads an `--older-than` value.
fn read_older_than(o: Opts, v: &str) -> (r: core::result::Result<Opts, String>)
    ensures
        match apply_value(o@, ValueKind::OlderThan, v@) {
            Ok(o2) => r matches Ok(x) && x@ == o2,
            Err(m) => r matches Err(e) && e@ == m,
        },
{
    match positive_u64_of(v) {
        Some(n) => Ok(Opts { older_than_days: Some(n), ..o }),
        None => Err("--older-than requires a positive integer".to_string()),
    }
}

/// Reads a percentage option value.
fn percent_of(v: &str) -> (r: Option<u8>)
    ensures
        r == percent_value(v@),
{
    match parse_unsigned_chars(&chars_of(v), 100) {
        Some(n) => Some(n as u8),
        None => None,
    }
}

/// Reads a `--left-width` value.
fn read_left_width(o: Opts, v: &str) -> (r: core::result::Result<Opts, String>)
    ensures
        match apply_value(o@, ValueKind::LeftWidth, v@) {
            Ok(o2) => r matches Ok(x) && x@ == o2,
            Err(m) => r matches Err(e) && e@ == m,
        },
{
    match percent_of(v) {
        Some(n) => Ok(Opts { left_width: Some(n), ..o }),
        None => Err("--left-width requires a percentage 0-100".to_string()),
    }
}

/// Reads a `--bottom-height` value.
fn read_bottom_height(o: Opts, v: &str) -> (r: core::result::Result<Opts, String>)
    ensures
        match apply_value(o@, ValueKind::BottomHeight, v@) {
            Ok(o2) => r matches Ok(x) && x@ == o2,
            Err(m) => r matches Err(e) && e@ == m,
        },
{
    match percent_of(v) {
        Some(n) => Ok(Opts { bottom_height: Some(n), ..o }),
        None => Err("--bottom-height requires a percentage 0-100".to_string()),
    }
}

/// Reads a `--shell` value.
fn read_shell(o: Opts, v: &str) -> (r: core::result::Result<Opts, String>)
    ensures
        match apply_value(o@, ValueKind::Shell, v@) {
            Ok(o2) => r matches Ok(x) && x@ == o2,
            Err(m) => r matches Err(e) && e@ == m,
        },
{
    match shell_of(v) {
        Some(sh) => Ok(Opts { shell: sh, ..o }),
        None => Err(message3("invalid shell ", v, "; expected bash, zsh, or fish")),
    }
}

/// The state with a text option set.
fn with_text_value(o: Opts, k: TextOpt, v: String) -> (r: Opts)
    ensures
        r@ == with_text(o@, k, v@),
{
    let mut t = o.texts;
    set_text(&mut t, k, v);
    Opts { texts: t, ..o }
}

/// Applies a value-less effect.
fn apply_effect_to(o: Opts, e: Effect) -> (r: Opts)
    ensures
        r@ == apply_effect(o@, e),
{
    match e {
        Effect::Enable(f) => Opts { flags: flags_set(o.flags, f, true), ..o },
        Effect::Disable(f) => Opts { flags: flags_set(o.flags, f, false), ..o },
        Effect::EnablePair(f, g) => Opts { flags: flags_set(flags_set(o.flags, f, true), g, true), ..o },
        Effect::NoTemplate => with_text_value(o, TextOpt::Template, String::new()),
        Effect::FormatIs(f) => Opts { format: f, ..o },
        Effect::Passthrough => Opts { passthrough: true, ..o },
        _ => o,
    }
}

/// The first rule named `tok`.
fn find_rule_in(rules: &Vec<OptRule>, tok: &str) -> (r: Option<OptRule>)
    ensures
        match find_rule(rules@.map_values(|x: OptRule| x@), tok@) {
            Some(x) => r is Some && r->0@ == x,
            None => r is None,
        },
{
    let ghost v = rules@.map_values(|x: OptRule| x@);
    let mut i: usize = 0;
    assert(v.skip(0) =~= v);
    while i < rules.len()
        invariant
            i <= rules.len(),
            v == rules@.map_values(|x: OptRule| x@),
            find_rule(v, tok@) == find_rule(v.skip(i as int), tok@),
        decreases rules.len() - i,
    {
        let rule = rules[i];
        assert(v.skip(i as int)[0] == rule@);
        assert(v.skip(i as int).drop_first() =~= v.skip(i + 1));
        if str_eq(rule.name, tok) {
            return Some(rule);
        }
        i += 1;
    }
    None
}

/// The first prefix rule whose prefix `tok` starts with.
fn find_prefix_in(rules: &Vec<PrefixRule>, tok: &str) -> (r: Option<PrefixRule>)
    ensures
        match find_prefix(rules@.map_values(|x: PrefixRule| x@), tok@) {
            Some(x) => r is Some && r->0@ == x,
            None => r is None,
        },
{
    let ghost v = rules@.map_values(|x: PrefixRule| x@);
    let t = chars_of(tok);
    let mut i: usize = 0;
    assert(v.skip(0) =~= v);
    while i < rules.len()
        invariant
            i <= rules.len(),
            v == rules@.map_values(|x: PrefixRule| x@),
            t@ == tok@,
            find_prefix(v, tok@) == find_prefix(v.skip(i as int), tok@),
        decreases rules.len() - i,
    {
        let rule = rules[i];
        assert(v.skip(i as int)[0] == rule@);
        assert(v.skip(i as int).drop_first() =~= v.skip(i + 1));
        if has_prefix_lit(&t, rule.prefix) {
            return Some(rule);
        }
        i += 1;
    }
    None
}

/// Whether an argument reads as an option.
fn is_option_like(tok: &[char], lone_dash: bool) -> (r: bool)
    ensures
        r == option_like(tok@, lone_dash),
{
    has_prefix_lit(tok, "-") && !(lone_dash && eq_lit(tok, "-"))
}

/// Applies the subcommand's rule for an argument that matches no option.
fn read_rest(rules: &Rules, o: Opts, tok: &str) -> (r: core::result::Result<Opts, String>)
    ensures
        match rest_step(rules@, o@, tok@) {
            Ok(o2) => r matches Ok(x) && x@ == o2,
            Err(m) => r matches Err(e) && e@ == m,
        },
{
    let t = chars_of(tok);
    let lone_dash = match rules.rest {
        Rest::Reject => {
            return Err(unknown_option(rules.name, tok));
        },
        Rest::Single { lone_dash } => lone_dash,
        Rest::Words => true,
        Rest::Collect => false,
        Rest::Command => false,
    };
    if is_option_like(&t, lone_dash) {
        return Err(unknown_option(rules.name, tok));
    }
    accept_rest(rules, o, tok)
}

/// Takes a word that is not an option as the target or a positional word.
fn accept_rest(rules: &Rules, o: Opts, tok: &str) -> (r: core::result::Result<Opts, String>)
    requires
        rules.rest != Rest::Reject,
        !option_like(tok@, match rules.rest {
            Rest::Single { lone_dash } => lone_dash,
            Rest::Words => true,
            _ => false,
        }),
    ensures
        match rest_step(rules@, o@, tok@) {
            Ok(o2) => r matches Ok(x) && x@ == o2,
            Err(m) => r matches Err(e) && e@ == m,
        },
{
    match rules.rest {
        Rest::Single { lone_dash: _ } => {
            if o.target.is_some() {
                Err(message3("unexpected extra argument ", tok, rules.extra_note))
            } else {
                Ok(Opts { target: Some(tok.to_string()), ..o })
            }
        },
        Rest::Words => {
            if o.target.is_none() {
                Ok(Opts { target: Some(tok.to_string()), ..o })
            } else {
                Ok(o.with_word(tok.to_string()))
            }
        },
        Rest::Command => {
            let o2 = o.with_word(tok.to_string());
            Ok(Opts { passthrough: true, ..o2 })
        },
        _ => Ok(o.with_word(tok.to_string())),
    }
}

/// "unknown <name> option <tok>".
fn unknown_option(name: &str, tok: &str) -> (r: String)
    ensures
        r@ == "unknown "@ + name@ + " option "@ + tok@,
{
    let mut m = String::new();
    push_str(&mut m, "unknown ");
    push_str(&mut m, name);
    push_str(&mut m, " option ");
    push_str(&mut m, tok);
    m
}

/// Reads `args` through the rules, starting from `init`.
fn run_rules(rules: &Rules, args: &[String], init: Opts) -> (r: Outcome)
    ensures
        r@ == run(rules@, strings_view(args@), 0, init@),
{
    let ghost av = strings_view(args@);
    let mut o = init;
    let mut i: usize = 0;
    while i < args.len()
        invariant
            i <= args.len(),
            av == strings_view(args@),
            run(rules@, av, 0, init@) == run(rules@, av, i as nat, o@),
        decreases args.len() - i,
    {
        let tok = args[i].as_str();
        assert(av[i as int] == tok@);
        let ghost o0 = o@;
        if o.passthrough {
            o = o.with_word(tok.to_string());
            i += 1;
        } else {
            match find_rule_in(&rules.exact, tok) {
                Some(rule) => {
                    match rule.effect {
                        Effect::Help => {
                            return Outcome::Help;
                        },
                        Effect::Watch => {
                            return Outcome::Watch;
                        },
                        Effect::Value(kind) => {
                            if i + 1 < args.len() {
                                assert(av[i + 1] == args@[i + 1]@);
                                match read_value(o, kind, args[i + 1].as_str()) {
                                    Ok(o2) => {
                                        o = o2;
                                        i += 2;
                                    },
                                    Err(m) => {
                                        return Outcome::Fail(m);
                                    },
                                }
                            } else {
                                let mut m = String::new();
                                push_str(&mut m, rule.label);
                                push_str(&mut m, " requires a value");
                                return Outcome::Fail(m);
                            }
                        },
                        _ => {
                            o = apply_effect_to(o, rule.effect);
                            i += 1;
                        },
                    }
                },
                None => {
                    match find_prefix_in(&rules.prefixed, tok) {
                        Some(p) => {
                            let v = string_of(&trim_start_matches_lit(&chars_of(tok), p.prefix));
                            match read_value(o, p.kind, v.as_str()) {
                                Ok(o2) => {
                                    o = o2;
                                    i += 1;
                                },
                                Err(m) => {
                                    return Outcome::Fail(m);
                                },
                            }
                        },
                        None => {
                            match read_rest(rules, o, tok) {
                                Ok(o2) => {
                                    o = o2;
                                    i += 1;
                                },
                                Err(m) => {
                                    return Outcome::Fail(m);
                                },
                            }
                        },
                    }
                },
            }
        }
    }
    Outcome::Done(o)
}

// ---------------------------------------------------------------------------
// Building the command
// ---------------------------------------------------------------------------

/// An optional text, or a default.
fn text_or_default(o: Option<String>, default: &str) -> (r: String)
    ensures
        r@ == text_or(opt_view(o), default@),
{
    match o {
        Some(t) => t,
        None => default.to_string(),
    }
}

/// A usage error from a message.
fn usage_of(m: &str) -> (e: GatError)
    ensures
        e@ == usage_error(m@),
{
    GatError::Usage(m.to_string())
}

/// The `gat config` sub-action named by the positional words.
fn config_action_of(o: &Opts) -> (r: Result<ConfigAction>)
    ensures
        match config_action(o@) {
            Ok(a) => r matches Ok(x) && x@ == a,
            Err(e) => r matches Err(x) && x@ == e,
        },
{
    let n = o.words.len();
    if n == 0 {
        return Err(usage_of("config requires a subcommand: init|path|list|get|set"));
    }
    assert(strings_view(o.words@)[0] == o.words@[0]@);
    let sub = o.words[0].as_str();
    if str_eq(sub, "init") {
        Ok(ConfigAction::Init { force: o.flags.force })
    } else if str_eq(sub, "path") {
        Ok(ConfigAction::Path)
    } else if str_eq(sub, "list") {
        Ok(ConfigAction::List)
    } else if str_eq(sub, "get") {
        if n > 1 {
            assert(strings_view(o.words@)[1] == o.words@[1]@);
            Ok(ConfigAction::Get { key: o.words[1].clone() })
        } else {
            Err(usage_of("config get requires a key"))
        }
    } else if str_eq(sub, "set") {
        if n <= 1 {
            Err(usage_of("config set requires a key and value"))
        } else if n <= 2 {
            Err(usage_of("config set requires a value"))
        } else {
            assert(strings_view(o.words@)[1] == o.words@[1]@);
            let rest = &o.words.as_slice()[2..n];
            assert(strings_view(rest@) =~= strings_view(o.words@).skip(2));
            Ok(ConfigAction::SetValue { key: o.words[1].clone(), value: join_with_spaces(rest) })
        }
    } else {
        let mut m = String::new();
        push_str(&mut m, "unknown config subcommand '");
        push_str(&mut m, sub);
        push_str(&mut m, "'; expected init|path|list|get|set");
        Err(GatError::Usage(m))
    }
}

/// The `gat describe` description: cleared, absent, or the words joined.
fn describe_text(o: &Opts) -> (r: Option<String>)
    ensures
        opt_view(r) == (if o@.flags.clear {
            Some(Seq::<char>::empty())
        } else if o@.words.len() == 0 {
            None
        } else {
            Some(join_words(o@.words))
        }),
{
    if o.flags.clear {
        Some(String::new())
    } else if o.words.len() == 0 {
        None
    } else {
        Some(join_with_spaces(o.words.as_slice()))
    }
}

/// The `new` command built from the options read.
fn finish_new(o: Opts) -> (r: Result<Command>)
    ensures
        result_view(r) == finish(Sub::New, o@),
{
    match o.target {
        Some(t) => Ok(Command::New(NewArgs {
            target: t,
            prefix: o.texts.prefix,
            no_prefix: o.flags.no_prefix,
            branch: o.texts.branch,
            base: o.texts.base,
            path: o.texts.path,
            detach: o.flags.detach,
            description: o.texts.description,
            template: o.texts.template,
            dry_run: o.flags.dry_run,
            format: o.format,
        })),
        None => Err(usage_of("missing ticket or branch")),
    }
}

/// The `go` command built from the options read.
fn finish_go(o: Opts) -> (r: Result<Command>)
    ensures
        result_view(r) == finish(Sub::Go, o@),
{
    match o.target {
        Some(t) => Ok(Command::Go(GoArgs { target: t, prefix: o.texts.prefix, no_prefix: o.flags.no_prefix, create: o.flags.create, format: o.format })),
        None => Err(usage_of("missing worktree target")),
    }
}

/// The `switch` command built from the options read.
fn finish_switch(o: Opts) -> (r: Result<Command>)
    ensures
        result_view(r) == finish(Sub::Switch, o@),
{
    match o.target {
        Some(t) => Ok(Command::Switch(SwitchArgs {
            target: t,
            prefix: o.texts.prefix,
            no_prefix: o.flags.no_prefix,
            session: o.texts.session,
            prompt_file: o.texts.prompt_file,
            codex_cmd: text_or_default(o.texts.codex_cmd, "codex"),
            editor_cmd: text_or_default(o.texts.editor_cmd, "nvim"),
            layout: o.texts.layout,
            left_width: o.left_width,
            bottom_height: o.bottom_height,
            attach: o.flags.attach,
            dry_run: o.flags.dry_run,
            format: o.format,
        })),
        None => Err(usage_of("switch requires a target")),
    }
}

/// The `describe` command built from the options read.
fn finish_describe(o: Opts) -> (r: Result<Command>)
    ensures
        result_view(r) == finish(Sub::Describe, o@),
{
    {
        let description = describe_text(&o);
        match o.target {
            Some(t) => Ok(Command::Describe(DescribeArgs {
                target: t,
                prefix: o.texts.prefix,
                no_prefix: o.flags.no_prefix,
                description,
                format: o.format,
            })),
            None => Err(usage_of("describe requires a target")),
        }
    }
}

/// The `sessions` command built from the options read.
fn finish_sessions(o: Opts) -> (r: Result<Command>)
    ensures
        result_view(r) == finish(Sub::Sessions, o@),
{
    Ok(Command::Sessions(SessionsArgs { format: o.format }))
}

/// The `ui` command built from the options read.
fn finish_ui(o: Opts) -> (r: Result<Command>)
    ensures
        result_view(r) == finish(Sub::Ui, o@),
{
    Ok(Command::Ui(UiArgs { fast: o.flags.fast }))
}

/// The `config` command built from the options read.
fn finish_config(o: Opts) -> (r: Result<Command>)
    ensures
        result_view(r) == finish(Sub::Config, o@),
{
    match config_action_of(&o) {
        Ok(action) => Ok(Command::Config(ConfigArgs { action, format: o.format })),
        Err(e) => Err(e),
    }
}

/// The `merge` command built from the options read.
fn finish_merge(o: Opts) -> (r: Result<Command>)
    ensures
        result_view(r) == finish(Sub::Merge, o@),
{
    match o.target {
        Some(t) => Ok(Command::Merge(MergeArgs {
            target: t,
            prefix: o.texts.prefix,
            no_prefix: o.flags.no_prefix,
            into: o.texts.into,
            no_ff: o.flags.no_ff,
            remove: o.flags.remove,
            delete_branch: o.flags.delete_branch,
            kill_session: o.flags.kill_session,
            cleanup: o.flags.cleanup,
            yes: o.flags.yes,
            dry_run: o.flags.dry_run,
            format: o.format,
        })),
        None => Err(usage_of("merge requires a target")),
    }
}

/// The `path` command built from the options read.
fn finish_path(o: Opts) -> (r: Result<Command>)
    ensures
        result_view(r) == finish(Sub::Path, o@),
{
    match o.target {
        Some(t) => Ok(Command::Path(PathArgs { target: t, prefix: o.texts.prefix, no_prefix: o.flags.no_prefix })),
        None => Err(usage_of("path requires a target")),
    }
}

/// The `list` command built from the options read.
fn finish_list(o: Opts) -> (r: Result<Command>)
    ensures
        result_view(r) == finish(Sub::List, o@),
{
    Ok(Command::List(ListArgs { format: o.format, fast: o.flags.fast }))
}

/// The `watch` command built from the options read.
fn finish_watch(o: Opts) -> (r: Result<Command>)
    ensures
        result_view(r) == finish(Sub::Watch, o@),
{
    Ok(Command::Watch(WatchArgs { interval_ms: o.interval_ms, fast: o.flags.fast, once: o.flags.once }))
}

/// The `search` command built from the options read.
fn finish_search(o: Opts) -> (r: Result<Command>)
    ensures
        result_view(r) == finish(Sub::Search, o@),
{
    Ok(Command::Search(SearchArgs {
        query: o.target,
        print: o.flags.print,
        path: o.flags.path_only,
        tmux: o.flags.tmux,
        no_fzf: o.flags.no_fzf,
        fast: o.flags.fast,
        format: o.format,
    }))
}

/// The `tmux` command built from the options read.
fn finish_tmux(o: Opts) -> (r: Result<Command>)
    ensures
        result_view(r) == finish(Sub::Tmux, o@),
{
    match o.target {
        Some(t) => Ok(Command::Tmux(TmuxArgs {
            target: t,
            prefix: o.texts.prefix,
            no_prefix: o.flags.no_prefix,
            session: o.texts.session,
            prompt_file: o.texts.prompt_file,
            codex_cmd: text_or_default(o.texts.codex_cmd, "codex"),
            editor_cmd: text_or_default(o.texts.editor_cmd, "nvim"),
            layout: o.texts.layout,
            left_width: o.left_width,
            bottom_height: o.bottom_height,
            attach: o.flags.attach,
            dry_run: o.flags.dry_run,
            format: o.format,
        })),
        None => Err(usage_of("tmux requires a target")),
    }
}

/// The `docker` command built from the options read.
fn finish_docker(o: Opts) -> (r: Result<Command>)
    ensures
        result_view(r) == finish(Sub::Docker, o@),
{
    if o.flags.doctor && o.words.len() > 0 {
        Err(usage_of("dx --doctor does not accept a command"))
    } else {
        Ok(Command::Docker(DockerArgs { service: o.texts.service, doctor: o.flags.doctor, command: o.words }))
    }
}

/// The `remove` command built from the options read.
fn finish_remove(o: Opts) -> (r: Result<Command>)
    ensures
        result_view(r) == finish(Sub::Remove, o@),
{
    match o.target {
        Some(t) => Ok(Command::Remove(RemoveArgs {
            target: t,
            prefix: o.texts.prefix,
            no_prefix: o.flags.no_prefix,
            force: o.flags.force,
            yes: o.flags.yes,
            dry_run: o.flags.dry_run,
            delete_branch: o.flags.delete_branch,
            force_delete_branch: o.flags.force_delete_branch,
            format: o.format,
        })),
        None => Err(usage_of("missing worktree target")),
    }
}

/// The `archive` command built from the options read.
fn finish_archive(o: Opts) -> (r: Result<Command>)
    ensures
        result_view(r) == finish(Sub::Archive, o@),
{
    match o.target {
        Some(t) => Ok(Command::Archive(ArchiveArgs {
            target: t,
            prefix: o.texts.prefix,
            no_prefix: o.flags.no_prefix,
            archive_dir: o.texts.archive_dir,
            force: o.flags.force,
            yes: o.flags.yes,
            dry_run: o.flags.dry_run,
            format: o.format,
        })),
        None => Err(usage_of("archive requires a target")),
    }
}

/// The `prune` command built from the options read.
fn finish_prune(o: Opts) -> (r: Result<Command>)
    ensures
        result_view(r) == finish(Sub::Prune, o@),
{
    Ok(Command::Prune(PruneArgs {
        merged: o.flags.merged,
        older_than_days: o.older_than_days,
        dry_run: o.flags.dry_run,
        yes: o.flags.yes,
        force: o.flags.force,
        format: o.format,
    }))
}

/// The `shell_init` command built from the options read.
fn finish_shell_init(o: Opts) -> (r: Result<Command>)
    ensures
        result_view(r) == finish(Sub::ShellInit, o@),
{
    Ok(Command::ShellInit(ShellInitArgs { shell: o.shell }))
}

/// The `doctor` command built from the options read.
fn finish_doctor(o: Opts) -> (r: Result<Command>)
    ensures
        result_view(r) == finish(Sub::Doctor, o@),
{
    Ok(Command::Doctor(DoctorArgs { format: o.format }))
}

/// The command built from the options read.
fn finish_opts(sub: Sub, o: Opts) -> (r: Result<Command>)
    ensures
        result_view(r) == finish(sub, o@),
{
    match sub {
        Sub::New => finish_new(o),
        Sub::Go => finish_go(o),
        Sub::Switch => finish_switch(o),
        Sub::Describe => finish_describe(o),
        Sub::Sessions => finish_sessions(o),
        Sub::Ui => finish_ui(o),
        Sub::Config => finish_config(o),
        Sub::Merge => finish_merge(o),
        Sub::Path => finish_path(o),
        Sub::List => finish_list(o),
        Sub::Watch => finish_watch(o),
        Sub::Search => finish_search(o),
        Sub::Tmux => finish_tmux(o),
        Sub::Docker => finish_docker(o),
        Sub::Remove => finish_remove(o),
        Sub::Archive => finish_archive(o),
        Sub::Prune => finish_prune(o),
        Sub::ShellInit => finish_shell_init(o),
        Sub::Doctor => finish_doctor(o),
    }
}

// ---------------------------------------------------------------------------
// Parsing
// ---------------------------------------------------------------------------

/// The subcommand a first argument names.
fn subcommand_named(first: &str) -> (r: Option<Sub>)
    ensures
        r == sub_named(first@),
{
    if str_eq(first, "new") {
        Some(Sub::New)
    } else if str_eq(first, "add") {
        Some(Sub::New)
    } else if str_eq(first, "go") {
        Some(Sub::Go)
    } else if str_eq(first, "switch") {
        Some(Sub::Switch)
    } else if str_eq(first, "describe") {
        Some(Sub::Describe)
    } else if str_eq(first, "desc") {
        Some(Sub::Describe)
    } else if str_eq(first, "sessions") {
        Some(Sub::Sessions)
    } else if str_eq(first, "ui") {
        Some(Sub::Ui)
    } else if str_eq(first, "dashboard") {
        Some(Sub::Ui)
    } else if str_eq(first, "config") {
        Some(Sub::Config)
    } else if str_eq(first, "merge") {
        Some(Sub::Merge)
    } else if str_eq(first, "path") {
        Some(Sub::Path)
    } else if str_eq(first, "list") {
        Some(Sub::List)
    } else if str_eq(first, "ls") {
        Some(Sub::List)
    } else if str_eq(first, "watch") {
        Some(Sub::Watch)
    } else if str_eq(first, "search") {
        Some(Sub::Search)
    } else if str_eq(first, "find") {
        Some(Sub::Search)
    } else if str_eq(first, "tmux") {
        Some(Sub::Tmux)
    } else if str_eq(first, "session") {
        Some(Sub::Tmux)
    } else if str_eq(first, "start") {
        Some(Sub::Tmux)
    } else if str_eq(first, "dx") {
        Some(Sub::Docker)
    } else if str_eq(first, "docker") {
        Some(Sub::Docker)
    } else if str_eq(first, "rm") {
        Some(Sub::Remove)
    } else if str_eq(first, "remove") {
        Some(Sub::Remove)
    } else if str_eq(first, "delete") {
        Some(Sub::Remove)
    } else if str_eq(first, "archive") {
        Some(Sub::Archive)
    } else if str_eq(first, "prune") {
        Some(Sub::Prune)
    } else if str_eq(first, "shell-init") {
        Some(Sub::ShellInit)
    } else if str_eq(first, "doctor") {
        Some(Sub::Doctor)
    } else {
        None
    }
}

/// The command a finished read of the options yields.
fn settle_outcome(sub: Sub, out: Outcome) -> (r: Result<Command>)
    ensures
        result_view(r) == settle(sub, out@),
{
    match out {
        Outcome::Done(o) => finish_opts(sub, o),
        Outcome::Help => Ok(Command::Help),
        Outcome::Watch => Ok(Command::Watch(WatchArgs { interval_ms: 1000, fast: true, once: false })),
        Outcome::Fail(m) => Err(GatError::Usage(m)),
    }
}

/// Parses a subcommand's arguments.
fn parse_subcommand(sub: Sub, args: &[String]) -> (r: Result<Command>)
    ensures
        result_view(r) == parse_sub(sub, strings_view(args@)),
{
    let rules = rules_for(sub);
    let fast = sub == Sub::Watch || sub == Sub::Search;
    let out = run_rules(&rules, args, Opts::initial(fast));
    settle_outcome(sub, out)
}

/// Parses process arguments into a [`Command`].
///
/// Unknown first positional arguments are treated as the shorthand
/// `gat new <ticket>` because that is the primary user workflow.
pub fn parse(args: Vec<String>) -> (r: Result<Command>)
    ensures
        result_view(r) == parse_spec(strings_view(args@)),
{
    let ghost av = strings_view(args@);
    if args.len() == 0 {
        return Ok(Command::Help);
    }
    assert(av[0] == args@[0]@);
    let first = args[0].as_str();
    if str_eq(first, "-h") || str_eq(first, "--help") || str_eq(first, "help") {
        return Ok(Command::Help);
    }
    if str_eq(first, "-V") || str_eq(first, "--version") || str_eq(first, "version") {
        return Ok(Command::Version);
    }
    let n = args.len();
    match subcommand_named(first) {
        Some(sub) => {
            let rest = &args.as_slice()[1..n];
            assert(strings_view(rest@) =~= av.drop_first());
            parse_subcommand(sub, rest)
        },
        None => {
            if has_prefix_lit(&chars_of(first), "-") {
                let mut m = String::new();
                push_str(&mut m, "unknown option ");
                push_str(&mut m, first);
                push_str(&mut m, "; run `gat --help`");
                Err(GatError::Usage(m))
            } else {
                parse_subcommand(Sub::New, args.as_slice())
            }
        },
    }
}

/// The global help text.
pub const HELP_TEXT: &'static str = r#"gat - ticket-oriented Git worktree helper

Usage:
  gat <ticket> [options]              Create or reuse a ticket worktree
  gat new <ticket> [options]          Create or reuse a ticket worktree
  gat go <ticket|-|^|@> [options]     Print/switch to an existing worktree
  gat switch <ticket> [options]       Attach to (or open) the worktree's tmux session
  gat describe <ticket> [text]        Set/show a worktree description
  gat sessions [--format json]        List live gat tmux sessions
  gat ui [--fast]                     Interactive TUI dashboard (requires tui feature)
  gat config <init|path|list|get|set> Inspect or edit configuration
  gat path <ticket>                   Print a worktree path only
  gat list [--format text|json]       List worktrees
  gat watch [--interval 1000]         Watch worktrees
  gat search [query] [options]        Search worktrees with fzf or feed output
  gat tmux <ticket> [options]         Open Codex/nvim/shell tmux panes
  gat dx [options] [command ...]      Enter or run a worktree Docker container
  gat rm <ticket> [options]           Remove a worktree
  gat delete <ticket> [options]       Alias for rm
  gat archive <ticket> [options]      Move worktree to archive directory
  gat merge <ticket> [options]        Merge a ticket branch into the default branch
  gat prune [--merged] [options]      Prune stale or merged worktrees
  gat shell-init [--shell bash|zsh]   Print shell integration
  gat doctor                          Inspect local setup
  gat --version                       Print version

New options:
  --prefix <prefix>                   Prefix numeric tickets, default TICKET
  --no-prefix                         Keep numeric tickets unprefixed
  --base, --from <ref>                Create new branch from ref
  --branch <branch>                   Use branch name instead of ticket
  --path <path>                       Override computed worktree path
  --detach                            Create detached investigation worktree
  -d, --description <text>            Describe what the worktree is for
  -t, --template <name>               Apply a setup template after creation
  --no-template                       Skip templating even if a default exists
  -n, --dry-run                       Show planned action only
  --format text|json|shell            Output format

Target options for go/path/rm:
  --prefix <prefix>                   Prefix numeric ticket target
  --no-prefix                         Keep numeric target unprefixed

Tmux options:
  --session <name>                    Override tmux session name
  --prompt-file <path>                Prompt draft path, default ~/.config/gat
  --codex-cmd <cmd>                   Command for left pane, default codex
  --editor-cmd <cmd>                  Editor for prompt pane, default nvim
  --layout <preset>                   Layout preset: classic, ai-focus, editor-focus, wide
  --left-width <percent>              Left pane width 0-100, overrides the preset
  --bottom-height <percent>           Right bottom pane height 0-100, overrides the preset
  --no-attach                         Create/reuse without attaching
  -n, --dry-run                       Print tmux plan only
  --format text|json|shell            Output format

Switch options:
  (existing worktree only; never creates a worktree)
  --session <name>                    Override tmux session name
  --prompt-file <path>                Prompt draft path used when creating panes
  --codex-cmd <cmd>                   Command for left pane, default codex
  --editor-cmd <cmd>                  Editor for prompt pane, default nvim
  --layout <preset>                   Layout preset: classic, ai-focus, editor-focus, wide
  --left-width <percent>              Left pane width 0-100, overrides the preset
  --bottom-height <percent>           Right bottom pane height 0-100, overrides the preset
  --no-attach                         Ensure session without attaching
  -n, --dry-run                       Print switch plan only
  --format text|json|shell            Output format

Docker options:
  --service <name>                    Compose service to exec/run
  --doctor                            Print docker/worktree diagnostics

Search options:
  --print                             Print tab-separated worktree feed
  --path                              Print selected path only
  --tmux                              Open selected worktree tmux session
  --no-fzf                            Do not invoke fzf
  --full                              Include dirty/merged checks

Archive options:
  --archive-dir <path>                Archive root, default ../<repo>-archive
  -f, --force                         Archive dirty worktree
  -y, --yes                           Skip confirmation prompt

Remove options:
  -f, --force                         Remove dirty worktree
  -y, --yes                           Skip confirmation prompt
  --delete-branch                     Delete branch after removing worktree
  --force-delete-branch               Force delete branch after removal
  -n, --dry-run                       Show planned removal only

Prune options:
  --merged                            Remove merged, clean worktrees
  --older-than <days>                 Remove worktrees unused for N days
  -f, --force                         Include dirty worktrees when pruning by age
  -y, --yes                           Skip confirmation prompts
  -n, --dry-run                       Show planned pruning only

Merge options:
  --into <branch>                     Merge into this branch (default: repo default)
  --no-ff                             Always create a merge commit
  --remove                            Remove the worktree after a successful merge
  --delete-branch                     Remove worktree and delete the merged branch
  --kill-session                      Kill the worktree's tmux session after merge
  --cleanup                           Shorthand for --remove --delete-branch --kill-session
  -y, --yes                           Skip confirmation prompts
  -n, --dry-run                       Show planned merge/cleanup only
"#;

/// Returns global help text.
pub fn help() -> (r: &'static str)
    ensures
        r@ == HELP_TEXT@,
{
    HELP_TEXT
}

/// A first word that names no subcommand and is not an option is the
/// shorthand for `gat new`: `gat <ticket> ...` parses as
/// `gat new <ticket> ...`.
pub proof fn lemma_shorthand_is_new(args: Seq<Seq<char>>)
    requires
        args.len() > 0,
        sub_named(args[0]) is None,
        !starts_with(args[0], "-"@),
        args[0] != "help"@,
        args[0] != "version"@,
    ensures
        parse_spec(args) == parse_spec(seq!["new"@] + args),
{
    let full = seq!["new"@] + args;
    assert(full[0] == "new"@);
    assert(full.drop_first() =~= args);
    assert(sub_named("new"@) == Some(Sub::New));
    assert(args[0] != "-h"@ && args[0] != "--help"@ && args[0] != "-V"@ && args[0] != "--version"@) by {
        reveal_strlit("-h");
        reveal_strlit("--help");
        reveal_strlit("-V");
        reveal_strlit("--version");
        reveal_strlit("-");
        if args[0] == "-h"@ || args[0] == "--help"@ || args[0] == "-V"@ || args[0] == "--version"@ {
            assert(args[0].subrange(0, 1) =~= "-"@);
            assert(starts_with(args[0], "-"@));
        }
    }
    assert("new"@ != "-h"@ && "new"@ != "--help"@ && "new"@ != "help"@ && "new"@ != "-V"@ && "new"@ != "--version"@ && "new"@ != "version"@) by {
        reveal_strlit("new");
        reveal_strlit("-h");
        reveal_strlit("--help");
        reveal_strlit("help");
        reveal_strlit("-V");
        reveal_strlit("--version");
        reveal_strlit("version");
        assert("new"@[0] == 'n');
    }
}


/// The first rule named `tok` is the one at `j` when no earlier rule has
/// that name.
proof fn lemma_find_rule_at(rules: Seq<OptRule<Seq<char>>>, tok: Seq<char>, j: int)
    requires
        0 <= j < rules.len(),
        rules[j].name == tok,
        forall|k: int| 0 <= k < j ==> (#[trigger] rules[k]).name != tok,
    ensures
        find_rule(rules, tok) == Some(rules[j]),
    decreases j,
{
    if j > 0 {
        let rest = rules.drop_first();
        assert forall|k: int| 0 <= k < j - 1 implies (#[trigger] rest[k]).name != tok by {
            assert(rest[k] == rules[k + 1]);
        }
        lemma_find_rule_at(rest, tok, j - 1);
    }
}

/// No rule is found for a name that no rule has.
proof fn lemma_find_rule_none(rules: Seq<OptRule<Seq<char>>>, tok: Seq<char>)
    requires
        forall|k: int| 0 <= k < rules.len() ==> (#[trigger] rules[k]).name != tok,
    ensures
        find_rule(rules, tok) is None,
    decreases rules.len(),
{
    if rules.len() > 0 {
        let rest = rules.drop_first();
        assert forall|k: int| 0 <= k < rest.len() implies (#[trigger] rest[k]).name != tok by {
            assert(rest[k] == rules[k + 1]);
        }
        lemma_find_rule_none(rest, tok);
    }
}

/// No prefix rule is found for an argument that starts with none of the
/// prefixes.
proof fn lemma_find_prefix_none(rules: Seq<PrefixRule<Seq<char>>>, tok: Seq<char>)
    requires
        forall|k: int| 0 <= k < rules.len() ==> !starts_with(tok, (#[trigger] rules[k]).prefix),
    ensures
        find_prefix(rules, tok) is None,
    decreases rules.len(),
{
    if rules.len() > 0 {
        let rest = rules.drop_first();
        assert forall|k: int| 0 <= k < rest.len() implies !starts_with(tok, (#[trigger] rest[k]).prefix) by {
            assert(rest[k] == rules[k + 1]);
        }
        lemma_find_prefix_none(rest, tok);
    }
}

/// A word that does not start with `-` starts with no text that does.
proof fn lemma_no_dash_prefix(t: Seq<char>, p: Seq<char>)
    requires
        !starts_with(t, "-"@),
        p.len() > 0,
        p[0] == '-',
    ensures
        !starts_with(t, p),
        t != p,
{
    reveal_strlit("-");
    if starts_with(t, p) || t == p {
        assert(t[0] == p[0]);
        assert(t.subrange(0, 1) =~= "-"@);
    }
}

/// Every option name and prefix of `new` starts with `-`, so a plain ticket
/// matches none of them.
proof fn lemma_new_rules_miss_plain_word(t: Seq<char>)
    requires
        !starts_with(t, "-"@),
    ensures
        find_rule(new_rules().exact, t) is None,
        find_prefix(new_rules().prefixed, t) is None,
{
    reveal_strlit("-");
    reveal_strlit("--base");
    reveal_strlit("--branch");
    reveal_strlit("--desc");
    reveal_strlit("--desc=");
    reveal_strlit("--description");
    reveal_strlit("--description=");
    reveal_strlit("--detach");
    reveal_strlit("--dry-run");
    reveal_strlit("--format");
    reveal_strlit("--format=");
    reveal_strlit("--from");
    reveal_strlit("--from-ref");
    reveal_strlit("--help");
    reveal_strlit("--json");
    reveal_strlit("--no-prefix");
    reveal_strlit("--no-template");
    reveal_strlit("--path");
    reveal_strlit("--prefix");
    reveal_strlit("--prefix=");
    reveal_strlit("--shell");
    reveal_strlit("--template");
    reveal_strlit("--template=");
    reveal_strlit("-d");
    reveal_strlit("-h");
    reveal_strlit("-n");
    reveal_strlit("-t");
    let r = new_rules();
    assert(r.exact[0].name == "-h"@ && "-h"@[0] == '-');
    assert(r.exact[1].name == "--help"@ && "--help"@[0] == '-');
    assert(r.exact[2].name == "--branch"@ && "--branch"@[0] == '-');
    assert(r.exact[3].name == "--prefix"@ && "--prefix"@[0] == '-');
    assert(r.exact[4].name == "--no-prefix"@ && "--no-prefix"@[0] == '-');
    assert(r.exact[5].name == "--base"@ && "--base"@[0] == '-');
    assert(r.exact[6].name == "--from"@ && "--from"@[0] == '-');
    assert(r.exact[7].name == "--from-ref"@ && "--from-ref"@[0] == '-');
    assert(r.exact[8].name == "--path"@ && "--path"@[0] == '-');
    assert(r.exact[9].name == "--detach"@ && "--detach"@[0] == '-');
    assert(r.exact[10].name == "--description"@ && "--description"@[0] == '-');
    assert(r.exact[11].name == "-d"@ && "-d"@[0] == '-');
    assert(r.exact[12].name == "--desc"@ && "--desc"@[0] == '-');
    assert(r.exact[13].name == "--template"@ && "--template"@[0] == '-');
    assert(r.exact[14].name == "-t"@ && "-t"@[0] == '-');
    assert(r.exact[15].name == "--no-template"@ && "--no-template"@[0] == '-');
    assert(r.exact[16].name == "--dry-run"@ && "--dry-run"@[0] == '-');
    assert(r.exact[17].name == "-n"@ && "-n"@[0] == '-');
    assert(r.exact[18].name == "--format"@ && "--format"@[0] == '-');
    assert(r.exact[19].name == "--json"@ && "--json"@[0] == '-');
    assert(r.exact[20].name == "--shell"@ && "--shell"@[0] == '-');
    assert(r.prefixed[0].prefix == "--format="@ && "--format="@[0] == '-');
    assert(r.prefixed[1].prefix == "--prefix="@ && "--prefix="@[0] == '-');
    assert(r.prefixed[2].prefix == "--description="@ && "--description="@[0] == '-');
    assert(r.prefixed[3].prefix == "--desc="@ && "--desc="@[0] == '-');
    assert(r.prefixed[4].prefix == "--template="@ && "--template="@[0] == '-');
    assert forall|k: int| 0 <= k < r.exact.len() implies (#[trigger] r.exact[k]).name != t by {
        if k == 0 {} else if k == 1 {} else if k == 2 {} else if k == 3 {} else if k == 4 {} else if k == 5 {} else if k == 6 {} else if k == 7 {} else if k == 8 {} else if k == 9 {} else if k == 10 {} else if k == 11 {} else if k == 12 {} else if k == 13 {} else if k == 14 {} else if k == 15 {} else if k == 16 {} else if k == 17 {} else if k == 18 {} else if k == 19 {} else if k == 20 {}
        lemma_no_dash_prefix(t, r.exact[k].name);
    }
    assert forall|k: int| 0 <= k < r.prefixed.len() implies !starts_with(t, (#[trigger] r.prefixed[k]).prefix) by {
        if k == 0 {} else if k == 1 {} else if k == 2 {} else if k == 3 {} else if k == 4 {}
        lemma_no_dash_prefix(t, r.prefixed[k].prefix);
    }
    lemma_find_rule_none(r.exact, t);
    lemma_find_prefix_none(r.prefixed, t);
}

/// `gat <ticket> <flag>` for a flag option of `new` at position `j` of its
/// table: the ticket is the target and only that flag is switched on.
proof fn lemma_ticket_then_flag(t: Seq<char>, opt: Seq<char>, j: int, f: Flag)
    requires
        sub_named(t) is None,
        !starts_with(t, "-"@),
        t != "help"@,
        t != "version"@,
        0 <= j < new_rules().exact.len(),
        new_rules().exact[j].name == opt,
        new_rules().exact[j].effect == Effect::Enable(f),
        forall|k: int| 0 <= k < j ==> (#[trigger] new_rules().exact[k]).name != opt,
    ensures
        parse_spec(seq![t, opt]) == finish(Sub::New, with_flag(Opts { target: Some(t), ..initial_opts(false) }, f, true)),
{
    let args = seq![t, opt];
    lemma_shorthand_is_new(args);
    assert(t != "-h"@ && t != "--help"@ && t != "-V"@ && t != "--version"@) by {
        reveal_strlit("-h");
        reveal_strlit("--help");
        reveal_strlit("-V");
        reveal_strlit("--version");
        lemma_no_dash_prefix(t, "-h"@);
        lemma_no_dash_prefix(t, "--help"@);
        lemma_no_dash_prefix(t, "-V"@);
        lemma_no_dash_prefix(t, "--version"@);
    }
    lemma_new_rules_miss_plain_word(t);
    reveal_strlit("-");
    assert(!option_like(t, false));
    let o0 = initial_opts(false);
    let o1 = Opts { target: Some(t), ..o0 };
    assert(rest_step(new_rules(), o0, t) == Ok::<OptsView, Seq<char>>(o1));
    lemma_find_rule_at(new_rules().exact, opt, j);
    assert(run(new_rules(), args, 2, apply_effect(o1, Effect::Enable(f))) == Outcome::Done(with_flag(o1, f, true)));
    assert(run(new_rules(), args, 1, o1) == Outcome::Done(with_flag(o1, f, true)));
    assert(run(new_rules(), args, 0, o0) == Outcome::Done(with_flag(o1, f, true)));
}

/// `gat t --detach` for a plain ticket `t`.
#[verifier::spinoff_prover]
proof fn lemma_ticket_detach(t: Seq<char>)
    requires
        sub_named(t) is None,
        !starts_with(t, "-"@),
        t != "help"@,
        t != "version"@,
    ensures
        parse_spec(seq![t, "--detach"@]) == finish(Sub::New, with_flag(Opts { target: Some(t), ..initial_opts(false) }, Flag::Detach, true)),
{
    reveal_strlit("--base");
    reveal_strlit("--branch");
    reveal_strlit("--detach");
    reveal_strlit("--from");
    reveal_strlit("--from-ref");
    reveal_strlit("--help");
    reveal_strlit("--no-prefix");
    reveal_strlit("--path");
    reveal_strlit("--prefix");
    reveal_strlit("-h");
    let r = new_rules();
    assert(r.exact[0].name == "-h"@);
    assert(r.exact[1].name == "--help"@);
    assert(r.exact[2].name == "--branch"@);
    assert(r.exact[3].name == "--prefix"@);
    assert(r.exact[4].name == "--no-prefix"@);
    assert(r.exact[5].name == "--base"@);
    assert(r.exact[6].name == "--from"@);
    assert(r.exact[7].name == "--from-ref"@);
    assert(r.exact[8].name == "--path"@);
    assert(r.exact[9].name == "--detach"@);
    assert forall|k: int| 0 <= k < 9 implies (#[trigger] r.exact[k]).name != "--detach"@ by {
        if k == 0 {} else if k == 1 {} else if k == 2 {} else if k == 3 {} else if k == 4 {} else if k == 5 {} else if k == 6 {} else if k == 7 {} else if k == 8 {}
        assert(r.exact[k].name.len() != 8 || r.exact[k].name[2] != "--detach"@[2]);
    }
    lemma_ticket_then_flag(t, "--detach"@, 9, Flag::Detach);
}

/// `gat t --dry-run` for a plain ticket `t`.
#[verifier::spinoff_prover]
proof fn lemma_ticket_dry_run(t: Seq<char>)
    requires
        sub_named(t) is None,
        !starts_with(t, "-"@),
        t != "help"@,
        t != "version"@,
    ensures
        parse_spec(seq![t, "--dry-run"@]) == finish(Sub::New, with_flag(Opts { target: Some(t), ..initial_opts(false) }, Flag::DryRun, true)),
{
    reveal_strlit("--base");
    reveal_strlit("--branch");
    reveal_strlit("--desc");
    reveal_strlit("--description");
    reveal_strlit("--detach");
    reveal_strlit("--dry-run");
    reveal_strlit("--from");
    reveal_strlit("--from-ref");
    reveal_strlit("--help");
    reveal_strlit("--no-prefix");
    reveal_strlit("--no-template");
    reveal_strlit("--path");
    reveal_strlit("--prefix");
    reveal_strlit("--template");
    reveal_strlit("-d");
    reveal_strlit("-h");
    reveal_strlit("-t");
    let r = new_rules();
    assert(r.exact[0].name == "-h"@);
    assert(r.exact[1].name == "--help"@);
    assert(r.exact[2].name == "--branch"@);
    assert(r.exact[3].name == "--prefix"@);
    assert(r.exact[4].name == "--no-prefix"@);
    assert(r.exact[5].name == "--base"@);
    assert(r.exact[6].name == "--from"@);
    assert(r.exact[7].name == "--from-ref"@);
    assert(r.exact[8].name == "--path"@);
    assert(r.exact[9].name == "--detach"@);
    assert(r.exact[10].name == "--description"@);
    assert(r.exact[11].name == "-d"@);
    assert(r.exact[12].name == "--desc"@);
    assert(r.exact[13].name == "--template"@);
    assert(r.exact[14].name == "-t"@);
    assert(r.exact[15].name == "--no-template"@);
    assert(r.exact[16].name == "--dry-run"@);
    assert forall|k: int| 0 <= k < 16 implies (#[trigger] r.exact[k]).name != "--dry-run"@ by {
        if k == 0 {} else if k == 1 {} else if k == 2 {} else if k == 3 {} else if k == 4 {} else if k == 5 {} else if k == 6 {} else if k == 7 {} else if k == 8 {} else if k == 9 {} else if k == 10 {} else if k == 11 {} else if k == 12 {} else if k == 13 {} else if k == 14 {} else if k == 15 {}
        assert(r.exact[k].name.len() != 9);
    }
    lemma_ticket_then_flag(t, "--dry-run"@, 16, Flag::DryRun);
}

/// What `new` is built from after the ticket and one flag.
proof fn lemma_finish_ticket_flag(t: Seq<char>, f: Flag)
    ensures
        finish(Sub::New, with_flag(Opts { target: Some(t), ..initial_opts(false) }, f, true)) is Ok,
        finish(Sub::New, with_flag(Opts { target: Some(t), ..initial_opts(false) }, f, true))->Ok_0 is New,
        finish(Sub::New, with_flag(Opts { target: Some(t), ..initial_opts(false) }, f, true))->Ok_0->New_0.target == t,
        finish(Sub::New, with_flag(Opts { target: Some(t), ..initial_opts(false) }, f, true))->Ok_0->New_0.detach
            == (f == Flag::Detach),
        finish(Sub::New, with_flag(Opts { target: Some(t), ..initial_opts(false) }, f, true))->Ok_0->New_0.dry_run
            == (f == Flag::DryRun),
{
    reveal(flags_with);
}

/// `--detach` asks for a detached worktree and nothing else, and
/// `--dry-run` asks for a plan and nothing else: for any plain ticket `t`,
/// `gat t --detach` parses to `new t` with `detach` on and `dry_run` off,
/// and `gat t --dry-run` to `new t` with `dry_run` on and `detach` off.
#[verifier::spinoff_prover]
pub proof fn lemma_detach_and_dry_run_are_distinct(t: Seq<char>)
    requires
        sub_named(t) is None,
        !starts_with(t, "-"@),
        t != "help"@,
        t != "version"@,
    ensures
        parse_spec(seq![t, "--detach"@]) is Ok,
        parse_spec(seq![t, "--detach"@])->Ok_0 is New,
        parse_spec(seq![t, "--detach"@])->Ok_0->New_0.target == t,
        parse_spec(seq![t, "--detach"@])->Ok_0->New_0.detach,
        !parse_spec(seq![t, "--detach"@])->Ok_0->New_0.dry_run,
        parse_spec(seq![t, "--dry-run"@]) is Ok,
        parse_spec(seq![t, "--dry-run"@])->Ok_0 is New,
        parse_spec(seq![t, "--dry-run"@])->Ok_0->New_0.target == t,
        parse_spec(seq![t, "--dry-run"@])->Ok_0->New_0.dry_run,
        !parse_spec(seq![t, "--dry-run"@])->Ok_0->New_0.detach,
{
    lemma_ticket_detach(t);
    lemma_ticket_dry_run(t);
    lemma_finish_ticket_flag(t, Flag::Detach);
    lemma_finish_ticket_flag(t, Flag::DryRun);
}

} // verus!
