//! The interactive dashboard's state machine.
//!
//! [`UiState`] owns the selection, the active tab, the incremental filter and
//! any transient modal input. It never touches a terminal: each key yields a
//! new state and an [`Action`] that the terminal driver performs. The whole
//! transition is specified by [`step`], and every reachable state keeps its
//! selection inside the visible rows ([`state_ok`]).

use vstd::prelude::*;
use crate::sessions::opt_view;
use crate::text::{ascii_lowercase, chars_of, contains, contains_chars, lowercase, push_char, string_of, to_lowercase};

verus! {

/// A key event reduced to the subset the dashboard understands.
#[derive(Clone, Copy, Debug, PartialEq, Eq, Structural)]
pub enum Key {
    /// A printable character.
    Char(char),
    /// Enter / Return.
    Enter,
    /// Escape.
    Esc,
    /// Backspace.
    Backspace,
    /// Up arrow.
    Up,
    /// Down arrow.
    Down,
    /// Tab.
    Tab,
}

/// Which list the dashboard is focused on.
#[derive(Clone, Copy, Debug, PartialEq, Eq, Structural)]
pub enum Tab {
    /// The worktree list.
    Worktrees,
    /// The live tmux session list.
    Sessions,
}

/// The other tab.
pub open spec fn toggled(t: Tab) -> Tab {
    match t {
        Tab::Worktrees => Tab::Sessions,
        Tab::Sessions => Tab::Worktrees,
    }
}

impl Tab {
    /// Returns the other tab.
    fn toggled(self) -> (r: Self)
        ensures
            r == toggled(self),
    {
        match self {
            Tab::Worktrees => Tab::Sessions,
            Tab::Sessions => Tab::Worktrees,
        }
    }
}

/// A transient modal interaction layered over the main view.
#[derive(Clone, Debug, PartialEq, Eq)]
pub enum Mode<S = String> {
    /// Normal navigation.
    Normal,
    /// Incremental filter input; holds the current query.
    Filter(S),
    /// Editing the selected worktree's description; holds the draft text.
    Describe(S),
    /// Confirming removal of the selected worktree; holds its branch label.
    ConfirmRemove(S),
}

/// The specification-level mode.
pub type ModeView = Mode<Seq<char>>;

impl View for Mode<String> {
    type V = Mode<Seq<char>>;

    open spec fn view(&self) -> Mode<Seq<char>> {
        match self {
            Mode::Normal => Mode::Normal,
            Mode::Filter(q) => Mode::Filter(q@),
            Mode::Describe(d) => Mode::Describe(d@),
            Mode::ConfirmRemove(t) => Mode::ConfirmRemove(t@),
        }
    }
}

/// An action the driver performs after a key was handled.
#[derive(Clone, Debug, PartialEq, Eq)]
pub enum Action<S = String> {
    /// Nothing to do; keep looping.
    NoOp,
    /// Quit the dashboard.
    Quit,
    /// Re-read repository state into a fresh snapshot.
    Refresh,
    /// Switch to (or open) the tmux session for the given target.
    Switch(S),
    /// Persist a description for the given target.
    SetDescription { target: S, description: S },
    /// Remove the worktree for the given target.
    Remove(S),
}

/// The specification-level action.
pub type ActionView = Action<Seq<char>>;

impl View for Action<String> {
    type V = Action<Seq<char>>;

    open spec fn view(&self) -> Action<Seq<char>> {
        match self {
            Action::NoOp => Action::NoOp,
            Action::Quit => Action::Quit,
            Action::Refresh => Action::Refresh,
            Action::Switch(t) => Action::Switch(t@),
            Action::SetDescription { target, description } => Action::SetDescription { target: target@, description: description@ },
            Action::Remove(t) => Action::Remove(t@),
        }
    }
}

/// A worktree row presented in the dashboard.
#[derive(Clone, Debug)]
pub struct UiWorktreeRow<S = String> {
    /// Branch name, or a `detached:<hash>` label.
    pub branch: S,
    /// Worktree path as a display string.
    pub path: S,
    /// Whether this is the primary worktree.
    pub is_primary: bool,
    /// Whether the working tree has uncommitted changes.
    pub dirty: bool,
    /// Whether the branch is merged into the default branch.
    pub merged: bool,
    /// Number of changed paths in the working tree.
    pub changed_files: usize,
    /// Inserted lines versus HEAD.
    pub insertions: usize,
    /// Deleted lines versus HEAD.
    pub deletions: usize,
    /// Days since last access, if known.
    pub idle_days: Option<u64>,
    /// Optional worktree description.
    pub description: Option<S>,
}

/// The specification-level worktree row.
pub type WorktreeRowView = UiWorktreeRow<Seq<char>>;

impl View for UiWorktreeRow<String> {
    type V = UiWorktreeRow<Seq<char>>;

    open spec fn view(&self) -> UiWorktreeRow<Seq<char>> {
        UiWorktreeRow {
            branch: self.branch@,
            path: self.path@,
            is_primary: self.is_primary,
            dirty: self.dirty,
            merged: self.merged,
            changed_files: self.changed_files,
            insertions: self.insertions,
            deletions: self.deletions,
            idle_days: self.idle_days,
            description: opt_view(self.description),
        }
    }
}

/// A tmux session row presented in the dashboard.
#[derive(Clone, Debug)]
pub struct UiSessionRow<S = String> {
    /// tmux session name.
    pub name: S,
    /// Whether a client is attached.
    pub attached: bool,
    /// Number of windows.
    pub windows: usize,
    /// Recorded branch, if any.
    pub branch: Option<S>,
    /// Recorded description, if any.
    pub description: Option<S>,
}

/// The specification-level session row.
pub type SessionRowView = UiSessionRow<Seq<char>>;

impl View for UiSessionRow<String> {
    type V = UiSessionRow<Seq<char>>;

    open spec fn view(&self) -> UiSessionRow<Seq<char>> {
        UiSessionRow {
            name: self.name@,
            attached: self.attached,
            windows: self.windows,
            branch: opt_view(self.branch),
            description: opt_view(self.description),
        }
    }
}

/// A point-in-time snapshot of repository state for the dashboard.
#[derive(Clone, Debug)]
pub struct UiSnapshot {
    /// Repository display name.
    pub repo_name: String,
    /// Worktree rows.
    pub worktrees: Vec<UiWorktreeRow>,
    /// Live gat tmux sessions (empty when tmux is unavailable).
    pub sessions: Vec<UiSessionRow>,
}

/// The specification-level snapshot.
pub struct SnapshotView {
    pub repo_name: Seq<char>,
    pub worktrees: Seq<WorktreeRowView>,
    pub sessions: Seq<SessionRowView>,
}

impl View for UiSnapshot {
    type V = SnapshotView;

    open spec fn view(&self) -> SnapshotView {
        SnapshotView {
            repo_name: self.repo_name@,
            worktrees: self.worktrees@.map_values(|w: UiWorktreeRow| w@),
            sessions: self.sessions@.map_values(|s: UiSessionRow| s@),
        }
    }
}

/// Pure dashboard state shared by the driver and the tests.
pub struct UiState {
    /// Latest repository snapshot.
    snapshot: UiSnapshot,
    /// Active tab.
    tab: Tab,
    /// Selected index within the active tab's filtered rows.
    selected: usize,
    /// Current interaction mode.
    mode: Mode,
    /// Committed filter query that persists outside filter-input mode.
    committed_filter: String,
    /// Last status/result message shown in the footer.
    status: String,
}

/// The specification-level dashboard state.
pub struct StateView {
    pub snapshot: SnapshotView,
    pub tab: Tab,
    pub selected: nat,
    pub mode: ModeView,
    pub committed_filter: Seq<char>,
    pub status: Seq<char>,
}

impl View for UiState {
    type V = StateView;

    closed spec fn view(&self) -> StateView {
        StateView {
            snapshot: self.snapshot@,
            tab: self.tab,
            selected: self.selected as nat,
            mode: self.mode@,
            committed_filter: self.committed_filter@,
            status: self.status@,
        }
    }
}

/// Default footer hint shown in normal mode.
pub const HELP_HINT: &'static str = "j/k move  Tab switch list  Enter open  d describe  x remove  / filter  r refresh  q quit";

/// The query rows are filtered by: the live query while typing a filter,
/// else the committed one.
pub open spec fn active_query(st: StateView) -> Seq<char> {
    match st.mode {
        Mode::Filter(q) => q,
        _ => st.committed_filter,
    }
}

/// An optional text that, lowercased, contains `q`.
pub open spec fn opt_contains(o: Option<Seq<char>>, q: Seq<char>) -> bool {
    match o {
        Some(d) => contains(lowercase(d), q),
        None => false,
    }
}

/// A worktree row matches a lowercased query on its branch, path or
/// description (case-insensitively); the empty query matches every row.
pub open spec fn worktree_matches(w: WorktreeRowView, q: Seq<char>) -> bool {
    q.len() == 0 || contains(lowercase(w.branch), q) || contains(lowercase(w.path), q) || opt_contains(w.description, q)
}

/// A session row matches a lowercased query on its name, branch or
/// description; the empty query matches every row.
pub open spec fn session_matches(s: SessionRowView, q: Seq<char>) -> bool {
    q.len() == 0 || contains(lowercase(s.name), q) || opt_contains(s.branch, q) || opt_contains(s.description, q)
}

/// Indices of the matching worktree rows, in order.
pub open spec fn matching_worktrees(rows: Seq<WorktreeRowView>, q: Seq<char>) -> Seq<int>
    decreases rows.len(),
{
    if rows.len() == 0 {
        Seq::<int>::empty()
    } else {
        let prev = matching_worktrees(rows.drop_last(), q);
        if worktree_matches(rows.last(), q) {
            prev.push(rows.len() - 1)
        } else {
            prev
        }
    }
}

/// Indices of the matching session rows, in order.
pub open spec fn matching_sessions(rows: Seq<SessionRowView>, q: Seq<char>) -> Seq<int>
    decreases rows.len(),
{
    if rows.len() == 0 {
        Seq::<int>::empty()
    } else {
        let prev = matching_sessions(rows.drop_last(), q);
        if session_matches(rows.last(), q) {
            prev.push(rows.len() - 1)
        } else {
            prev
        }
    }
}

/// With the empty query every worktree row matches, in order.
proof fn lemma_empty_query_keeps_worktrees(rows: Seq<WorktreeRowView>)
    ensures
        matching_worktrees(rows, Seq::<char>::empty()) == Seq::new(rows.len(), |i: int| i),
    decreases rows.len(),
{
    if rows.len() > 0 {
        lemma_empty_query_keeps_worktrees(rows.drop_last());
        assert(Seq::new((rows.len() - 1) as nat, |i: int| i).push(rows.len() - 1) =~= Seq::new(rows.len(), |i: int| i));
    } else {
        assert(Seq::<int>::empty() =~= Seq::new(0, |i: int| i));
    }
}

/// With the empty query every session row matches, in order.
proof fn lemma_empty_query_keeps_sessions(rows: Seq<SessionRowView>)
    ensures
        matching_sessions(rows, Seq::<char>::empty()) == Seq::new(rows.len(), |i: int| i),
    decreases rows.len(),
{
    if rows.len() > 0 {
        lemma_empty_query_keeps_sessions(rows.drop_last());
        assert(Seq::new((rows.len() - 1) as nat, |i: int| i).push(rows.len() - 1) =~= Seq::new(rows.len(), |i: int| i));
    } else {
        assert(Seq::<int>::empty() =~= Seq::new(0, |i: int| i));
    }
}

/// Worktree rows visible under the active filter.
pub open spec fn visible_worktrees(st: StateView) -> Seq<int> {
    matching_worktrees(st.snapshot.worktrees, lowercase(active_query(st)))
}

/// Session rows visible under the active filter.
pub open spec fn visible_sessions(st: StateView) -> Seq<int> {
    matching_sessions(st.snapshot.sessions, lowercase(active_query(st)))
}

/// Number of rows visible in the active tab.
pub open spec fn visible_len(st: StateView) -> nat {
    match st.tab {
        Tab::Worktrees => visible_worktrees(st).len(),
        Tab::Sessions => visible_sessions(st).len(),
    }
}

/// The selected worktree row, if the selection points at one.
pub open spec fn selected_worktree(st: StateView) -> Option<WorktreeRowView> {
    let idx = visible_worktrees(st);
    if st.selected < idx.len() {
        Some(st.snapshot.worktrees[idx[st.selected as int]])
    } else {
        None
    }
}

/// The branch of the selected worktree.
pub open spec fn selected_worktree_target(st: StateView) -> Option<Seq<char>> {
    match selected_worktree(st) {
        Some(w) => Some(w.branch),
        None => None,
    }
}

/// The selected session's branch, or its name when it records none.
pub open spec fn selected_session_target(st: StateView) -> Option<Seq<char>> {
    let idx = visible_sessions(st);
    if st.selected < idx.len() {
        let s = st.snapshot.sessions[idx[st.selected as int]];
        Some(
            match s.branch {
                Some(b) => b,
                None => s.name,
            },
        )
    } else {
        None
    }
}

/// The target of the active tab's selection.
pub open spec fn selected_target(st: StateView) -> Option<Seq<char>> {
    match st.tab {
        Tab::Worktrees => selected_worktree_target(st),
        Tab::Sessions => selected_session_target(st),
    }
}

/// Every reachable state: the selection is zero or inside the visible rows,
/// and while a filter is being typed a nonzero selection only survives from
/// the committed query the filter started from.
pub open spec fn state_ok(st: StateView) -> bool {
    &&& (st.selected == 0 || st.selected < visible_len(st))
    &&& (st.mode matches Mode::Filter(q) ==> st.selected == 0 || q == st.committed_filter)
}

/// `st` with the selection moved to `n`.
pub open spec fn select(st: StateView, n: nat) -> StateView {
    StateView { selected: n, ..st }
}

/// `st` in another mode.
pub open spec fn with_mode(st: StateView, mode: ModeView) -> StateView {
    StateView { mode: mode, ..st }
}

/// `st` with another footer status.
pub open spec fn with_status(st: StateView, status: Seq<char>) -> StateView {
    StateView { status: status, ..st }
}

/// The selection clamped into the visible rows (zero when there are none).
pub open spec fn clamped(st: StateView) -> StateView {
    let len = visible_len(st);
    if len == 0 {
        select(st, 0)
    } else if st.selected >= len {
        select(st, (len - 1) as nat)
    } else {
        st
    }
}

/// The selection moved down one row, stopping at the last row.
pub open spec fn moved_down(st: StateView) -> StateView {
    if st.selected + 1 < visible_len(st) {
        select(st, st.selected + 1)
    } else {
        st
    }
}

/// The selection moved up one row, stopping at the first row.
pub open spec fn moved_up(st: StateView) -> StateView {
    if st.selected > 0 {
        select(st, (st.selected - 1) as nat)
    } else {
        st
    }
}

/// `s` without its last character (`String::pop`; the empty text stays).
pub open spec fn popped(s: Seq<char>) -> Seq<char> {
    if s.len() > 0 {
        s.drop_last()
    } else {
        s
    }
}

/// Starting to describe the selected worktree: the draft begins with its
/// current description.
pub open spec fn describe_started(st: StateView) -> StateView {
    if st.tab == Tab::Worktrees {
        match selected_worktree(st) {
            Some(w) => with_mode(
                st,
                Mode::Describe(
                    match w.description {
                        Some(d) => d,
                        None => Seq::<char>::empty(),
                    },
                ),
            ),
            None => with_status(st, "no worktree selected"@),
        }
    } else {
        with_status(st, "describe applies to worktrees"@)
    }
}

/// Asking to remove the selected worktree.
pub open spec fn remove_started(st: StateView) -> StateView {
    if st.tab == Tab::Worktrees {
        match selected_worktree_target(st) {
            Some(t) => with_mode(st, Mode::ConfirmRemove(t)),
            None => with_status(st, "no worktree selected"@),
        }
    } else {
        with_status(st, "remove applies to worktrees"@)
    }
}

/// A character key in normal mode.
pub open spec fn normal_char_step(st: StateView, c: char) -> (StateView, ActionView) {
    if c == 'q' {
        (st, Action::Quit)
    } else if c == 'j' {
        (moved_down(st), Action::NoOp)
    } else if c == 'k' {
        (moved_up(st), Action::NoOp)
    } else if c == 'r' {
        (st, Action::Refresh)
    } else if c == '/' {
        (with_mode(st, Mode::Filter(st.committed_filter)), Action::NoOp)
    } else if c == 'd' {
        (describe_started(st), Action::NoOp)
    } else if c == 'x' {
        (remove_started(st), Action::NoOp)
    } else {
        (st, Action::NoOp)
    }
}

/// A key in normal navigation mode.
pub open spec fn normal_step(st: StateView, key: Key) -> (StateView, ActionView) {
    match key {
        Key::Char(c) => normal_char_step(st, c),
        Key::Esc => (st, Action::Quit),
        Key::Down => (moved_down(st), Action::NoOp),
        Key::Up => (moved_up(st), Action::NoOp),
        Key::Tab => (clamped(StateView { tab: toggled(st.tab), ..st }), Action::NoOp),
        Key::Enter => match selected_target(st) {
            Some(t) => (st, Action::Switch(t)),
            None => (with_status(st, "nothing selected"@), Action::NoOp),
        },
        Key::Backspace => (st, Action::NoOp),
    }
}

/// A key while typing a filter: Escape drops the query, Enter commits it,
/// editing restarts the selection at the top.
pub open spec fn filter_step(st: StateView, key: Key, query: Seq<char>) -> StateView {
    match key {
        Key::Esc => with_mode(st, Mode::Normal),
        Key::Enter => clamped(StateView { committed_filter: query, mode: Mode::Normal, ..st }),
        Key::Backspace => select(with_mode(st, Mode::Filter(popped(query))), 0),
        Key::Char(c) => select(with_mode(st, Mode::Filter(query.push(c))), 0),
        _ => st,
    }
}

/// A key while editing a description: Enter hands the draft to the driver
/// for the selected worktree.
pub open spec fn describe_step(st: StateView, key: Key, draft: Seq<char>) -> (StateView, ActionView) {
    match key {
        Key::Esc => (with_mode(st, Mode::Normal), Action::NoOp),
        Key::Enter => {
            let next = with_mode(st, Mode::Normal);
            (
                next,
                match selected_worktree_target(next) {
                    Some(t) => Action::SetDescription { target: t, description: draft },
                    None => Action::NoOp,
                },
            )
        },
        Key::Backspace => (with_mode(st, Mode::Describe(popped(draft))), Action::NoOp),
        Key::Char(c) => (with_mode(st, Mode::Describe(draft.push(c))), Action::NoOp),
        _ => (st, Action::NoOp),
    }
}

/// A key while confirming a removal: only `y` or `Y` confirms.
pub open spec fn confirm_step(st: StateView, key: Key, target: Seq<char>) -> (StateView, ActionView) {
    if key == Key::Char('y') || key == Key::Char('Y') {
        (with_mode(st, Mode::Normal), Action::Remove(target))
    } else {
        (with_status(with_mode(st, Mode::Normal), "removal cancelled"@), Action::NoOp)
    }
}

/// The state and action after one key.
pub open spec fn step(st: StateView, key: Key) -> (StateView, ActionView) {
    match st.mode {
        Mode::Normal => normal_step(st, key),
        Mode::Filter(q) => (filter_step(st, key, q), Action::NoOp),
        Mode::Describe(d) => describe_step(st, key, d),
        Mode::ConfirmRemove(t) => confirm_step(st, key, t),
    }
}

/// Editing a description: a typed character is appended to the draft,
/// Backspace takes the last character off (an empty draft stays empty), and
/// typing a character then Backspace gives back the state before; Escape
/// leaves the draft unsaved, and Enter hands exactly the draft over for the
/// selected worktree. The rows, tab, selection and filter never change.
pub proof fn lemma_describe_editing(st: StateView, draft: Seq<char>, c: char)
    requires
        st.mode == Mode::Describe(draft),
    ensures
        step(st, Key::Char(c)) == (with_mode(st, Mode::Describe(draft.push(c))), Action::<Seq<char>>::NoOp),
        draft.len() > 0 ==> step(st, Key::Backspace)
            == (with_mode(st, Mode::Describe(draft.subrange(0, draft.len() - 1))), Action::<Seq<char>>::NoOp),
        draft.len() == 0 ==> step(st, Key::Backspace) == (st, Action::<Seq<char>>::NoOp),
        step(step(st, Key::Char(c)).0, Key::Backspace).0 == st,
        step(st, Key::Esc) == (with_mode(st, Mode::Normal), Action::<Seq<char>>::NoOp),
        step(st, Key::Enter).0 == with_mode(st, Mode::Normal),
        selected_worktree_target(st) matches Some(t) ==> step(st, Key::Enter).1
            == (Action::SetDescription { target: t, description: draft }),
        selected_worktree_target(st) is None ==> (step(st, Key::Enter).1 == Action::<Seq<char>>::NoOp),
{
    assert(draft.push(c).drop_last() =~= draft);
    assert(draft.len() > 0 ==> draft.drop_last() =~= draft.subrange(0, draft.len() - 1));
    assert(selected_worktree_target(with_mode(st, Mode::Normal)) == selected_worktree_target(st));
}

/// Clamping establishes the selection invariant from any state whose
/// filter-typing condition holds.
pub proof fn lemma_clamped_ok(st: StateView)
    requires
        st.mode matches Mode::Filter(q) ==> st.selected == 0 || q == st.committed_filter,
    ensures
        state_ok(clamped(st)),
{
}

/// Every key keeps the selection inside the visible rows: no sequence of
/// keys can leave the dashboard pointing past the end of its list.
pub proof fn lemma_step_keeps_state_ok(st: StateView, key: Key)
    requires
        state_ok(st),
    ensures
        state_ok(step(st, key).0),
{
    match st.mode {
        Mode::Normal => {
            if key == Key::Tab {
                lemma_clamped_ok(StateView { tab: toggled(st.tab), ..st });
            }
        },
        Mode::Filter(q) => {
            if key == Key::Enter {
                lemma_clamped_ok(StateView { committed_filter: q, mode: Mode::Normal, ..st });
            }
        },
        _ => {},
    }
}

/// Handling a key never alters the repository snapshot it shows.
pub proof fn lemma_step_keeps_snapshot(st: StateView, key: Key)
    ensures
        step(st, key).0.snapshot == st.snapshot,
{
}

proof fn lemma_matching_worktrees_bounds(rows: Seq<WorktreeRowView>, q: Seq<char>)
    ensures
        forall|k: int| 0 <= k < matching_worktrees(rows, q).len() ==> 0 <= #[trigger] matching_worktrees(rows, q)[k] < rows.len(),
    decreases rows.len(),
{
    if rows.len() > 0 {
        lemma_matching_worktrees_bounds(rows.drop_last(), q);
        let prev = matching_worktrees(rows.drop_last(), q);
        let m = matching_worktrees(rows, q);
        assert forall|k: int| 0 <= k < m.len() implies 0 <= #[trigger] m[k] < rows.len() by {
            if k < prev.len() {
                assert(m[k] == prev[k]);
            }
        }
    }
}

proof fn lemma_matching_sessions_bounds(rows: Seq<SessionRowView>, q: Seq<char>)
    ensures
        forall|k: int| 0 <= k < matching_sessions(rows, q).len() ==> 0 <= #[trigger] matching_sessions(rows, q)[k] < rows.len(),
    decreases rows.len(),
{
    if rows.len() > 0 {
        lemma_matching_sessions_bounds(rows.drop_last(), q);
        let prev = matching_sessions(rows.drop_last(), q);
        let m = matching_sessions(rows, q);
        assert forall|k: int| 0 <= k < m.len() implies 0 <= #[trigger] m[k] < rows.len() by {
            if k < prev.len() {
                assert(m[k] == prev[k]);
            }
        }
    }
}

/// Whether `s`, lowercased, contains the (already lowercased) query.
fn contains_lower(s: &str, q: &[char]) -> (r: bool)
    ensures
        r == contains(lowercase(s@), q@),
{
    let l = to_lowercase(s);
    contains_chars(&chars_of(l.as_str()), q)
}

fn opt_contains_lower(o: &Option<String>, q: &[char]) -> (r: bool)
    ensures
        r == opt_contains(opt_view(*o), q@),
{
    match o {
        Some(d) => contains_lower(d.as_str(), q),
        None => false,
    }
}

impl UiState {
    /// Well-formedness: the selection invariant of every reachable state.
    pub open spec fn wf(&self) -> bool {
        state_ok(self@)
    }

    /// Builds a new state from an initial snapshot.
    pub fn new(snapshot: UiSnapshot) -> (r: Self)
        ensures
            r@.snapshot == snapshot@,
            r@.tab == Tab::Worktrees,
            r@.selected == 0,
            r@.mode == Mode::<Seq<char>>::Normal,
            r@.committed_filter == Seq::<char>::empty(),
            r@.status == HELP_HINT@,
            r.wf(),
    {
        UiState {
            snapshot,
            tab: Tab::Worktrees,
            selected: 0,
            mode: Mode::Normal,
            committed_filter: String::new(),
            status: HELP_HINT.to_string(),
        }
    }

    /// Returns the active tab.
    pub fn tab(&self) -> (r: Tab)
        ensures
            r == self@.tab,
    {
        self.tab
    }

    /// Returns the current mode.
    pub fn mode(&self) -> (r: &Mode)
        ensures
            r@ == self@.mode,
    {
        &self.mode
    }

    /// Returns the footer status text.
    pub fn status(&self) -> (r: &str)
        ensures
            r@ == self@.status,
    {
        self.status.as_str()
    }

    /// Sets the footer status text.
    pub fn set_status(&mut self, status: &str)
        requires
            old(self).wf(),
        ensures
            final(self)@ == (StateView { status: status@, ..old(self)@ }),
            final(self).wf(),
    {
        self.status = status.to_string();
    }

    /// Returns the underlying snapshot.
    pub fn snapshot(&self) -> (r: &UiSnapshot)
        ensures
            r@ == self@.snapshot,
    {
        &self.snapshot
    }

    /// Returns the current selection index (within the filtered rows).
    pub fn selected(&self) -> (r: usize)
        requires
            self.wf(),
        ensures
            r == self@.selected,
            r == 0 || r < visible_len(self@),
    {
        self.selected
    }

    /// The query rows are filtered by.
    fn active_query(&self) -> (r: &str)
        ensures
            r@ == active_query(self@),
    {
        match &self.mode {
            Mode::Filter(q) => q.as_str(),
            _ => self.committed_filter.as_str(),
        }
    }

    /// Indices of the worktree rows matching the active filter, matched
    /// case-insensitively across branch, description and path.
    pub fn filtered_worktrees(&self) -> (r: Vec<usize>)
        ensures
            r@.map_values(|i: usize| i as int) == visible_worktrees(self@),
            forall|k: int| 0 <= k < r@.len() ==> #[trigger] r@[k] < self@.snapshot.worktrees.len(),
            // With no filter every row shows, in order.
            active_query(self@).len() == 0 ==> r@.len() == self@.snapshot.worktrees.len()
                && forall|k: int| 0 <= k < r@.len() ==> #[trigger] r@[k] == k,
    {
        let q = to_lowercase(self.active_query());
        proof {
            if active_query(self@).len() == 0 {
                assert(ascii_lowercase(active_query(self@)) =~= Seq::<char>::empty());
                lemma_empty_query_keeps_worktrees(self@.snapshot.worktrees);
            }
        }
        let ghost empty_query = active_query(self@).len() == 0;
        assert(empty_query ==> lowercase(active_query(self@)) == Seq::<char>::empty());
        let qc = chars_of(q.as_str());
        let ghost rows = self@.snapshot.worktrees;
        let n = self.snapshot.worktrees.len();
        let mut out: Vec<usize> = Vec::new();
        let mut i: usize = 0;
        while i < n
            invariant
                i <= n,
                n == self.snapshot.worktrees@.len(),
                rows == self@.snapshot.worktrees,
                qc@ == lowercase(active_query(self@)),
                out@.map_values(|k: usize| k as int) == matching_worktrees(rows.take(i as int), qc@),
                forall|k: int| 0 <= k < out@.len() ==> #[trigger] out@[k] < i,
            decreases n - i,
        {
            let w = &self.snapshot.worktrees[i];
            assert(rows[i as int] == w@);
            assert(rows.take(i + 1).drop_last() =~= rows.take(i as int));
            let matched = qc.len() == 0 || contains_lower(w.branch.as_str(), &qc) || contains_lower(w.path.as_str(), &qc)
                || opt_contains_lower(&w.description, &qc);
            if matched {
                let ghost before = out@.map_values(|k: usize| k as int);
                out.push(i);
                assert(out@.map_values(|k: usize| k as int) =~= before.push(i as int));
            }
            i += 1;
        }
        assert(rows.take(n as int) =~= rows);
        proof {
            if empty_query {
                let m = out@.map_values(|k: usize| k as int);
                assert(m == Seq::new(rows.len(), |i: int| i));
                assert forall|k: int| 0 <= k < out@.len() implies #[trigger] out@[k] == k by {
                    assert(m[k] == out@[k] as int);
                }
            }
        }
        out
    }

    /// Indices of the session rows matching the active filter, matched
    /// case-insensitively across name, branch and description.
    pub fn filtered_sessions(&self) -> (r: Vec<usize>)
        ensures
            r@.map_values(|i: usize| i as int) == visible_sessions(self@),
            forall|k: int| 0 <= k < r@.len() ==> #[trigger] r@[k] < self@.snapshot.sessions.len(),
            // With no filter every row shows, in order.
            active_query(self@).len() == 0 ==> r@.len() == self@.snapshot.sessions.len()
                && forall|k: int| 0 <= k < r@.len() ==> #[trigger] r@[k] == k,
    {
        let q = to_lowercase(self.active_query());
        proof {
            if active_query(self@).len() == 0 {
                assert(ascii_lowercase(active_query(self@)) =~= Seq::<char>::empty());
                lemma_empty_query_keeps_sessions(self@.snapshot.sessions);
            }
        }
        let ghost empty_query = active_query(self@).len() == 0;
        assert(empty_query ==> lowercase(active_query(self@)) == Seq::<char>::empty());
        let qc = chars_of(q.as_str());
        let ghost rows = self@.snapshot.sessions;
        let n = self.snapshot.sessions.len();
        let mut out: Vec<usize> = Vec::new();
        let mut i: usize = 0;
        while i < n
            invariant
                i <= n,
                n == self.snapshot.sessions@.len(),
                rows == self@.snapshot.sessions,
                qc@ == lowercase(active_query(self@)),
                out@.map_values(|k: usize| k as int) == matching_sessions(rows.take(i as int), qc@),
                forall|k: int| 0 <= k < out@.len() ==> #[trigger] out@[k] < i,
            decreases n - i,
        {
            let s = &self.snapshot.sessions[i];
            assert(rows[i as int] == s@);
            assert(rows.take(i + 1).drop_last() =~= rows.take(i as int));
            let matched = qc.len() == 0 || contains_lower(s.name.as_str(), &qc) || opt_contains_lower(&s.branch, &qc)
                || opt_contains_lower(&s.description, &qc);
            if matched {
                let ghost before = out@.map_values(|k: usize| k as int);
                out.push(i);
                assert(out@.map_values(|k: usize| k as int) =~= before.push(i as int));
            }
            i += 1;
        }
        assert(rows.take(n as int) =~= rows);
        proof {
            if empty_query {
                let m = out@.map_values(|k: usize| k as int);
                assert(m == Seq::new(rows.len(), |i: int| i));
                assert forall|k: int| 0 <= k < out@.len() implies #[trigger] out@[k] == k by {
                    assert(m[k] == out@[k] as int);
                }
            }
        }
        out
    }

    /// Number of rows currently visible in the active tab.
    pub fn visible_len(&self) -> (r: usize)
        ensures
            r == visible_len(self@),
    {
        match self.tab {
            Tab::Worktrees => self.filtered_worktrees().len(),
            Tab::Sessions => self.filtered_sessions().len(),
        }
    }
    /// The selected worktree's branch, if the selection points at one.
    pub fn selected_worktree_target(&self) -> (r: Option<String>)
        ensures
            opt_view(r) == selected_worktree_target(self@),
    {
        let indices = self.filtered_worktrees();
        if self.selected < indices.len() {
            let i = indices[self.selected];
            assert(i as int == visible_worktrees(self@)[self.selected as int]);
            assert(self@.snapshot.worktrees[i as int] == self.snapshot.worktrees@[i as int]@);
            Some(self.snapshot.worktrees[i].branch.clone())
        } else {
            None
        }
    }

    /// The selected worktree's current description, if any.
    fn selected_worktree_description(&self) -> (r: Option<String>)
        ensures
            opt_view(r) == (match selected_worktree(self@) {
                Some(w) => w.description,
                None => None,
            }),
    {
        let indices = self.filtered_worktrees();
        if self.selected < indices.len() {
            let i = indices[self.selected];
            assert(i as int == visible_worktrees(self@)[self.selected as int]);
            assert(self@.snapshot.worktrees[i as int] == self.snapshot.worktrees@[i as int]@);
            match &self.snapshot.worktrees[i].description {
                Some(d) => Some(d.clone()),
                None => None,
            }
        } else {
            None
        }
    }

    /// The selected session's branch (preferred) or name, if any.
    pub fn selected_session_target(&self) -> (r: Option<String>)
        ensures
            opt_view(r) == selected_session_target(self@),
    {
        let indices = self.filtered_sessions();
        if self.selected < indices.len() {
            let i = indices[self.selected];
            assert(i as int == visible_sessions(self@)[self.selected as int]);
            assert(self@.snapshot.sessions[i as int] == self.snapshot.sessions@[i as int]@);
            let session = &self.snapshot.sessions[i];
            match &session.branch {
                Some(b) => Some(b.clone()),
                None => Some(session.name.clone()),
            }
        } else {
            None
        }
    }

    /// The target for the active tab's selection.
    fn selected_target(&self) -> (r: Option<String>)
        ensures
            opt_view(r) == selected_target(self@),
    {
        match self.tab {
            Tab::Worktrees => self.selected_worktree_target(),
            Tab::Sessions => self.selected_session_target(),
        }
    }

    /// Moves the selection down by one, stopping at the last row.
    fn select_next(&mut self)
        ensures
            final(self)@ == moved_down(old(self)@),
    {
        let len = self.visible_len();
        if len > 0 && self.selected < len - 1 {
            self.selected = self.selected + 1;
        }
    }

    /// Moves the selection up by one, stopping at the first row.
    fn select_prev(&mut self)
        ensures
            final(self)@ == moved_up(old(self)@),
    {
        self.selected = self.selected.saturating_sub(1);
    }

    /// Clamps the selection into the valid range for the active tab.
    fn clamp_selection(&mut self)
        ensures
            final(self)@ == clamped(old(self)@),
    {
        let len = self.visible_len();
        if len == 0 {
            self.selected = 0;
        } else if self.selected >= len {
            self.selected = len - 1;
        }
    }

    /// Replaces the snapshot (after a refresh) and clamps the selection.
    pub fn set_snapshot(&mut self, snapshot: UiSnapshot)
        requires
            old(self).wf(),
        ensures
            final(self)@ == clamped(StateView { snapshot: snapshot@, ..old(self)@ }),
            final(self).wf(),
    {
        let ghost before = self@;
        self.snapshot = snapshot;
        assert(self@ == StateView { snapshot: snapshot@, ..before });
        self.clamp_selection();
        proof { lemma_clamped_ok(StateView { snapshot: snapshot@, ..before }); }
    }

    /// Handles a key, updating the state and returning the action the driver
    /// should perform. The transition is exactly [`step`].
    pub fn handle_key(&mut self, key: Key) -> (r: Action)
        requires
            old(self).wf(),
        ensures
            final(self)@ == step(old(self)@, key).0,
            r@ == step(old(self)@, key).1,
            final(self).wf(),
    {
        proof { lemma_step_keeps_state_ok(self@, key); }
        let mode = copy_mode(&self.mode);
        match mode {
            Mode::Normal => self.handle_normal(key),
            Mode::Filter(query) => {
                self.handle_filter(key, query);
                Action::NoOp
            },
            Mode::Describe(draft) => self.handle_describe(key, draft),
            Mode::ConfirmRemove(target) => self.handle_confirm_remove(key, target),
        }
    }

    /// Handles a key in normal navigation mode.
    fn handle_normal(&mut self, key: Key) -> (r: Action)
        ensures
            final(self)@ == normal_step(old(self)@, key).0,
            r@ == normal_step(old(self)@, key).1,
    {
        match key {
            Key::Char(c) => {
                if c == 'q' {
                    Action::Quit
                } else if c == 'j' {
                    self.select_next();
                    Action::NoOp
                } else if c == 'k' {
                    self.select_prev();
                    Action::NoOp
                } else if c == 'r' {
                    Action::Refresh
                } else if c == '/' {
                    self.mode = Mode::Filter(self.committed_filter.clone());
                    Action::NoOp
                } else if c == 'd' {
                    if self.tab == Tab::Worktrees {
                        if self.selected_worktree_target().is_some() {
                            let draft = match self.selected_worktree_description() {
                                Some(d) => d,
                                None => String::new(),
                            };
                            self.mode = Mode::Describe(draft);
                        } else {
                            self.set_status_text("no worktree selected");
                        }
                    } else {
                        self.set_status_text("describe applies to worktrees");
                    }
                    Action::NoOp
                } else if c == 'x' {
                    if self.tab == Tab::Worktrees {
                        match self.selected_worktree_target() {
                            Some(target) => { self.mode = Mode::ConfirmRemove(target); },
                            None => { self.set_status_text("no worktree selected"); },
                        }
                    } else {
                        self.set_status_text("remove applies to worktrees");
                    }
                    Action::NoOp
                } else {
                    Action::NoOp
                }
            },
            Key::Esc => Action::Quit,
            Key::Down => {
                self.select_next();
                Action::NoOp
            },
            Key::Up => {
                self.select_prev();
                Action::NoOp
            },
            Key::Tab => {
                self.tab = self.tab.toggled();
                self.clamp_selection();
                Action::NoOp
            },
            Key::Enter => match self.selected_target() {
                Some(target) => Action::Switch(target),
                None => {
                    self.set_status_text("nothing selected");
                    Action::NoOp
                },
            },
            Key::Backspace => Action::NoOp,
        }
    }

    /// Handles a key while typing an incremental filter.
    fn handle_filter(&mut self, key: Key, query: String)
        requires
            old(self)@.mode == Mode::Filter(query@),
        ensures
            final(self)@ == filter_step(old(self)@, key, query@),
    {
        match key {
            Key::Esc => {
                self.mode = Mode::Normal;
            },
            Key::Enter => {
                self.committed_filter = query;
                self.mode = Mode::Normal;
                self.clamp_selection();
            },
            Key::Backspace => {
                self.mode = Mode::Filter(pop_char(&query));
                self.selected = 0;
            },
            Key::Char(c) => {
                let mut q = query;
                push_char(&mut q, c);
                self.mode = Mode::Filter(q);
                self.selected = 0;
            },
            _ => {},
        }
    }

    /// Handles a key while editing a description.
    fn handle_describe(&mut self, key: Key, draft: String) -> (r: Action)
        requires
            old(self)@.mode == Mode::Describe(draft@),
        ensures
            final(self)@ == describe_step(old(self)@, key, draft@).0,
            r@ == describe_step(old(self)@, key, draft@).1,
    {
        match key {
            Key::Esc => {
                self.mode = Mode::Normal;
                Action::NoOp
            },
            Key::Enter => {
                self.mode = Mode::Normal;
                match self.selected_worktree_target() {
                    Some(target) => Action::SetDescription { target, description: draft },
                    None => Action::NoOp,
                }
            },
            Key::Backspace => {
                self.mode = Mode::Describe(pop_char(&draft));
                Action::NoOp
            },
            Key::Char(c) => {
                let mut d = draft;
                push_char(&mut d, c);
                self.mode = Mode::Describe(d);
                Action::NoOp
            },
            _ => Action::NoOp,
        }
    }

    /// Handles a key while confirming a worktree removal.
    fn handle_confirm_remove(&mut self, key: Key, target: String) -> (r: Action)
        ensures
            final(self)@ == confirm_step(old(self)@, key, target@).0,
            r@ == confirm_step(old(self)@, key, target@).1,
    {
        if key == Key::Char('y') || key == Key::Char('Y') {
            self.mode = Mode::Normal;
            Action::Remove(target)
        } else {
            self.mode = Mode::Normal;
            self.set_status_text("removal cancelled");
            Action::NoOp
        }
    }

    fn set_status_text(&mut self, status: &str)
        ensures
            final(self)@ == with_status(old(self)@, status@),
    {
        self.status = status.to_string();
    }
}

/// A copy of a mode.
fn copy_mode(m: &Mode) -> (r: Mode)
    ensures
        r@ == m@,
{
    match m {
        Mode::Normal => Mode::Normal,
        Mode::Filter(q) => Mode::Filter(q.clone()),
        Mode::Describe(d) => Mode::Describe(d.clone()),
        Mode::ConfirmRemove(t) => Mode::ConfirmRemove(t.clone()),
    }
}

/// `s` without its last character, if it has one.
fn pop_char(s: &String) -> (r: String)
    ensures
        r@ == popped(s@),
{
    let mut v = chars_of(s.as_str());
    v.pop();
    assert(v@ =~= popped(s@));
    string_of(&v)
}

} // verus!
