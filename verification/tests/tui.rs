use gat::tui::{Action, Key, Mode, Tab, UiSessionRow, UiSnapshot, UiState, UiWorktreeRow};

fn wt(branch: &str, desc: Option<&str>) -> UiWorktreeRow {
    UiWorktreeRow {
        branch: branch.to_string(),
        path: format!("/repo/{branch}"),
        is_primary: false,
        dirty: false,
        merged: false,
        changed_files: 0,
        insertions: 0,
        deletions: 0,
        idle_days: Some(0),
        description: desc.map(str::to_string),
    }
}

fn session(name: &str, branch: Option<&str>) -> UiSessionRow {
    UiSessionRow {
        name: name.to_string(),
        attached: false,
        windows: 1,
        branch: branch.map(str::to_string),
        description: None,
    }
}

fn snapshot() -> UiSnapshot {
    UiSnapshot {
        repo_name: "repo".to_string(),
        worktrees: vec![
            wt("TICKET-1", Some("fix login")),
            wt("TICKET-2", Some("add cache")),
            wt("FEAT-9", None),
        ],
        sessions: vec![
            session("gat-TICKET-1", Some("TICKET-1")),
            session("gat-TICKET-2", Some("TICKET-2")),
        ],
    }
}

#[test]
fn navigation_moves_within_bounds() {
    let mut state = UiState::new(snapshot());
    assert_eq!(state.selected(), 0);
    state.handle_key(Key::Char('j'));
    assert_eq!(state.selected(), 1);
    state.handle_key(Key::Char('j'));
    state.handle_key(Key::Char('j'));
    assert_eq!(state.selected(), 2);
    state.handle_key(Key::Char('k'));
    assert_eq!(state.selected(), 1);
    state.handle_key(Key::Char('k'));
    state.handle_key(Key::Char('k'));
    assert_eq!(state.selected(), 0);
}

#[test]
fn tab_toggles_active_list() {
    let mut state = UiState::new(snapshot());
    assert_eq!(state.tab(), Tab::Worktrees);
    state.handle_key(Key::Tab);
    assert_eq!(state.tab(), Tab::Sessions);
    state.handle_key(Key::Tab);
    assert_eq!(state.tab(), Tab::Worktrees);
}

#[test]
fn enter_returns_switch_action_with_selected_target() {
    let mut state = UiState::new(snapshot());
    state.handle_key(Key::Char('j'));
    let action = state.handle_key(Key::Enter);
    assert_eq!(action, Action::Switch("TICKET-2".to_string()));
}

#[test]
fn enter_on_session_tab_uses_session_branch() {
    let mut state = UiState::new(snapshot());
    state.handle_key(Key::Tab);
    let action = state.handle_key(Key::Enter);
    assert_eq!(action, Action::Switch("TICKET-1".to_string()));
}

#[test]
fn filter_narrows_rows_and_clamps_selection() {
    let mut state = UiState::new(snapshot());
    state.handle_key(Key::Char('/'));
    for c in "cache".chars() {
        state.handle_key(Key::Char(c));
    }
    assert_eq!(state.filtered_worktrees(), vec![1]);
    state.handle_key(Key::Enter);
    assert_eq!(state.visible_len(), 1);
    assert_eq!(state.selected_worktree_target().as_deref(), Some("TICKET-2"));
}

#[test]
fn filter_escape_cancels_without_committing() {
    let mut state = UiState::new(snapshot());
    state.handle_key(Key::Char('/'));
    state.handle_key(Key::Char('z'));
    state.handle_key(Key::Esc);
    assert_eq!(state.visible_len(), 3);
}

#[test]
fn describe_flow_emits_set_description_action() {
    let mut state = UiState::new(snapshot());
    state.handle_key(Key::Char('d'));
    assert!(matches!(state.mode(), Mode::Describe(_)));
    for c in "X".chars() {
        state.handle_key(Key::Char(c));
    }
    let action = state.handle_key(Key::Enter);
    match action {
        Action::SetDescription { target, description } => {
            assert_eq!(target, "TICKET-1");
            assert_eq!(description, "fix loginX");
        }
        other => panic!("expected SetDescription, got {other:?}"),
    }
}

#[test]
fn remove_requires_confirmation() {
    let mut state = UiState::new(snapshot());
    state.handle_key(Key::Char('x'));
    assert!(matches!(state.mode(), Mode::ConfirmRemove(_)));
    let cancelled = state.handle_key(Key::Char('n'));
    assert_eq!(cancelled, Action::NoOp);

    state.handle_key(Key::Char('x'));
    let confirmed = state.handle_key(Key::Char('y'));
    assert_eq!(confirmed, Action::Remove("TICKET-1".to_string()));
}

#[test]
fn quit_keys_emit_quit() {
    let mut state = UiState::new(snapshot());
    assert_eq!(state.handle_key(Key::Char('q')), Action::Quit);
    let mut state2 = UiState::new(snapshot());
    assert_eq!(state2.handle_key(Key::Esc), Action::Quit);
}

#[test]
fn refresh_key_emits_refresh() {
    let mut state = UiState::new(snapshot());
    assert_eq!(state.handle_key(Key::Char('r')), Action::Refresh);
}

#[test]
fn describe_blocked_on_session_tab() {
    let mut state = UiState::new(snapshot());
    state.handle_key(Key::Tab);
    let action = state.handle_key(Key::Char('d'));
    assert_eq!(action, Action::NoOp);
    assert!(matches!(state.mode(), Mode::Normal));
}

#[test]
fn filter_is_case_insensitive() {
    let mut state = UiState::new(snapshot());
    state.handle_key(Key::Char('/'));
    for c in "LOGIN".chars() {
        state.handle_key(Key::Char(c));
    }
    assert_eq!(state.filtered_worktrees(), vec![0]);
}

#[test]
fn any_key_sequence_keeps_selection_in_bounds() {
    let keys = [
        Key::Down, Key::Down, Key::Down, Key::Down, Key::Char('/'), Key::Char('t'), Key::Char('i'),
        Key::Backspace, Key::Enter, Key::Up, Key::Tab, Key::Down, Key::Down, Key::Char('x'), Key::Esc,
    ];
    let mut state = UiState::new(snapshot());
    for k in keys {
        let before = state.snapshot().worktrees.len();
        state.handle_key(k);
        assert!(state.visible_len() == 0 || state.selected() < state.visible_len());
        assert_eq!(state.snapshot().worktrees.len(), before);
    }
}

#[test]
fn empty_filter_shows_every_row_and_matching_ignores_case() {
    let mut state = UiState::new(snapshot());
    assert_eq!(state.filtered_worktrees(), vec![0, 1, 2]);
    assert_eq!(state.filtered_sessions(), vec![0, 1]);
    state.handle_key(Key::Char('/'));
    for c in "FIX".chars() {
        state.handle_key(Key::Char(c));
    }
    assert_eq!(state.filtered_worktrees(), vec![0]);
}
