use gat::metadata::{MetadataStore, WorktreeMetadata};

fn now() -> u64 {
    std::time::SystemTime::now()
        .duration_since(std::time::UNIX_EPOCH)
        .map(|d| d.as_secs())
        .unwrap_or(0)
}

#[test]
fn test_track_creation() {
    let mut store = MetadataStore::new();
    store.track_creation("/path/to/worktree", "feature-branch");

    assert_eq!(store.len(), 1);
    assert!(store.contains("/path/to/worktree"));
}

#[test]
fn test_track_access() {
    let mut store = MetadataStore::new();
    store.track_creation("/path/to/worktree", "feature-branch");

    let initial_access = store.get("/path/to/worktree").unwrap().last_accessed_at;
    store.track_access("/path/to/worktree");
    let updated_access = store.get("/path/to/worktree").unwrap().last_accessed_at;

    assert!(updated_access >= initial_access);
}

#[test]
fn test_remove() {
    let mut store = MetadataStore::new();
    store.track_creation("/path/to/worktree", "feature-branch");
    store.remove("/path/to/worktree");

    assert_eq!(store.len(), 0);
}

#[test]
fn test_stale_worktrees() {
    let mut store = MetadataStore::new();

    let metadata = WorktreeMetadata {
        created_at: now() - (40 * 24 * 60 * 60),
        last_accessed_at: now() - (40 * 24 * 60 * 60),
        path: "/path/to/old".to_string(),
        branch: "old-branch".to_string(),
        description: String::new(),
    };
    store.insert(metadata);

    store.track_creation("/path/to/new", "new-branch");

    let stale = store.stale_worktrees(30);
    assert_eq!(stale.len(), 1);
    assert_eq!(stale[0].path, "/path/to/old");
}

#[test]
fn test_set_and_get_description() {
    let mut store = MetadataStore::new();
    store.track_creation("/wt", "feat");
    assert_eq!(store.description("/wt"), None);

    store.set_description("/wt", "feat", "  refactor auth flow  ");
    assert_eq!(store.description("/wt"), Some("refactor auth flow"));

    store.set_description("/wt", "feat", "");
    assert_eq!(store.description("/wt"), None);
}

#[test]
fn test_set_description_creates_entry_when_absent() {
    let mut store = MetadataStore::new();
    store.set_description("/wt", "feat", "investigate flake");
    assert_eq!(store.description("/wt"), Some("investigate flake"));
}

#[test]
fn test_track_creation_preserves_existing_description() {
    let mut store = MetadataStore::new();
    store.set_description("/wt", "feat", "keep me");
    store.track_creation("/wt", "feat");
    assert_eq!(store.description("/wt"), Some("keep me"));
}

#[test]
fn test_prune_missing_drops_orphans() {
    let mut store = MetadataStore::new();
    store.track_creation("/path/live", "live");
    store.track_creation("/path/gone", "gone");

    let live = vec!["/path/live".to_string()];

    let removed = store.prune_missing(&live);
    assert_eq!(removed, 1);
    assert!(store.contains("/path/live"));
    assert!(!store.contains("/path/gone"));
}

#[test]
fn test_stale_window_does_not_underflow() {
    let mut store = MetadataStore::new();
    store.track_creation("/recent", "recent");
    let stale = store.stale_worktrees(u64::MAX);
    assert!(stale.is_empty());
}

#[test]
fn test_days_since_access_untracked_uses_mtime_fallback() {
    let store = MetadataStore::new();
    let days = store.days_since_access("/not/tracked", Some(now()));
    assert_eq!(days, Some(0));
}

#[test]
fn days_since_access_untracked_without_mtime_is_unknown() {
    let store = MetadataStore::new();
    assert_eq!(store.days_since_access("/not/tracked", None), None);
}

#[test]
fn days_since_access_counts_whole_days() {
    let mut store = MetadataStore::new();
    store.track_creation_at("/wt", "b", 1_000);
    store.track_access_at("/wt", 1_000);
    assert_eq!(store.days_since_access_at("/wt", 1_000 + 3 * 86_400 + 5, None), Some(3));
    // A clock that reads before the access time counts as zero days.
    assert_eq!(store.days_since_access_at("/wt", 10, None), Some(0));
}

#[test]
fn stale_worktrees_at_uses_strict_threshold() {
    let mut store = MetadataStore::new();
    store.track_creation_at("/a", "a", 0);
    store.track_creation_at("/b", "b", 86_400);
    let stale = store.stale_worktrees_at(1, 2 * 86_400);
    assert_eq!(stale.len(), 1);
    assert_eq!(stale[0].path, "/a");
}

#[test]
fn set_then_describe_law_on_values() {
    let mut store = MetadataStore::new();
    store.set_description_at("/wt", "feat", "\t spaced out \n", 7);
    assert_eq!(store.description("/wt"), Some("spaced out"));
    store.set_description_at("/wt", "feat", "   ", 8);
    assert_eq!(store.description("/wt"), None);
}

#[test]
fn creation_keeps_description_law_on_values() {
    let mut store = MetadataStore::new();
    store.set_description_at("/wt", "feat", "keep", 1);
    store.track_creation_at("/wt", "other", 2);
    assert_eq!(store.description("/wt"), Some("keep"));
    assert_eq!(store.get("/wt").unwrap().branch, "other");
    assert_eq!(store.get("/wt").unwrap().created_at, 2);
}

#[test]
fn prune_keeps_live_law_on_values() {
    let mut store = MetadataStore::new();
    store.track_creation_at("/a", "a", 1);
    store.track_creation_at("/b", "b", 1);
    store.track_creation_at("/c", "c", 1);
    let removed = store.prune_missing(&["/c".to_string(), "/a".to_string(), "/zzz".to_string()]);
    assert_eq!(removed, 1);
    assert!(store.contains("/a"));
    assert!(!store.contains("/b"));
    assert!(store.contains("/c"));
}
