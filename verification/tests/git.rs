use gat::git::{discover_repo, find_worktree, parse_shortstat, parse_worktrees};

#[test]
fn parses_porcelain_z_worktrees() {
    let raw = "worktree /repo\0HEAD abcdef123456\0branch refs/heads/master\0\0\
worktree /repo-feature\0HEAD 123456abcdef\0branch refs/heads/feature/test\0\0";

    let worktrees = parse_worktrees(raw);

    assert_eq!(worktrees.len(), 2);
    assert!(worktrees[0].is_primary);
    assert_eq!(worktrees[0].branch.as_deref(), Some("master"));
    assert_eq!(worktrees[1].branch.as_deref(), Some("feature/test"));
}

#[test]
fn parses_shortstat_variants() {
    let full = parse_shortstat(" 3 files changed, 12 insertions(+), 4 deletions(-)");
    assert_eq!(full.insertions, 12);
    assert_eq!(full.deletions, 4);

    let only_insertions = parse_shortstat(" 1 file changed, 5 insertions(+)");
    assert_eq!(only_insertions.insertions, 5);
    assert_eq!(only_insertions.deletions, 0);

    let only_deletions = parse_shortstat(" 2 files changed, 7 deletions(-)");
    assert_eq!(only_deletions.insertions, 0);
    assert_eq!(only_deletions.deletions, 7);

    let empty = parse_shortstat("");
    assert_eq!(empty.insertions, 0);
    assert_eq!(empty.deletions, 0);
}

#[test]
fn repo_context_comes_from_the_primary_worktree() {
    let wts = parse_worktrees("worktree /repos/project\0HEAD a\0branch refs/heads/main\0\0worktree /repos/project-T-1\0HEAD b\0branch refs/heads/T-1\0\0");
    let repo = discover_repo("/repos/project-T-1", &wts).unwrap();
    assert_eq!(repo.current_root, "/repos/project-T-1");
    assert_eq!(repo.primary_root, "/repos/project");
    assert_eq!(repo.repo_name, "project");
    assert_eq!(repo.repo_parent, "/repos");
}

#[test]
fn worktrees_are_found_by_branch_basename_or_path() {
    let wts = parse_worktrees("worktree /repos/project\0HEAD a\0branch refs/heads/main\0\0worktree /repos/project-T-1\0HEAD b\0detached\0\0");
    assert_eq!(find_worktree(&wts, "main").unwrap().path, "/repos/project");
    assert_eq!(find_worktree(&wts, "project-T-1").unwrap().path, "/repos/project-T-1");
    assert_eq!(find_worktree(&wts, "/repos/project-T-1").unwrap().path, "/repos/project-T-1");
    assert!(find_worktree(&wts, "T-1").is_none());
}
