//! Git porcelain parsing and the decisions made on Git's answers.
//!
//! `gat` runs the installed `git` binary; running it is the caller's job.
//! This module says which arguments each operation passes, and turns what Git
//! printed into values.

use vstd::prelude::*;
use crate::cli::{parse, run};
use crate::error::{ErrorView, GatError, Result};
use crate::naming::Repo;
use crate::sessions::opt_view;
use crate::text::{chars_eq, chars_of, decimal, decimal_string, eq_lit, first_index_of, has_prefix_lit, index_of, lines, lines_chars, parse_unsigned, parse_unsigned_chars, push_str, slice_of, split, split_chars, starts_with, str_eq, string_of, trim, trim_chars, trim_start_matches, trim_start_matches_lit};


verus! {

/// Parsed entry from `git worktree list --porcelain -z`.
#[derive(Clone, Debug)]
pub struct Worktree<S = String> {
    /// Absolute or Git-reported path to the worktree.
    pub path: S,
    /// Full HEAD object id when Git reports one.
    pub head: Option<S>,
    /// Local branch name without the `refs/heads/` prefix.
    pub branch: Option<S>,
    /// Whether Git reports this entry as bare.
    pub bare: bool,
    /// Whether the worktree is detached.
    pub detached: bool,
    /// Optional Git lock reason.
    pub locked: Option<S>,
    /// Optional Git prune reason.
    pub prunable: Option<S>,
    /// Whether this is the first worktree returned by Git.
    pub is_primary: bool,
}

/// The specification-level worktree value.
pub type WorktreeView = Worktree<Seq<char>>;

impl View for Worktree<String> {
    type V = Worktree<Seq<char>>;

    open spec fn view(&self) -> Worktree<Seq<char>> {
        Worktree {
            path: self.path@,
            head: opt_view(self.head),
            branch: opt_view(self.branch),
            bare: self.bare,
            detached: self.detached,
            locked: opt_view(self.locked),
            prunable: opt_view(self.prunable),
            is_primary: self.is_primary,
        }
    }
}

/// Worktrees taken by their views.
pub open spec fn worktrees_view(ws: Seq<Worktree>) -> Seq<WorktreeView> {
    ws.map_values(|w: Worktree| w@)
}

/// Captured output from a Git subprocess.
#[derive(Debug)]
pub struct GitOutput {
    /// Standard output decoded lossily as UTF-8.
    pub stdout: String,
    /// Standard error decoded lossily as UTF-8.
    pub stderr: String,
    /// Process exit status, or `1` when no status code is available.
    pub status: i32,
}

/// A fresh worktree entry for `path`.
pub open spec fn new_entry(path: Seq<char>) -> WorktreeView {
    Worktree {
        path: path,
        head: None,
        branch: None,
        bare: false,
        detached: false,
        locked: None,
        prunable: None,
        is_primary: false,
    }
}

/// The porcelain token `token` applied to the entry being read.
pub open spec fn apply_token(wt: WorktreeView, token: Seq<char>) -> WorktreeView {
    if starts_with(token, "HEAD "@) {
        Worktree { head: Some(token.skip(5)), ..wt }
    } else if starts_with(token, "branch "@) {
        Worktree { branch: Some(trim_start_matches(token.skip(7), "refs/heads/"@)), ..wt }
    } else if token == "bare"@ {
        Worktree { bare: true, ..wt }
    } else if token == "detached"@ {
        Worktree { detached: true, ..wt }
    } else if starts_with(token, "locked "@) {
        Worktree { locked: Some(token.skip(7)), ..wt }
    } else if token == "locked"@ {
        Worktree { locked: Some(Seq::<char>::empty()), ..wt }
    } else if starts_with(token, "prunable "@) {
        Worktree { prunable: Some(token.skip(9)), ..wt }
    } else if token == "prunable"@ {
        Worktree { prunable: Some(Seq::<char>::empty()), ..wt }
    } else {
        wt
    }
}

/// The finished entries and the entry still being read after `tokens`.
pub open spec fn porcelain_scan(tokens: Seq<Seq<char>>) -> (Seq<WorktreeView>, Option<WorktreeView>)
    decreases tokens.len(),
{
    if tokens.len() == 0 {
        (Seq::<WorktreeView>::empty(), None)
    } else {
        let (done, cur) = porcelain_scan(tokens.drop_last());
        let token = tokens.last();
        if token.len() == 0 {
            match cur {
                Some(wt) => (done.push(wt), None),
                None => (done, None),
            }
        } else if starts_with(token, "worktree "@) {
            let done2 = match cur { Some(wt) => done.push(wt), None => done };
            (done2, Some(new_entry(token.skip(9))))
        } else {
            match cur {
                Some(wt) => (done, Some(apply_token(wt, token))),
                None => (done, None),
            }
        }
    }
}

/// The worktrees described by NUL-delimited `git worktree list --porcelain -z`
/// output, the first of them marked primary.
pub open spec fn parsed_worktrees(raw: Seq<char>) -> Seq<WorktreeView> {
    let (done, cur) = porcelain_scan(split(raw, '\0'));
    let all = match cur { Some(wt) => done.push(wt), None => done };
    Seq::new(all.len(), |i: int| Worktree { is_primary: i == 0, ..all[i] })
}

fn skip_of(s: &[char], n: usize) -> (r: String)
    requires
        n <= s.len(),
    ensures
        r@ == s@.skip(n as int),
{
    let v = slice_of(s, n, s.len());
    string_of(&v)
}

fn apply_token_exec(wt: &mut Worktree, token: &[char])
    ensures
        final(wt)@ == apply_token(old(wt)@, token@),
{
    if has_prefix_lit(token, "HEAD ") {
        proof { reveal_strlit("HEAD "); }
        wt.head = Some(skip_of(token, 5));
    } else if has_prefix_lit(token, "branch ") {
        proof { reveal_strlit("branch "); }
        let rest = slice_of(token, 7, token.len());
        let b = trim_start_matches_lit(&rest, "refs/heads/");
        wt.branch = Some(string_of(&b));
    } else if eq_lit(token, "bare") {
        wt.bare = true;
    } else if eq_lit(token, "detached") {
        wt.detached = true;
    } else if has_prefix_lit(token, "locked ") {
        proof { reveal_strlit("locked "); }
        wt.locked = Some(skip_of(token, 7));
    } else if eq_lit(token, "locked") {
        wt.locked = Some(String::new());
    } else if has_prefix_lit(token, "prunable ") {
        proof { reveal_strlit("prunable "); }
        wt.prunable = Some(skip_of(token, 9));
    } else if eq_lit(token, "prunable") {
        wt.prunable = Some(String::new());
    }
}

/// Parses NUL-delimited `git worktree list --porcelain -z` output.
pub fn parse_worktrees(raw: &str) -> (r: Vec<Worktree>)
    ensures
        worktrees_view(r@) == parsed_worktrees(raw@),
{
    let v = chars_of(raw);
    let tokens = split_chars(&v, '\0');
    let ghost tv = split(raw@, '\0');
    let mut done: Vec<Worktree> = Vec::new();
    let mut current: Option<Worktree> = None;
    let mut i: usize = 0;
    while i < tokens.len()
        invariant
            i <= tokens.len(),
            tokens@.len() == tv.len(),
            forall|k: int| 0 <= k < tv.len() ==> #[trigger] tokens@[k]@ == tv[k],
            (worktrees_view(done@), match current { Some(w) => Some(w@), None => None }) == porcelain_scan(tv.take(i as int)),
        decreases tokens.len() - i,
    {
        assert(tv.take(i + 1).drop_last() == tv.take(i as int));
        let token = &tokens[i];
        let ghost before = worktrees_view(done@);
        if token.len() == 0 {
            match current {
                Some(wt) => {
                    done.push(wt);
                    assert(worktrees_view(done@) =~= before.push(wt@));
                },
                None => {},
            }
            current = None;
        } else if has_prefix_lit(token, "worktree ") {
            proof { reveal_strlit("worktree "); }
            match current {
                Some(wt) => {
                    done.push(wt);
                    assert(worktrees_view(done@) =~= before.push(wt@));
                },
                None => {},
            }
            current = Some(Worktree {
                path: skip_of(token, 9),
                head: None,
                branch: None,
                bare: false,
                detached: false,
                locked: None,
                prunable: None,
                is_primary: false,
            });
        } else {
            match current {
                Some(mut wt) => {
                    apply_token_exec(&mut wt, token);
                    current = Some(wt);
                },
                None => {},
            }
        }
        i += 1;
    }
    assert(tv.take(tokens.len() as int) == tv);
    let ghost before = worktrees_view(done@);
    match current {
        Some(wt) => {
            done.push(wt);
            assert(worktrees_view(done@) =~= before.push(wt@));
        },
        None => {},
    }
    let ghost all = worktrees_view(done@);
    let mut out: Vec<Worktree> = Vec::new();
    let n = done.len();
    let mut rest = done;
    let mut k: usize = 0;
    while k < n
        invariant
            k <= n,
            n == all.len(),
            rest.len() == n - k,
            worktrees_view(rest@) == all.skip(k as int),
            worktrees_view(out@) =~= Seq::new(k as nat, |j: int| Worktree { is_primary: j == 0, ..all[j] }),
        decreases n - k,
    {
        let ghost old_rest = rest@;
        assert(worktrees_view(old_rest)[0] == all.skip(k as int)[0]);
        let mut wt = rest.remove(0);
        assert(rest@ =~= old_rest.drop_first());
        assert(worktrees_view(rest@) =~= worktrees_view(old_rest).drop_first());
        assert(all.skip(k as int).drop_first() =~= all.skip(k + 1));
        assert(wt@ == all[k as int]);
        wt.is_primary = k == 0;
        let ghost before = worktrees_view(out@);
        out.push(wt);
        assert(worktrees_view(out@) =~= before.push(wt@));
        assert(wt@ == Worktree { is_primary: k == 0, ..all[k as int] });
        k += 1;
    }
    out
}

/// The most useful Git error message for users: stderr, else stdout, else
/// the exit status.
pub open spec fn clean_git_message_spec(stdout: Seq<char>, stderr: Seq<char>, status: i32) -> Seq<char> {
    if trim(stderr).len() > 0 {
        trim(stderr)
    } else if trim(stdout).len() > 0 {
        trim(stdout)
    } else {
        "exit status "@ + signed_decimal(status as int)
    }
}

/// Decimal rendering of a signed integer.
pub open spec fn signed_decimal(n: int) -> Seq<char> {
    if n < 0 { "-"@ + decimal((-n) as nat) } else { decimal(n as nat) }
}

pub fn signed_decimal_string(n: i32) -> (r: String)
    ensures
        r@ == signed_decimal(n as int),
{
    if n < 0 {
        let mut out = String::from_str("-");
        let m: u64 = (-(n as i64)) as u64;
        push_str(&mut out, decimal_string(m).as_str());
        out
    } else {
        decimal_string(n as u64)
    }
}

/// Chooses the most useful Git error message for users.
pub fn clean_git_message(output: &GitOutput) -> (r: String)
    ensures
        r@ == clean_git_message_spec(output.stdout@, output.stderr@, output.status),
{
    let stderr = trim_chars(&chars_of(output.stderr.as_str()));
    let stdout = trim_chars(&chars_of(output.stdout.as_str()));
    if stderr.len() > 0 {
        string_of(&stderr)
    } else if stdout.len() > 0 {
        string_of(&stdout)
    } else {
        let mut out = String::from_str("exit status ");
        push_str(&mut out, signed_decimal_string(output.status).as_str());
        out
    }
}

/// Words joined by single spaces (`[&str]::join(" ")`).
pub open spec fn join_words(words: Seq<Seq<char>>) -> Seq<char>
    decreases words.len(),
{
    if words.len() == 0 {
        Seq::<char>::empty()
    } else if words.len() == 1 {
        words[0]
    } else {
        join_words(words.drop_last()) + " "@ + words.last()
    }
}

/// Joins words with single spaces.
pub fn join_with_spaces(words: &[String]) -> (r: String)
    ensures
        r@ == join_words(words@.map_values(|w: String| w@)),
{
    let ghost wv = words@.map_values(|w: String| w@);
    let mut out = String::new();
    let mut i: usize = 0;
    while i < words.len()
        invariant
            i <= words.len(),
            wv == words@.map_values(|w: String| w@),
            out@ == join_words(wv.take(i as int)),
        decreases words.len() - i,
    {
        assert(wv.take(i + 1).drop_last() == wv.take(i as int));
        if i > 0 {
            push_str(&mut out, " ");
        } else {
            assert(out@ =~= Seq::<char>::empty());
        }
        push_str(&mut out, words[i].as_str());
        assert(out@ =~= join_words(wv.take(i + 1)));
        i += 1;
    }
    assert(wv.take(words.len() as int) == wv);
    out
}

/// What `git_ok` yields for an output: the output itself on exit status 0,
/// otherwise a Git error naming the command and Git's message.
pub open spec fn git_ok_spec(output: GitOutput, args: Seq<Seq<char>>) -> core::result::Result<(), ErrorView> {
    if output.status == 0 {
        Ok(())
    } else {
        Err(GatError::Git {
            command: "git "@ + join_words(args),
            message: clean_git_message_spec(output.stdout@, output.stderr@, output.status),
        })
    }
}

/// Converts a non-zero Git exit status into [`GatError::Git`].
pub fn git_ok(output: GitOutput, args: &[String]) -> (r: Result<GitOutput>)
    ensures
        match r {
            Ok(o) => o == output && git_ok_spec(output, args@.map_values(|w: String| w@)) == Ok::<(), ErrorView>(()),
            Err(e) => git_ok_spec(output, args@.map_values(|w: String| w@)) == Err::<(), ErrorView>(e@),
        },
{
    if output.status == 0 {
        return Ok(output);
    }
    let mut command = String::from_str("git ");
    push_str(&mut command, join_with_spaces(args).as_str());
    let message = clean_git_message(&output);
    Err(GatError::Git { command, message })
}

/// Parses the output of `git worktree list --porcelain -z`, failing on a
/// non-zero exit status.
pub fn list_worktrees(output: GitOutput, args: &[String]) -> (r: Result<Vec<Worktree>>)
    ensures
        match r {
            Ok(ws) => output.status == 0 && worktrees_view(ws@) == parsed_worktrees(output.stdout@),
            Err(e) => git_ok_spec(output, args@.map_values(|w: String| w@)) == Err::<(), ErrorView>(e@),
        },
{
    let out = git_ok(output, args)?;
    Ok(parse_worktrees(out.stdout.as_str()))
}

/// A trimmed single-line answer: `None` when Git failed or printed nothing.
pub open spec fn trimmed_answer(output: GitOutput) -> Option<Seq<char>> {
    if output.status != 0 || trim(output.stdout@).len() == 0 {
        None
    } else {
        Some(trim(output.stdout@))
    }
}

fn answer_of(output: &GitOutput) -> (r: Option<String>)
    ensures
        opt_view(r) == trimmed_answer(*output),
{
    if output.status != 0 {
        return None;
    }
    let t = trim_chars(&chars_of(output.stdout.as_str()));
    if t.len() == 0 {
        None
    } else {
        Some(string_of(&t))
    }
}

/// The current branch from `git branch --show-current`, or `None` for a
/// detached HEAD or a Git failure.
pub fn current_branch(output: &GitOutput) -> (r: Option<String>)
    ensures
        opt_view(r) == trimmed_answer(*output),
{
    answer_of(output)
}

/// The branch checked out in a worktree, from `git branch --show-current`
/// run there.
pub fn branch_at(output: &GitOutput) -> (r: Option<String>)
    ensures
        opt_view(r) == trimmed_answer(*output),
{
    answer_of(output)
}

/// A Git config value from `git config --get <key>`: `None` when unset or empty.
pub fn config_get(output: &GitOutput) -> (r: Option<String>)
    ensures
        opt_view(r) == trimmed_answer(*output),
{
    answer_of(output)
}

/// Whether `git rev-parse --verify --quiet refs/heads/<branch>` found the branch.
pub fn branch_exists(output: &GitOutput) -> (r: bool)
    ensures
        r == (output.status == 0),
{
    output.status == 0
}

/// The arguments that verify a local branch exists.
pub fn branch_exists_args(branch: &str) -> (r: Vec<String>)
    ensures
        r@.map_values(|w: String| w@) == seq!["rev-parse"@, "--verify"@, "--quiet"@, "refs/heads/"@ + branch@],
{
    let mut refname = String::from_str("refs/heads/");
    push_str(&mut refname, branch);
    let r = vec![String::from_str("rev-parse"), String::from_str("--verify"), String::from_str("--quiet"), refname];
    assert(r@.map_values(|w: String| w@) =~= seq!["rev-parse"@, "--verify"@, "--quiet"@, "refs/heads/"@ + branch@]);
    r
}

/// The default base branch: the remote default (`origin/HEAD`) when known,
/// then `main`, then `master`, then the primary worktree's branch, then `HEAD`.
pub open spec fn default_branch_spec(
    origin_head: GitOutput,
    main_exists: bool,
    master_exists: bool,
    worktrees: Seq<WorktreeView>,
) -> Seq<char> {
    let value = trim(origin_head.stdout@);
    if origin_head.status == 0 && starts_with(value, "refs/remotes/origin/"@) {
        value.skip(20)
    } else if main_exists {
        "main"@
    } else if master_exists {
        "master"@
    } else if worktrees.len() > 0 && worktrees[0].branch is Some {
        worktrees[0].branch->0
    } else {
        "HEAD"@
    }
}

/// Resolves the default base branch for new ticket worktrees from
/// `git symbolic-ref refs/remotes/origin/HEAD` and whether the `main` and
/// `master` branches exist (`master_exists` is only consulted without `main`).
pub fn default_branch(origin_head: &GitOutput, main_exists: bool, master_exists: bool, worktrees: &[Worktree]) -> (r: String)
    ensures
        r@ == default_branch_spec(*origin_head, main_exists, master_exists, worktrees@.map_values(|w: Worktree| w@)),
{
    let value = trim_chars(&chars_of(origin_head.stdout.as_str()));
    if origin_head.status == 0 && has_prefix_lit(&value, "refs/remotes/origin/") {
        proof { reveal_strlit("refs/remotes/origin/"); }
        return skip_of(&value, 20);
    }
    if main_exists {
        return String::from_str("main");
    }
    if master_exists {
        return String::from_str("master");
    }
    if worktrees.len() > 0 {
        match &worktrees[0].branch {
            Some(b) => {
                return string_of(&chars_of(b.as_str()));
            },
            None => {},
        }
    }
    String::from_str("HEAD")
}

/// The base name of a path, as `Path::file_name` reports it.
pub uninterp spec fn path_file_name(p: Seq<char>) -> Option<Seq<char>>;

/// The parent directory of a path, as `Path::parent` reports it.
pub uninterp spec fn path_parent(p: Seq<char>) -> Option<Seq<char>>;

/// The final component of a path, from `Path::file_name`; the contract
/// claims the result is [`path_file_name`] of the text, nothing more.
#[verifier::external_body]
pub(crate) fn file_name(p: &str) -> (r: Option<String>)
    ensures
        opt_view(r) == path_file_name(p@),
{
    std::path::Path::new(p).file_name().and_then(|n| n.to_str()).map(|s| s.to_string())
}

/// The parent directory of a path, from `Path::parent`; the contract claims
/// the result is [`path_parent`] of the text, nothing more.
#[verifier::external_body]
pub(crate) fn parent(p: &str) -> (r: Option<String>)
    ensures
        opt_view(r) == path_parent(p@),
{
    std::path::Path::new(p).parent().and_then(|n| n.to_str()).map(|s| s.to_string())
}

/// The repository context `git rev-parse --show-toplevel` and the worktree
/// list describe.
pub open spec fn discover_repo_spec(current_root: Seq<char>, worktrees: Seq<WorktreeView>) -> core::result::Result<(Seq<char>, Seq<char>, Seq<char>, Seq<char>), ErrorView> {
    let primary = if worktrees.len() > 0 { worktrees[0].path } else { current_root };
    match path_file_name(primary) {
        None => Err(GatError::Io("cannot derive repo name from "@ + primary)),
        Some(name) => match path_parent(primary) {
            None => Err(GatError::Io("cannot derive repo parent from "@ + primary)),
            Some(parent) => Ok((current_root, primary, name, parent)),
        },
    }
}

/// Fails with [`GatError::NotGitRepo`] unless `git rev-parse --show-toplevel`
/// succeeded; on success yields the trimmed top-level path.
pub fn current_root(rev_parse: &GitOutput) -> (r: Result<String>)
    ensures
        match r {
            Ok(root) => rev_parse.status == 0 && root@ == trim(rev_parse.stdout@),
            Err(e) => rev_parse.status != 0 && e@ == GatError::<Seq<char>>::NotGitRepo,
        },
{
    if rev_parse.status != 0 {
        return Err(GatError::NotGitRepo);
    }
    Ok(string_of(&trim_chars(&chars_of(rev_parse.stdout.as_str()))))
}

/// Builds the repository context from the current root and the registered
/// worktrees. The primary worktree drives default sibling paths, so linked
/// worktrees still create new worktrees next to the primary checkout.
pub fn discover_repo(current_root: &str, worktrees: &[Worktree]) -> (r: Result<Repo>)
    ensures
        match r {
            Ok(repo) => discover_repo_spec(current_root@, worktrees@.map_values(|w: Worktree| w@))
                == Ok::<(Seq<char>, Seq<char>, Seq<char>, Seq<char>), ErrorView>((repo.current_root@, repo.primary_root@, repo.repo_name@, repo.repo_parent@)),
            Err(e) => discover_repo_spec(current_root@, worktrees@.map_values(|w: Worktree| w@)) == Err::<(Seq<char>, Seq<char>, Seq<char>, Seq<char>), ErrorView>(e@),
        },
{
    let primary = if worktrees.len() > 0 {
        string_of(&chars_of(worktrees[0].path.as_str()))
    } else {
        string_of(&chars_of(current_root))
    };
    let name = match file_name(primary.as_str()) {
        Some(n) => n,
        None => {
            let mut m = String::from_str("cannot derive repo name from ");
            push_str(&mut m, primary.as_str());
            return Err(GatError::Io(m));
        },
    };
    let par = match parent(primary.as_str()) {
        Some(p) => p,
        None => {
            let mut m = String::from_str("cannot derive repo parent from ");
            push_str(&mut m, primary.as_str());
            return Err(GatError::Io(m));
        },
    };
    Ok(Repo {
        current_root: string_of(&chars_of(current_root)),
        primary_root: primary,
        repo_name: name,
        repo_parent: par,
    })
}

/// A worktree matches a target by exact branch, basename, or full path.
pub open spec fn worktree_matches(wt: WorktreeView, target: Seq<char>) -> bool {
    wt.branch == Some(target) || path_file_name(wt.path) == Some(target) || wt.path == target
}

/// Index of the first worktree matching `target`.
pub open spec fn find_worktree_index(ws: Seq<WorktreeView>, target: Seq<char>) -> Option<int>
    decreases ws.len(),
{
    if ws.len() == 0 {
        None
    } else if worktree_matches(ws.last(), target) && !(find_worktree_index(ws.drop_last(), target) is Some) {
        Some(ws.len() - 1)
    } else {
        find_worktree_index(ws.drop_last(), target)
    }
}

fn matches_target(wt: &Worktree, target: &str) -> (r: bool)
    ensures
        r == worktree_matches(wt@, target@),
{
    let t = chars_of(target);
    let by_branch = match &wt.branch {
        Some(b) => chars_eq(&chars_of(b.as_str()), &t),
        None => false,
    };
    if by_branch {
        return true;
    }
    let by_name = match file_name(wt.path.as_str()) {
        Some(n) => chars_eq(&chars_of(n.as_str()), &t),
        None => false,
    };
    by_name || chars_eq(&chars_of(wt.path.as_str()), &t)
}

/// Finds a worktree by exact branch, basename, or full path.
pub fn find_worktree<'a>(worktrees: &'a [Worktree], target: &str) -> (r: Option<&'a Worktree>)
    ensures
        match find_worktree_index(worktrees@.map_values(|w: Worktree| w@), target@) {
            Some(i) => r is Some && 0 <= i < worktrees@.len() && *(r->0) == worktrees@[i],
            None => r is None,
        },
{
    let ghost wv = worktrees@.map_values(|w: Worktree| w@);
    let mut i: usize = 0;
    while i < worktrees.len()
        invariant
            i <= worktrees.len(),
            wv == worktrees@.map_values(|w: Worktree| w@),
            find_worktree_index(wv.take(i as int), target@) is None,
        decreases worktrees.len() - i,
    {
        assert(wv.take(i + 1).drop_last() == wv.take(i as int));
        if matches_target(&worktrees[i], target) {
            proof { lemma_find_prefix(wv, target@, i as int); }
            return Some(&worktrees[i]);
        }
        assert(find_worktree_index(wv.take(i + 1), target@) is None);
        i += 1;
    }
    assert(wv.take(worktrees.len() as int) == wv);
    None
}

proof fn lemma_find_prefix(ws: Seq<WorktreeView>, target: Seq<char>, i: int)
    requires
        0 <= i < ws.len(),
        find_worktree_index(ws.take(i), target) is None,
        worktree_matches(ws[i], target),
    ensures
        find_worktree_index(ws, target) == Some(i),
    decreases ws.len(),
{
    if i == ws.len() - 1 {
        assert(ws.drop_last() == ws.take(i));
    } else {
        assert(ws.drop_last().take(i) == ws.take(i));
        lemma_find_prefix(ws.drop_last(), target, i);
    }
}

/// The arguments of `git worktree add`: detached at `base`, checking out an
/// existing branch, or creating the branch from `base` (never `-B`, which
/// would reset an existing branch).
pub open spec fn add_worktree_spec(path: Seq<char>, branch: Seq<char>, base: Seq<char>, detach: bool, branch_exists: bool) -> Seq<Seq<char>> {
    if detach {
        seq!["worktree"@, "add"@, "--detach"@, path, base]
    } else if branch_exists {
        seq!["worktree"@, "add"@, path, branch]
    } else {
        seq!["worktree"@, "add"@, "-b"@, branch, path, base]
    }
}

fn owned(s: &str) -> (r: String)
    ensures
        r@ == s@,
{
    string_of(&chars_of(s))
}

/// The arguments that add a worktree, creating the branch when it does not
/// already exist (`branch_exists` is only consulted without `detach`).
pub fn add_worktree(path: &str, branch: &str, base: &str, detach: bool, branch_exists: bool) -> (r: Vec<String>)
    ensures
        r@.map_values(|w: String| w@) == add_worktree_spec(path@, branch@, base@, detach, branch_exists),
{
    let r = if detach {
        vec![owned("worktree"), owned("add"), owned("--detach"), owned(path), owned(base)]
    } else if branch_exists {
        vec![owned("worktree"), owned("add"), owned(path), owned(branch)]
    } else {
        vec![owned("worktree"), owned("add"), owned("-b"), owned(branch), owned(path), owned(base)]
    };
    assert(r@.map_values(|w: String| w@) =~= add_worktree_spec(path@, branch@, base@, detach, branch_exists));
    r
}

/// The arguments that remove a worktree through native Git.
pub fn remove_worktree(path: &str, force: bool) -> (r: Vec<String>)
    ensures
        r@.map_values(|w: String| w@) == (if force {
            seq!["worktree"@, "remove"@, "--force"@, path@]
        } else {
            seq!["worktree"@, "remove"@, path@]
        }),
{
    let r = if force {
        vec![owned("worktree"), owned("remove"), owned("--force"), owned(path)]
    } else {
        vec![owned("worktree"), owned("remove"), owned(path)]
    };
    assert(r@.map_values(|w: String| w@) =~= (if force {
        seq!["worktree"@, "remove"@, "--force"@, path@]
    } else {
        seq!["worktree"@, "remove"@, path@]
    }));
    r
}

/// The arguments that move a registered worktree (used by archive flows so
/// Git metadata stays consistent).
pub fn move_worktree(from: &str, to: &str) -> (r: Vec<String>)
    ensures
        r@.map_values(|w: String| w@) == seq!["worktree"@, "move"@, from@, to@],
{
    let r = vec![owned("worktree"), owned("move"), owned(from), owned(to)];
    assert(r@.map_values(|w: String| w@) =~= seq!["worktree"@, "move"@, from@, to@]);
    r
}

/// The arguments that delete a local branch (`-d`, or `-D` when forced).
pub fn delete_branch(branch: &str, force: bool) -> (r: Vec<String>)
    ensures
        r@.map_values(|w: String| w@) == seq!["branch"@, if force { "-D"@ } else { "-d"@ }, branch@],
{
    let r = vec![owned("branch"), owned(if force { "-D" } else { "-d" }), owned(branch)];
    assert(r@.map_values(|w: String| w@) =~= seq!["branch"@, if force { "-D"@ } else { "-d"@ }, branch@]);
    r
}

/// The arguments that prune stale worktree metadata.
pub fn prune_stale_args(dry_run: bool) -> (r: Vec<String>)
    ensures
        r@.map_values(|w: String| w@) == (if dry_run {
            seq!["worktree"@, "prune"@, "--verbose"@, "--dry-run"@, "--expire=now"@]
        } else {
            seq!["worktree"@, "prune"@, "--verbose"@, "--expire=now"@]
        }),
{
    let r = if dry_run {
        vec![owned("worktree"), owned("prune"), owned("--verbose"), owned("--dry-run"), owned("--expire=now")]
    } else {
        vec![owned("worktree"), owned("prune"), owned("--verbose"), owned("--expire=now")]
    };
    assert(r@.map_values(|w: String| w@) =~= (if dry_run {
        seq!["worktree"@, "prune"@, "--verbose"@, "--dry-run"@, "--expire=now"@]
    } else {
        seq!["worktree"@, "prune"@, "--verbose"@, "--expire=now"@]
    }));
    r
}

/// Git's textual report of `git worktree prune`: stderr unless it is blank,
/// then stdout; a non-zero exit status is an error.
pub fn prune_stale(output: GitOutput, args: &[String]) -> (r: Result<String>)
    ensures
        match r {
            Ok(t) => output.status == 0 && t@ == (if trim(output.stderr@).len() == 0 { output.stdout@ } else { output.stderr@ }),
            Err(e) => git_ok_spec(output, args@.map_values(|w: String| w@)) == Err::<(), ErrorView>(e@),
        },
{
    let out = git_ok(output, args)?;
    if trim_chars(&chars_of(out.stderr.as_str())).len() == 0 {
        Ok(out.stdout)
    } else {
        Ok(out.stderr)
    }
}

/// The arguments of the merge: `--no-edit`, plus `--no-ff` with an explicit
/// merge message when a merge commit is always wanted.
pub fn merge_branch_args(branch: &str, into_branch: &str, no_ff: bool) -> (r: Vec<String>)
    ensures
        r@.map_values(|w: String| w@) == (if no_ff {
            seq!["merge"@, "--no-edit"@, "--no-ff"@, "-m"@, "Merge branch '"@ + branch@ + "' into "@ + into_branch@, branch@]
        } else {
            seq!["merge"@, "--no-edit"@, branch@]
        }),
{
    let r = if no_ff {
        let mut message = String::from_str("Merge branch '");
        push_str(&mut message, branch);
        push_str(&mut message, "' into ");
        push_str(&mut message, into_branch);
        vec![owned("merge"), owned("--no-edit"), owned("--no-ff"), owned("-m"), message, owned(branch)]
    } else {
        vec![owned("merge"), owned("--no-edit"), owned(branch)]
    };
    assert(r@.map_values(|w: String| w@) =~= (if no_ff {
        seq!["merge"@, "--no-edit"@, "--no-ff"@, "-m"@, "Merge branch '"@ + branch@ + "' into "@ + into_branch@, branch@]
    } else {
        seq!["merge"@, "--no-edit"@, branch@]
    }));
    r
}

/// The merge command's output for display: stdout unless it is blank, then
/// stderr; a non-zero exit status is an error.
pub fn merge_branch(output: GitOutput, args: &[String]) -> (r: Result<String>)
    ensures
        match r {
            Ok(t) => output.status == 0 && t@ == (if trim(output.stdout@).len() == 0 { output.stderr@ } else { output.stdout@ }),
            Err(e) => git_ok_spec(output, args@.map_values(|w: String| w@)) == Err::<(), ErrorView>(e@),
        },
{
    let out = git_ok(output, args)?;
    if trim_chars(&chars_of(out.stdout.as_str())).len() == 0 {
        Ok(out.stderr)
    } else {
        Ok(out.stdout)
    }
}

/// Working-tree change summary for a single worktree.
#[derive(Clone, Copy, Debug, Default)]
pub struct WorkingStatus {
    /// Whether there are any staged, unstaged, or untracked changes.
    pub dirty: bool,
    /// Number of changed paths reported by `git status --porcelain`.
    pub changed_files: usize,
}

/// Line-level diff summary versus `HEAD`.
#[derive(Clone, Copy, Debug, Default)]
pub struct DiffStat {
    /// Inserted lines across tracked files versus `HEAD`.
    pub insertions: usize,
    /// Deleted lines across tracked files versus `HEAD`.
    pub deletions: usize,
}

/// Number of non-blank lines.
pub open spec fn count_nonblank(ls: Seq<Seq<char>>) -> nat
    decreases ls.len(),
{
    if ls.len() == 0 {
        0
    } else {
        count_nonblank(ls.drop_last()) + (if trim(ls.last()).len() > 0 { 1nat } else { 0nat })
    }
}

proof fn lemma_count_le(ls: Seq<Seq<char>>)
    ensures
        count_nonblank(ls) <= ls.len(),
    decreases ls.len(),
{
    if ls.len() > 0 {
        lemma_count_le(ls.drop_last());
    }
}

/// The working-tree summary from `git status --porcelain` output: one changed
/// path per non-blank line (staged, unstaged, and untracked alike).
pub fn working_status(output: GitOutput, args: &[String]) -> (r: Result<WorkingStatus>)
    ensures
        match r {
            Ok(st) => output.status == 0 && st.changed_files == count_nonblank(lines(output.stdout@))
                && st.dirty == (st.changed_files > 0),
            Err(e) => git_ok_spec(output, args@.map_values(|w: String| w@)) == Err::<(), ErrorView>(e@),
        },
{
    let out = git_ok(output, args)?;
    let ls = lines_chars(&chars_of(out.stdout.as_str()));
    let ghost lv = lines(out.stdout@);
    let mut count: usize = 0;
    let mut i: usize = 0;
    while i < ls.len()
        invariant
            i <= ls.len(),
            ls@.len() == lv.len(),
            forall|k: int| 0 <= k < lv.len() ==> #[trigger] ls@[k]@ == lv[k],
            count == count_nonblank(lv.take(i as int)),
            count <= i,
        decreases ls.len() - i,
    {
        assert(lv.take(i + 1).drop_last() == lv.take(i as int));
        if trim_chars(&ls[i]).len() > 0 {
            count += 1;
        }
        i += 1;
    }
    assert(lv.take(ls.len() as int) == lv);
    Ok(WorkingStatus { dirty: count > 0, changed_files: count })
}

/// Whether a worktree has staged, unstaged, or untracked changes, from
/// `git status --porcelain` output.
pub fn is_dirty(output: GitOutput, args: &[String]) -> (r: Result<bool>)
    ensures
        match r {
            Ok(d) => output.status == 0 && d == (count_nonblank(lines(output.stdout@)) > 0),
            Err(e) => git_ok_spec(output, args@.map_values(|w: String| w@)) == Err::<(), ErrorView>(e@),
        },
{
    let st = working_status(output, args)?;
    Ok(st.dirty)
}

/// One `, `-separated segment of `git diff --shortstat` applied to the
/// running totals: `<count> insertion...` or `<count> deletion...`.
pub open spec fn shortstat_segment(stat: (nat, nat), segment: Seq<char>) -> (nat, nat) {
    let s = trim(segment);
    match index_of(s, ' ') {
      None => stat,
      Some(k) => {
        let count = s.take(k);
        let label = s.skip(k + 1);
        match parse_unsigned(count, usize::MAX as nat) {
            None => stat,
            Some(v) => if starts_with(label, "insertion"@) {
                (v, stat.1)
            } else if starts_with(label, "deletion"@) {
                (stat.0, v)
            } else {
                stat
            },
        }
      },
    }
}

/// The totals of all segments.
pub open spec fn shortstat_fold(segments: Seq<Seq<char>>) -> (nat, nat)
    decreases segments.len(),
{
    if segments.len() == 0 {
        (0, 0)
    } else {
        shortstat_segment(shortstat_fold(segments.drop_last()), segments.last())
    }
}

/// Parses `git diff --shortstat` output into a [`DiffStat`].
///
/// Example input: ` 3 files changed, 12 insertions(+), 4 deletions(-)`.
pub fn parse_shortstat(raw: &str) -> (r: DiffStat)
    ensures
        (r.insertions as nat, r.deletions as nat) == shortstat_fold(split(raw@, ',')),
{
    let segments = split_chars(&chars_of(raw), ',');
    let ghost sv = split(raw@, ',');
    let mut ins: usize = 0;
    let mut del: usize = 0;
    let mut i: usize = 0;
    while i < segments.len()
        invariant
            i <= segments.len(),
            segments@.len() == sv.len(),
            forall|k: int| 0 <= k < sv.len() ==> #[trigger] segments@[k]@ == sv[k],
            (ins as nat, del as nat) == shortstat_fold(sv.take(i as int)),
        decreases segments.len() - i,
    {
        assert(sv.take(i + 1).drop_last() == sv.take(i as int));
        let s = trim_chars(&segments[i]);
        assert(sv.take(i + 1).last() == sv[i as int]);
        assert(s@ == trim(sv[i as int]));
        assert((usize::MAX as u64) as nat == usize::MAX as nat);
        let ghost prev = (ins as nat, del as nat);
        match first_index_of(&s, ' ') {
            None => {
                assert(index_of(s@, ' ') is None);
            },
            Some(k) => {
                assert(index_of(s@, ' ') == Some(k as int));
                let count = slice_of(&s, 0, k);
                let label = slice_of(&s, k + 1, s.len());
                assert(count@ =~= s@.take(k as int));
                assert(label@ =~= s@.skip(k + 1));
                match parse_unsigned_chars(&count, usize::MAX as u64) {
                    None => {},
                    Some(v) => {
                        assert(parse_unsigned(s@.take(k as int), usize::MAX as nat) == Some(v as nat));
                        if has_prefix_lit(&label, "insertion") {
                            ins = v as usize;
                        } else if has_prefix_lit(&label, "deletion") {
                            del = v as usize;
                        }
                    },
                }
            },
        }
        assert((ins as nat, del as nat) == shortstat_segment(prev, sv[i as int]));
        i += 1;
    }
    assert(sv.take(segments.len() as int) == sv);
    DiffStat { insertions: ins, deletions: del }
}

/// The insertion/deletion counts of tracked changes versus `HEAD`, from
/// `git diff --shortstat HEAD` output.
pub fn diff_stat(output: GitOutput, args: &[String]) -> (r: Result<DiffStat>)
    ensures
        match r {
            Ok(d) => output.status == 0 && (d.insertions as nat, d.deletions as nat) == shortstat_fold(split(output.stdout@, ',')),
            Err(e) => git_ok_spec(output, args@.map_values(|w: String| w@)) == Err::<(), ErrorView>(e@),
        },
{
    let out = git_ok(output, args)?;
    Ok(parse_shortstat(out.stdout.as_str()))
}

/// The arguments of `git merge --abort`.
pub fn merge_abort_args() -> (r: Vec<String>)
    ensures
        r@.map_values(|w: String| w@) == seq!["merge"@, "--abort"@],
{
    let mut v: Vec<String> = Vec::new();
    v.push("merge".to_string());
    v.push("--abort".to_string());
    assert(v@.map_values(|w: String| w@) =~= seq!["merge"@, "--abort"@]);
    v
}

/// The outcome of aborting a merge: a failure is ignored, since there may be
/// no merge in progress.
pub fn merge_abort(output: GitOutput) -> (r: Result<()>)
    ensures
        r is Ok,
{
    let _ = output;
    Ok(())
}

/// Whether the merge-base check is needed: a branch is never reported merged
/// into itself or when it is `HEAD`.
pub open spec fn merge_check_needed(branch: Seq<char>, default_branch: Seq<char>) -> bool {
    branch != default_branch && branch != "HEAD"@
}

/// Returns true when `branch` counts as merged into `default_branch`, given
/// whether `git merge-base --is-ancestor` succeeded (consulted only when
/// [`merge_check_needed`] holds).
pub fn is_merged(branch: &str, default_branch: &str, is_ancestor: bool) -> (r: bool)
    ensures
        r == (merge_check_needed(branch@, default_branch@) && is_ancestor),
{
    if str_eq(branch, default_branch) || str_eq(branch, "HEAD") {
        return false;
    }
    is_ancestor
}

/// The first eight characters of a HEAD object id, or `????????`.
pub open spec fn short_head_spec(head: Option<Seq<char>>) -> Seq<char> {
    match head {
        Some(h) => if h.len() <= 8 { h } else { h.take(8) },
        None => "????????"@,
    }
}

/// Shortens a HEAD object id for status displays.
pub fn short_head(head: Option<&str>) -> (r: String)
    ensures
        r@ == short_head_spec(match head { Some(h) => Some(h@), None => None }),
{
    match head {
        Some(h) => {
            let v = chars_of(h);
            if v.len() <= 8 {
                string_of(&v)
            } else {
                string_of(&slice_of(&v, 0, 8))
            }
        },
        None => String::from_str("????????"),
    }
}

} // verus!
