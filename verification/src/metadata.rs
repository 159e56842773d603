//! Worktree metadata tracking: creation and access times and descriptions.
//!
//! The store holds one entry per worktree path. Reading and writing the JSON
//! file is left to the caller; this module owns the rules.

use vstd::prelude::*;
use crate::text::{chars_of, str_eq, string_of, trim, trim_chars};

verus! {

/// Metadata for a single worktree.
#[derive(Clone, Debug)]
pub struct WorktreeMetadata<S = String> {
    /// When the worktree was created (Unix timestamp).
    pub created_at: u64,
    /// When the worktree was last accessed by gat (Unix timestamp).
    pub last_accessed_at: u64,
    /// Worktree path.
    pub path: S,
    /// Branch name.
    pub branch: S,
    /// Optional free-form description of what the worktree is for (empty when
    /// unset).
    pub description: S,
}

/// The specification-level metadata entry.
pub type MetaView = WorktreeMetadata<Seq<char>>;

impl View for WorktreeMetadata<String> {
    type V = WorktreeMetadata<Seq<char>>;

    open spec fn view(&self) -> WorktreeMetadata<Seq<char>> {
        WorktreeMetadata {
            created_at: self.created_at,
            last_accessed_at: self.last_accessed_at,
            path: self.path@,
            branch: self.branch@,
            description: self.description@,
        }
    }
}

/// Metadata store for all worktrees: one entry per path.
#[derive(Clone, Debug)]
pub struct MetadataStore {
    /// Entries, at most one per worktree path.
    pub worktrees: Vec<WorktreeMetadata>,
}

/// Entries taken by their views.
pub open spec fn metas_view(v: Seq<WorktreeMetadata>) -> Seq<MetaView> {
    v.map_values(|m: WorktreeMetadata| m@)
}

/// No two entries share a path.
pub open spec fn unique_paths(s: Seq<MetaView>) -> bool {
    forall|i: int, j: int| 0 <= i < s.len() && 0 <= j < s.len() && i != j ==> #[trigger] s[i].path != #[trigger] s[j].path
}

/// Index of the entry for `path`.
pub open spec fn meta_index(s: Seq<MetaView>, path: Seq<char>) -> Option<int>
    decreases s.len(),
{
    if s.len() == 0 {
        None
    } else if s.last().path == path {
        Some(s.len() - 1)
    } else {
        meta_index(s.drop_last(), path)
    }
}

/// The entry for `path`, if any.
pub open spec fn meta_get(s: Seq<MetaView>, path: Seq<char>) -> Option<MetaView> {
    match meta_index(s, path) {
        Some(i) => Some(s[i]),
        None => None,
    }
}

proof fn lemma_meta_index(s: Seq<MetaView>, path: Seq<char>)
    ensures
        match meta_index(s, path) {
            Some(i) => 0 <= i < s.len() && s[i].path == path,
            None => forall|k: int| 0 <= k < s.len() ==> #[trigger] s[k].path != path,
        },
    decreases s.len(),
{
    if s.len() > 0 && s.last().path != path {
        lemma_meta_index(s.drop_last(), path);
        let u = s.drop_last();
        match meta_index(u, path) {
            Some(i) => {},
            None => {
                assert forall|k: int| 0 <= k < s.len() implies #[trigger] s[k].path != path by {
                    if k < s.len() - 1 {
                        assert(s[k] == u[k]);
                    }
                }
            },
        }
    }
}

proof fn lemma_meta_index_of(s: Seq<MetaView>, k: int)
    requires
        unique_paths(s),
        0 <= k < s.len(),
    ensures
        meta_index(s, s[k].path) == Some(k),
{
    lemma_meta_index(s, s[k].path);
}

impl View for MetadataStore {
    type V = Seq<MetaView>;

    open spec fn view(&self) -> Seq<MetaView> {
        metas_view(self.worktrees@)
    }
}

/// The entries after recording a creation at time `now`: a fresh entry for
/// `path` that keeps an existing description.
pub open spec fn track_creation_spec(s: Seq<MetaView>, path: Seq<char>, branch: Seq<char>, now: u64) -> Seq<MetaView> {
    let description = match meta_get(s, path) {
        Some(m) => m.description,
        None => Seq::<char>::empty(),
    };
    let entry = WorktreeMetadata { created_at: now, last_accessed_at: now, path: path, branch: branch, description: description };
    put_entry(s, entry)
}

/// `entry` stored under its path, replacing the existing entry in place or
/// appending a new one.
pub open spec fn put_entry(s: Seq<MetaView>, entry: MetaView) -> Seq<MetaView> {
    match meta_index(s, entry.path) {
        Some(i) => s.update(i, entry),
        None => s.push(entry),
    }
}

/// The entries after setting (or, with an empty text, clearing) a
/// description at time `now`; a missing entry is created first.
pub open spec fn set_description_spec(s: Seq<MetaView>, path: Seq<char>, branch: Seq<char>, description: Seq<char>, now: u64) -> Seq<MetaView> {
    match meta_get(s, path) {
        Some(m) => put_entry(s, WorktreeMetadata { description: trim(description), ..m }),
        None => put_entry(s, WorktreeMetadata { created_at: now, last_accessed_at: now, path: path, branch: branch, description: trim(description) }),
    }
}

/// The entries after recording an access at time `now`.
pub open spec fn track_access_spec(s: Seq<MetaView>, path: Seq<char>, now: u64) -> Seq<MetaView> {
    match meta_get(s, path) {
        Some(m) => put_entry(s, WorktreeMetadata { last_accessed_at: now, ..m }),
        None => s,
    }
}

/// The entries whose path satisfies `keep`, in order.
pub open spec fn keep_paths(s: Seq<MetaView>, live: Seq<Seq<char>>) -> Seq<MetaView>
    decreases s.len(),
{
    if s.len() == 0 {
        s
    } else if live.contains(s.last().path) {
        keep_paths(s.drop_last(), live).push(s.last())
    } else {
        keep_paths(s.drop_last(), live)
    }
}

/// The description for a path, if a non-empty one is set.
pub open spec fn description_spec(s: Seq<MetaView>, path: Seq<char>) -> Option<Seq<char>> {
    match meta_get(s, path) {
        Some(m) => if m.description.len() > 0 { Some(m.description) } else { None },
        None => None,
    }
}

/// The staleness threshold: `days` before `now`, saturating at zero.
pub open spec fn stale_threshold(days: u64, now: u64) -> nat {
    let window = if days * 86400 > u64::MAX { u64::MAX as nat } else { (days * 86400) as nat };
    if window > now { 0 } else { (now - window) as nat }
}

/// The entries last accessed before the threshold, in order.
pub open spec fn stale_spec(s: Seq<MetaView>, threshold: nat) -> Seq<MetaView>
    decreases s.len(),
{
    if s.len() == 0 {
        s
    } else if (s.last().last_accessed_at as nat) < threshold {
        stale_spec(s.drop_last(), threshold).push(s.last())
    } else {
        stale_spec(s.drop_last(), threshold)
    }
}

/// Whole days between a timestamp and `now` (zero when in the future).
pub open spec fn days_between(then: u64, now: u64) -> u64 {
    if then > now { 0 } else { ((now - then) / 86400) as u64 }
}

/// Days since last access: from the tracked entry, else from the filesystem
/// modification time.
pub open spec fn days_since_access_spec(s: Seq<MetaView>, path: Seq<char>, now: u64, mtime: Option<u64>) -> Option<u64> {
    match meta_get(s, path) {
        Some(m) => Some(days_between(m.last_accessed_at, now)),
        None => match mtime {
            Some(t) => Some(days_between(t, now)),
            None => None,
        },
    }
}

/// The current Unix time in seconds, from `SystemTime::now` (zero if the
/// clock reads before the epoch). Nothing is claimed of the value: it
/// depends on the clock.
#[verifier::external_body]
fn current_timestamp() -> (r: u64) {
    std::time::SystemTime::now().duration_since(std::time::UNIX_EPOCH).map(|d| d.as_secs()).unwrap_or(0)
}

fn owned(s: &str) -> (r: String)
    ensures
        r@ == s@,
{
    string_of(&chars_of(s))
}

proof fn lemma_put_unique(s: Seq<MetaView>, entry: MetaView)
    requires
        unique_paths(s),
    ensures
        unique_paths(put_entry(s, entry)),
        meta_get(put_entry(s, entry), entry.path) == Some(entry),
        forall|p: Seq<char>| p != entry.path ==> meta_get(put_entry(s, entry), p) == #[trigger] meta_get(s, p),
{
    lemma_meta_index(s, entry.path);
    let r = put_entry(s, entry);
    match meta_index(s, entry.path) {
        Some(i) => {
            assert forall|a: int, b: int| 0 <= a < r.len() && 0 <= b < r.len() && a != b implies #[trigger] r[a].path != #[trigger] r[b].path by {
                if a != i && b != i {
                    assert(r[a] == s[a] && r[b] == s[b]);
                } else if a == i {
                    assert(r[b] == s[b]);
                } else {
                    assert(r[a] == s[a]);
                }
            }
        },
        None => {
            assert forall|a: int, b: int| 0 <= a < r.len() && 0 <= b < r.len() && a != b implies #[trigger] r[a].path != #[trigger] r[b].path by {
                if a < s.len() && b < s.len() {
                    assert(r[a] == s[a] && r[b] == s[b]);
                } else if a < s.len() {
                    assert(r[a] == s[a]);
                } else {
                    assert(r[b] == s[b]);
                }
            }
        },
    }
    let j = match meta_index(s, entry.path) {
        Some(j) => j,
        None => s.len() as int,
    };
    assert(r[j] == entry);
    lemma_meta_index_of(r, j);
    assert forall|p: Seq<char>| p != entry.path implies meta_get(r, p) == #[trigger] meta_get(s, p) by {
        lemma_meta_index(r, p);
        lemma_meta_index(s, p);
        match meta_index(s, p) {
            Some(k) => {
                assert(r[k] == s[k]) by {
                    match meta_index(s, entry.path) {
                        Some(j) => { assert(k != j); },
                        None => {},
                    }
                }
                lemma_meta_index_of(r, k);
            },
            None => {
                match meta_index(r, p) {
                    Some(k) => {
                        match meta_index(s, entry.path) {
                            Some(j) => { assert(k != j); assert(r[k] == s[k]); },
                            None => { if k < s.len() { assert(r[k] == s[k]); } },
                        }
                    },
                    None => {},
                }
            },
        }
    }
}

impl MetadataStore {
    /// Well-formedness: at most one entry per path.
    pub open spec fn wf(&self) -> bool {
        unique_paths(self@)
    }

    /// An empty store.
    pub fn new() -> (r: Self)
        ensures
            r@ == Seq::<MetaView>::empty(),
            r.wf(),
    {
        let r = MetadataStore { worktrees: Vec::new() };
        assert(r@ =~= Seq::<MetaView>::empty());
        r
    }

    /// Number of tracked worktrees.
    pub fn len(&self) -> (r: usize)
        ensures
            r == self@.len(),
    {
        self.worktrees.len()
    }

    fn index_of(&self, path: &str) -> (r: Option<usize>)
        ensures
            match meta_index(self@, path@) {
                Some(i) => r == Some(i as usize),
                None => r is None,
            },
            r matches Some(i) ==> i < self.worktrees.len(),
    {
        let ghost s = self@;
        proof { lemma_meta_index(s, path@); }
        assert(s.take(s.len() as int) =~= s);
        let mut i = self.worktrees.len();
        while i > 0
            invariant
                i <= self.worktrees.len(),
                s == self@,
                s.len() == self.worktrees.len(),
                meta_index(s, path@) == meta_index(s.take(i as int), path@),
            decreases i,
        {
            let ghost t = s.take(i as int);
            assert(t.drop_last() =~= s.take(i - 1));
            assert(t.last() == s[i - 1]);
            assert(s[i - 1] == self.worktrees@[i - 1]@);
            if str_eq(self.worktrees[i - 1].path.as_str(), path) {
                assert(t.last().path == path@);
                assert(meta_index(t, path@) == Some(i - 1));
                return Some(i - 1);
            }
            assert(t.last().path != path@);
            assert(meta_index(t, path@) == meta_index(s.take(i - 1), path@));
            i -= 1;
        }
        None
    }

    /// Whether a worktree path is tracked.
    pub fn contains(&self, path: &str) -> (r: bool)
        ensures
            r == (meta_get(self@, path@) is Some),
    {
        self.index_of(path).is_some()
    }

    /// The entry for a worktree path, if tracked.
    pub fn get(&self, path: &str) -> (r: Option<&WorktreeMetadata>)
        ensures
            match meta_get(self@, path@) {
                Some(m) => r is Some && r->0@ == m,
                None => r is None,
            },
    {
        proof { lemma_meta_index(self@, path@); }
        match self.index_of(path) {
            Some(i) => {
                assert(self@[i as int] == self.worktrees@[i as int]@);
                Some(&self.worktrees[i])
            },
            None => None,
        }
    }

    /// Stores an entry under its path, replacing any entry for that path.
    pub fn insert(&mut self, entry: WorktreeMetadata)
        requires
            old(self).wf(),
        ensures
            final(self).wf(),
            final(self)@ == put_entry(old(self)@, entry@),
    {
        proof {
            lemma_put_unique(self@, entry@);
            lemma_meta_index(self@, entry@.path);
        }
        match self.index_of(entry.path.as_str()) {
            Some(i) => {
                let ghost s = self@;
                let ghost ev = entry@;
                self.worktrees.set(i, entry);
                assert(self@ =~= s.update(i as int, ev));
            },
            None => {
                self.worktrees.push(entry);
                assert(self@ =~= put_entry(old(self)@, entry@));
            },
        }
    }

    /// Records that a worktree was created at time `now`, keeping any
    /// existing description so re-tracking never discards a label.
    pub fn track_creation_at(&mut self, path: &str, branch: &str, now: u64)
        requires
            old(self).wf(),
        ensures
            final(self).wf(),
            final(self)@ == track_creation_spec(old(self)@, path@, branch@, now),
    {
        let description = match self.get(path) {
            Some(m) => owned(m.description.as_str()),
            None => String::new(),
        };
        self.insert(WorktreeMetadata {
            created_at: now,
            last_accessed_at: now,
            path: owned(path),
            branch: owned(branch),
            description,
        });
    }

    /// Records that a worktree was created, at the current time.
    pub fn track_creation(&mut self, path: &str, branch: &str)
        requires
            old(self).wf(),
        ensures
            final(self).wf(),
            exists|now: u64| final(self)@ == track_creation_spec(old(self)@, path@, branch@, now),
    {
        let now = current_timestamp();
        self.track_creation_at(path, branch, now);
    }

    /// Sets (or, with an empty text, clears) the trimmed description for a
    /// worktree at time `now`, creating its entry if none exists.
    pub fn set_description_at(&mut self, path: &str, branch: &str, description: &str, now: u64)
        requires
            old(self).wf(),
        ensures
            final(self).wf(),
            final(self)@ == set_description_spec(old(self)@, path@, branch@, description@, now),
    {
        let d = string_of(&trim_chars(&chars_of(description)));
        let entry = match self.get(path) {
            Some(m) => WorktreeMetadata {
                created_at: m.created_at,
                last_accessed_at: m.last_accessed_at,
                path: owned(m.path.as_str()),
                branch: owned(m.branch.as_str()),
                description: d,
            },
            None => WorktreeMetadata {
                created_at: now,
                last_accessed_at: now,
                path: owned(path),
                branch: owned(branch),
                description: d,
            },
        };
        proof {
            lemma_meta_index(self@, path@);
        }
        self.insert(entry);
    }

    /// Sets (or clears) the description for a worktree, at the current time.
    pub fn set_description(&mut self, path: &str, branch: &str, description: &str)
        requires
            old(self).wf(),
        ensures
            final(self).wf(),
            exists|now: u64| final(self)@ == set_description_spec(old(self)@, path@, branch@, description@, now),
            description_spec(final(self)@, path@) == (if trim(description@).len() > 0 { Some(trim(description@)) } else { None }),
    {
        let now = current_timestamp();
        self.set_description_at(path, branch, description, now);
        proof { lemma_set_then_describe(old(self)@, path@, branch@, description@, now); }
    }

    /// The description for a worktree, if a non-empty one is set.
    pub fn description(&self, path: &str) -> (r: Option<&str>)
        ensures
            match r { Some(d) => Some(d@), None => None } == description_spec(self@, path@),
    {
        match self.get(path) {
            Some(m) => {
                if chars_of(m.description.as_str()).len() > 0 {
                    Some(m.description.as_str())
                } else {
                    None
                }
            },
            None => None,
        }
    }

    /// Records an access at time `now` for a tracked worktree.
    pub fn track_access_at(&mut self, path: &str, now: u64)
        requires
            old(self).wf(),
        ensures
            final(self).wf(),
            final(self)@ == track_access_spec(old(self)@, path@, now),
    {
        let entry = match self.get(path) {
            Some(m) => WorktreeMetadata {
                created_at: m.created_at,
                last_accessed_at: now,
                path: owned(m.path.as_str()),
                branch: owned(m.branch.as_str()),
                description: owned(m.description.as_str()),
            },
            None => { return; },
        };
        proof { lemma_meta_index(self@, path@); }
        self.insert(entry);
    }

    /// Records that a worktree was accessed, at the current time.
    pub fn track_access(&mut self, path: &str)
        requires
            old(self).wf(),
        ensures
            final(self).wf(),
            exists|now: u64| final(self)@ == track_access_spec(old(self)@, path@, now),
    {
        let now = current_timestamp();
        self.track_access_at(path, now);
    }

    /// Removes the metadata for a worktree.
    pub fn remove(&mut self, path: &str)
        requires
            old(self).wf(),
        ensures
            final(self).wf(),
            meta_get(final(self)@, path@) is None,
            forall|p: Seq<char>| p != path@ ==> meta_get(final(self)@, p) == #[trigger] meta_get(old(self)@, p),
            final(self)@ == (match meta_index(old(self)@, path@) { Some(i) => old(self)@.remove(i), None => old(self)@ }),
    {
        proof { lemma_meta_index(self@, path@); }
        match self.index_of(path) {
            Some(i) => {
                let ghost s = self@;
                self.worktrees.remove(i);
                assert(self@ =~= s.remove(i as int));
                proof { lemma_remove_entry(s, i as int); }
            },
            None => {},
        }
    }

    /// Drops entries whose path is not in `live_paths`, returning how many
    /// were removed. This bounds the store for worktrees Git no longer knows.
    pub fn prune_missing(&mut self, live_paths: &[String]) -> (r: usize)
        requires
            old(self).wf(),
        ensures
            final(self).wf(),
            final(self)@ == keep_paths(old(self)@, live_paths@.map_values(|p: String| p@)),
            r == old(self)@.len() - final(self)@.len(),
    {
        let ghost live = live_paths@.map_values(|p: String| p@);
        let ghost s = self@;
        let n = self.worktrees.len();
        let mut kept: Vec<WorktreeMetadata> = Vec::new();
        let mut rest: Vec<WorktreeMetadata> = Vec::new();
        std::mem::swap(&mut rest, &mut self.worktrees);
        let mut i: usize = 0;
        while i < n
            invariant
                i <= n,
                n == s.len(),
                rest.len() == n - i,
                metas_view(rest@) == s.skip(i as int),
                metas_view(kept@) == keep_paths(s.take(i as int), live),
                live == live_paths@.map_values(|p: String| p@),
                kept@.len() <= i,
            decreases n - i,
        {
            assert(s.take(i + 1).drop_last() == s.take(i as int));
            let ghost old_rest = rest@;
            assert(metas_view(old_rest)[0] == s[i as int]);
            let m = rest.remove(0);
            assert(metas_view(rest@) =~= metas_view(old_rest).drop_first());
            assert(s.skip(i as int).drop_first() =~= s.skip(i + 1));
            if contains_string(live_paths, m.path.as_str()) {
                let ghost before = metas_view(kept@);
                kept.push(m);
                assert(metas_view(kept@) =~= before.push(m@));
            }
            i += 1;
        }
        assert(s.take(n as int) == s);
        self.worktrees = kept;
        proof { lemma_keep_unique(s, live); }
        n - self.worktrees.len()
    }

    /// Entries not accessed since the threshold `days` before `now`.
    pub fn stale_worktrees_at(&self, days: u64, now: u64) -> (r: Vec<&WorktreeMetadata>)
        ensures
            r@.map_values(|m: &WorktreeMetadata| m@) == stale_spec(self@, stale_threshold(days, now)),
    {
        let window: u64 = if days > u64::MAX / 86400 { u64::MAX } else { days * 86400 };
        let threshold = now.saturating_sub(window);
        let ghost s = self@;
        let mut out: Vec<&WorktreeMetadata> = Vec::new();
        let mut i: usize = 0;
        while i < self.worktrees.len()
            invariant
                i <= self.worktrees.len(),
                s == self@,
                threshold as nat == stale_threshold(days, now),
                out@.map_values(|m: &WorktreeMetadata| m@) == stale_spec(s.take(i as int), threshold as nat),
            decreases self.worktrees.len() - i,
        {
            assert(s.take(i + 1).drop_last() == s.take(i as int));
            if self.worktrees[i].last_accessed_at < threshold {
                let ghost before = out@.map_values(|m: &WorktreeMetadata| m@);
                out.push(&self.worktrees[i]);
                assert(out@.map_values(|m: &WorktreeMetadata| m@) =~= before.push(s[i as int]));
            }
            i += 1;
        }
        assert(s.take(self.worktrees.len() as int) == s);
        out
    }

    /// Entries not accessed within the given number of days.
    pub fn stale_worktrees(&self, days: u64) -> (r: Vec<&WorktreeMetadata>)
        ensures
            exists|now: u64| r@.map_values(|m: &WorktreeMetadata| m@) == stale_spec(self@, stale_threshold(days, now)),
    {
        let now = current_timestamp();
        self.stale_worktrees_at(days, now)
    }

    /// Days since last access at time `now`, falling back to the filesystem
    /// modification time `mtime` for untracked worktrees.
    pub fn days_since_access_at(&self, path: &str, now: u64, mtime: Option<u64>) -> (r: Option<u64>)
        ensures
            r == days_since_access_spec(self@, path@, now, mtime),
    {
        match self.get(path) {
            Some(m) => Some(now.saturating_sub(m.last_accessed_at) / (24 * 60 * 60)),
            None => match mtime {
                Some(t) => Some(now.saturating_sub(t) / (24 * 60 * 60)),
                None => None,
            },
        }
    }

    /// Days since last access, at the current time.
    pub fn days_since_access(&self, path: &str, mtime: Option<u64>) -> (r: Option<u64>)
        ensures
            exists|now: u64| r == days_since_access_spec(self@, path@, now, mtime),
    {
        let now = current_timestamp();
        self.days_since_access_at(path, now, mtime)
    }
}

fn contains_string(v: &[String], s: &str) -> (r: bool)
    ensures
        r == v@.map_values(|p: String| p@).contains(s@),
{
    let ghost vv = v@.map_values(|p: String| p@);
    let mut i: usize = 0;
    while i < v.len()
        invariant
            i <= v.len(),
            vv == v@.map_values(|p: String| p@),
            forall|k: int| 0 <= k < i ==> vv[k] != s@,
        decreases v.len() - i,
    {
        assert(vv[i as int] == v@[i as int]@);
        if str_eq(v[i].as_str(), s) {
            return true;
        }
        i += 1;
    }
    false
}

proof fn lemma_remove_entry(s: Seq<MetaView>, i: int)
    requires
        unique_paths(s),
        0 <= i < s.len(),
    ensures
        unique_paths(s.remove(i)),
        meta_get(s.remove(i), s[i].path) is None,
        forall|p: Seq<char>| p != s[i].path ==> meta_get(s.remove(i), p) == #[trigger] meta_get(s, p),
{
    let r = s.remove(i);
    assert forall|a: int, b: int| 0 <= a < r.len() && 0 <= b < r.len() && a != b implies #[trigger] r[a].path != #[trigger] r[b].path by {
        let a2 = if a < i { a } else { a + 1 };
        let b2 = if b < i { b } else { b + 1 };
        assert(r[a] == s[a2] && r[b] == s[b2]);
    }
    lemma_meta_index(r, s[i].path);
    match meta_index(r, s[i].path) {
        Some(k) => {
            let k2 = if k < i { k } else { k + 1 };
            assert(r[k] == s[k2]);
        },
        None => {},
    }
    assert forall|p: Seq<char>| p != s[i].path implies meta_get(r, p) == #[trigger] meta_get(s, p) by {
        lemma_meta_index(r, p);
        lemma_meta_index(s, p);
        match meta_index(s, p) {
            Some(k) => {
                assert(k != i);
                let k2 = if k < i { k } else { k - 1 };
                assert(r[k2] == s[k]);
                lemma_meta_index_of(r, k2);
            },
            None => {
                match meta_index(r, p) {
                    Some(k) => {
                        let k2 = if k < i { k } else { k + 1 };
                        assert(r[k] == s[k2]);
                    },
                    None => {},
                }
            },
        }
    }
}

proof fn lemma_keep_unique(s: Seq<MetaView>, live: Seq<Seq<char>>)
    requires
        unique_paths(s),
    ensures
        unique_paths(keep_paths(s, live)),
        forall|k: int| 0 <= k < keep_paths(s, live).len() ==> s.contains(#[trigger] keep_paths(s, live)[k]),
    decreases s.len(),
{
    if s.len() > 0 {
        let u = s.drop_last();
        assert(unique_paths(u)) by {
            assert forall|a: int, b: int| 0 <= a < u.len() && 0 <= b < u.len() && a != b implies #[trigger] u[a].path != #[trigger] u[b].path by {
                assert(u[a] == s[a] && u[b] == s[b]);
            }
        }
        lemma_keep_unique(u, live);
        let k0 = keep_paths(u, live);
        assert forall|k: int| 0 <= k < k0.len() implies s.contains(#[trigger] k0[k]) by {
            let j = choose|j: int| 0 <= j < u.len() && u[j] == k0[k];
            assert(s[j] == u[j]);
        }
        if live.contains(s.last().path) {
            let r = k0.push(s.last());
            assert forall|a: int, b: int| 0 <= a < r.len() && 0 <= b < r.len() && a != b implies #[trigger] r[a].path != #[trigger] r[b].path by {
                if a < k0.len() && b < k0.len() {
                } else if a < k0.len() {
                    let j = choose|j: int| 0 <= j < u.len() && u[j] == k0[a];
                    assert(s[j] == u[j]);
                    assert(j != s.len() - 1);
                } else {
                    let j = choose|j: int| 0 <= j < u.len() && u[j] == k0[b];
                    assert(s[j] == u[j]);
                    assert(j != s.len() - 1);
                }
            }
            assert forall|k: int| 0 <= k < r.len() implies s.contains(#[trigger] r[k]) by {
                if k == r.len() - 1 {
                    assert(s[s.len() - 1] == r[k]);
                }
            }
        }
    }
}

/// Setting a description and reading it back yields the trimmed text, or
/// nothing when the trimmed text is empty.
pub proof fn lemma_set_then_describe(s: Seq<MetaView>, path: Seq<char>, branch: Seq<char>, description: Seq<char>, now: u64)
    requires
        unique_paths(s),
    ensures
        description_spec(set_description_spec(s, path, branch, description, now), path)
            == (if trim(description).len() > 0 { Some(trim(description)) } else { None }),
{
    lemma_meta_index(s, path);
    match meta_get(s, path) {
        Some(m) => {
            lemma_put_unique(s, WorktreeMetadata { description: trim(description), ..m });
        },
        None => {
            lemma_put_unique(s, WorktreeMetadata { created_at: now, last_accessed_at: now, path: path, branch: branch, description: trim(description) });
        },
    }
}

/// Re-tracking a worktree's creation never discards its description.
pub proof fn lemma_creation_keeps_description(s: Seq<MetaView>, path: Seq<char>, branch: Seq<char>, now: u64)
    requires
        unique_paths(s),
    ensures
        description_spec(track_creation_spec(s, path, branch, now), path) == description_spec(s, path),
        unique_paths(track_creation_spec(s, path, branch, now)),
{
    let description = match meta_get(s, path) {
        Some(m) => m.description,
        None => Seq::<char>::empty(),
    };
    lemma_put_unique(s, WorktreeMetadata { created_at: now, last_accessed_at: now, path: path, branch: branch, description: description });
}

proof fn lemma_meta_get_push(q: Seq<MetaView>, x: MetaView, p: Seq<char>)
    ensures
        meta_get(q.push(x), p) == (if x.path == p { Some(x) } else { meta_get(q, p) }),
{
    let r = q.push(x);
    assert(r.drop_last() =~= q);
    assert(r.last() == x);
    if x.path != p {
        lemma_meta_index(q, p);
        match meta_index(q, p) {
            Some(i) => { assert(r[i] == q[i]); },
            None => {},
        }
    }
}

proof fn lemma_meta_get_absent(q: Seq<MetaView>, p: Seq<char>)
    requires
        forall|k: int| 0 <= k < q.len() ==> #[trigger] q[k].path != p,
    ensures
        meta_get(q, p) is None,
{
    lemma_meta_index(q, p);
    match meta_index(q, p) {
        Some(i) => { assert(q[i].path == p); },
        None => {},
    }
}

/// Pruning keeps exactly the entries whose path is live.
pub proof fn lemma_prune_keeps_live(s: Seq<MetaView>, live: Seq<Seq<char>>, path: Seq<char>)
    requires
        unique_paths(s),
    ensures
        meta_get(keep_paths(s, live), path) == (if live.contains(path) { meta_get(s, path) } else { None }),
    decreases s.len(),
{
    if s.len() > 0 {
        let u = s.drop_last();
        let x = s.last();
        assert(s =~= u.push(x));
        assert(unique_paths(u)) by {
            assert forall|a: int, b: int| 0 <= a < u.len() && 0 <= b < u.len() && a != b implies #[trigger] u[a].path != #[trigger] u[b].path by {
                assert(u[a] == s[a] && u[b] == s[b]);
            }
        }
        lemma_prune_keeps_live(u, live, path);
        lemma_keep_unique(u, live);
        let k0 = keep_paths(u, live);
        lemma_meta_get_push(u, x, path);
        if x.path == path {
            assert forall|k: int| 0 <= k < k0.len() implies #[trigger] k0[k].path != path by {
                let j = choose|j: int| 0 <= j < u.len() && u[j] == k0[k];
                assert(s[j] == u[j]);
                assert(j != s.len() - 1);
            }
            lemma_meta_get_absent(k0, path);
        }
        if live.contains(x.path) {
            lemma_meta_get_push(k0, x, path);
        }
    } else {
        assert(keep_paths(s, live) == s);
    }
}

} // verus!
