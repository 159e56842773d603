//! Ticket, branch, path, and tmux-session naming rules.

use vstd::prelude::*;
use crate::error::{ErrorView, GatError, Result, result_view};
use crate::git::current_root;
use crate::output::hex_fixed;
use crate::text::{all_chars, chars_of, digit_to_char, ends_with, eq_lit, is_alnum, is_digit, push_char, push_chars, push_str, slice_of, starts_with, string_of, trim, trim_char, trim_char_chars, trim_chars, trim_end_char, trim_end_char_chars, trim_start_char};


verus! {

/// Characters kept verbatim in a path component.
pub open spec fn is_safe_char(c: char) -> bool {
    is_alnum(c) || c == '.' || c == '_' || c == '-'
}

fn safe_char(c: char) -> (r: bool)
    ensures
        r == is_safe_char(c),
{
    ('0' <= c && c <= '9') || ('a' <= c && c <= 'z') || ('A' <= c && c <= 'Z') || c == '.'
        || c == '_' || c == '-'
}

/// Left-to-right scan of [`sanitize_path_component`]: kept characters, with each
/// run of other characters collapsed into one `-`; the flag tells whether the
/// output currently ends in such a collapsed dash.
pub open spec fn sanitize_scan(s: Seq<char>) -> (Seq<char>, bool)
    decreases s.len(),
{
    if s.len() == 0 {
        (Seq::<char>::empty(), false)
    } else {
        let (o, prev_dash) = sanitize_scan(s.drop_last());
        let c = s.last();
        if is_safe_char(c) {
            (o.push(c), false)
        } else if !prev_dash {
            (o.push('-'), true)
        } else {
            (o, prev_dash)
        }
    }
}

/// A filesystem-safe path component for `s`.
pub open spec fn sanitized(s: Seq<char>) -> Seq<char> {
    let t = trim_char(sanitize_scan(s).0, '-');
    if t.len() == 0 {
        "worktree"@
    } else {
        t
    }
}

/// The scan emits only safe characters.
proof fn lemma_scan_safe(s: Seq<char>)
    ensures
        all_chars(sanitize_scan(s).0, |c: char| is_safe_char(c)),
    decreases s.len(),
{
    if s.len() > 0 {
        lemma_scan_safe(s.drop_last());
        let (o, p) = sanitize_scan(s.drop_last());
        assert(forall|i: int| 0 <= i < o.len() ==> is_safe_char(#[trigger] o[i]));
        let r = sanitize_scan(s).0;
        assert forall|i: int| 0 <= i < r.len() implies is_safe_char(#[trigger] r[i]) by {
            if i < o.len() {
                assert(r[i] == o[i]);
            }
        }
    }
}

/// Trimming a character from both ends keeps every remaining character.
proof fn lemma_trim_char_sub(s: Seq<char>, c: char)
    ensures
        forall|i: int| 0 <= i < trim_char(s, c).len() ==> exists|j: int| 0 <= j < s.len() && s[j] == #[trigger] trim_char(s, c)[i],
        trim_char(s, c).len() > 0 ==> trim_char(s, c)[0] != c && trim_char(s, c).last() != c,
{
    lemma_trim_start_char_sub(s, c);
    lemma_trim_end_char_sub(trim_start_char(s, c), c);
}

proof fn lemma_trim_start_char_sub(s: Seq<char>, c: char)
    ensures
        exists|k: int| 0 <= k <= s.len() && trim_start_char(s, c) == #[trigger] s.subrange(k, s.len() as int),
        trim_start_char(s, c).len() > 0 ==> trim_start_char(s, c)[0] != c,
    decreases s.len(),
{
    if s.len() > 0 && s[0] == c {
        lemma_trim_start_char_sub(s.drop_first(), c);
        let k = choose|k: int| 0 <= k <= s.drop_first().len() && trim_start_char(s.drop_first(), c) == #[trigger] s.drop_first().subrange(k, s.drop_first().len() as int);
        assert(s.drop_first().subrange(k, s.drop_first().len() as int) == s.subrange(k + 1, s.len() as int));
    } else {
        assert(s.subrange(0, s.len() as int) == s);
    }
}

proof fn lemma_trim_end_char_sub(s: Seq<char>, c: char)
    ensures
        exists|k: int| 0 <= k <= s.len() && trim_end_char(s, c) == #[trigger] s.subrange(0, k),
        trim_end_char(s, c).len() > 0 ==> trim_end_char(s, c).last() != c,
        trim_end_char(s, c).len() > 0 && s.len() > 0 ==> trim_end_char(s, c)[0] == s[0],
        forall|i: int| 0 <= i < trim_end_char(s, c).len() ==> exists|j: int| 0 <= j < s.len() && s[j] == #[trigger] trim_end_char(s, c)[i],
    decreases s.len(),
{
    if s.len() > 0 && s.last() == c {
        lemma_trim_end_char_sub(s.drop_last(), c);
        let k = choose|k: int| 0 <= k <= s.drop_last().len() && trim_end_char(s.drop_last(), c) == #[trigger] s.drop_last().subrange(0, k);
        assert(s.drop_last().subrange(0, k) == s.subrange(0, k));
        let t = trim_end_char(s, c);
        assert forall|i: int| 0 <= i < t.len() implies exists|j: int| 0 <= j < s.len() && s[j] == #[trigger] t[i] by {
            assert(s[i] == t[i]);
        }
    } else {
        assert(s.subrange(0, s.len() as int) == s);
        let t = trim_end_char(s, c);
        assert forall|i: int| 0 <= i < t.len() implies exists|j: int| 0 <= j < s.len() && s[j] == #[trigger] t[i] by {
            assert(s[i] == t[i]);
        }
    }
}

/// Converts user text into a filesystem-safe path component.
///
/// Git branch names may contain slashes or other characters that are awkward
/// in a sibling directory name; only the path segment is sanitized. The result
/// is never empty, holds only ASCII letters, digits, `.`, `_`, and `-`, and
/// neither starts nor ends with `-`.
pub fn sanitize_path_component(value: &str) -> (r: String)
    ensures
        r@ == sanitized(value@),
        r@.len() > 0,
        all_chars(r@, |c: char| is_safe_char(c)),
        r@[0] != '-' && r@.last() != '-',
{
    let v = chars_of(value);
    let mut out: Vec<char> = Vec::new();
    let mut previous_dash = false;
    let mut i: usize = 0;
    while i < v.len()
        invariant
            i <= v.len(),
            v@ == value@,
            (out@, previous_dash) == sanitize_scan(v@.take(i as int)),
        decreases v.len() - i,
    {
        let ch = v[i];
        assert(v@.take(i + 1).drop_last() == v@.take(i as int));
        if safe_char(ch) {
            out.push(ch);
            previous_dash = false;
        } else if !previous_dash {
            out.push('-');
            previous_dash = true;
        }
        i += 1;
    }
    assert(v@.take(v.len() as int) == v@);
    let trimmed = trim_char_chars(&out, '-');
    proof {
        lemma_scan_safe(value@);
        lemma_trim_char_sub(out@, '-');
        let w = "worktree"@;
        reveal_strlit("worktree");
        assert(w.len() == 8);
        assert(all_chars(w, |c: char| is_safe_char(c))) by {
            assert forall|k: int| 0 <= k < w.len() implies is_safe_char(#[trigger] w[k]) by {
                reveal_strlit("worktree");
            }
        }
        let t = trim_char(out@, '-');
        assert forall|k: int| 0 <= k < t.len() implies is_safe_char(#[trigger] t[k]) by {
            let j = choose|j: int| 0 <= j < out@.len() && out@[j] == t[k];
            assert(is_safe_char(out@[j]));
        }
    }
    if trimmed.len() == 0 {
        String::from_str("worktree")
    } else {
        string_of(&trimmed)
    }
}

/// A target made only of ASCII digits.
pub open spec fn plain_number(s: Seq<char>) -> bool {
    s.len() > 0 && all_chars(s, |c: char| is_digit(c))
}

/// Returns true when a target is only ASCII digits.
pub fn is_plain_number(value: &str) -> (r: bool)
    ensures
        r == plain_number(value@),
{
    let v = chars_of(value);
    if v.len() == 0 {
        return false;
    }
    let mut i: usize = 0;
    while i < v.len()
        invariant
            i <= v.len(),
            v@ == value@,
            forall|k: int| 0 <= k < i ==> is_digit(#[trigger] v@[k]),
        decreases v.len() - i,
    {
        if !('0' <= v[i] && v[i] <= '9') {
            assert(!is_digit(v@[i as int]));
            assert(!all_chars(v@, |c: char| is_digit(c)));
            return false;
        }
        i += 1;
    }
    true
}

/// What prefix normalization yields for `value`: the trimmed value without
/// trailing hyphens, provided it is non-empty and made of safe characters.
pub open spec fn normalized_prefix(value: Seq<char>) -> core::result::Result<Seq<char>, ErrorView> {
    let p = trim_end_char(trim(value), '-');
    if p.len() == 0 {
        Err(GatError::Usage("--prefix requires at least one non-hyphen character"@))
    } else if !all_chars(p, |c: char| is_safe_char(c)) {
        Err(GatError::Usage("invalid prefix "@ + value + "; use letters, digits, dots, underscores, or hyphens"@))
    } else {
        Ok(p)
    }
}

/// Validates and normalizes a ticket prefix.
pub fn normalize_prefix(value: &str) -> (r: Result<String>)
    ensures
        result_view(r) == normalized_prefix(value@),
{
    let v = chars_of(value);
    let t = trim_chars(&v);
    let p = trim_end_char_chars(&t, '-');
    if p.len() == 0 {
        return Err(GatError::Usage(String::from_str("--prefix requires at least one non-hyphen character")));
    }
    let mut i: usize = 0;
    while i < p.len()
        invariant
            i <= p.len(),
            p@ == trim_end_char(trim(value@), '-'),
            forall|k: int| 0 <= k < i ==> is_safe_char(#[trigger] p@[k]),
        decreases p.len() - i,
    {
        if !safe_char(p[i]) {
            assert(!is_safe_char(p@[i as int]));
            assert(!all_chars(p@, |c: char| is_safe_char(c)));
            let mut m = String::new();
            push_str(&mut m, "invalid prefix ");
            push_str(&mut m, value);
            push_str(&mut m, "; use letters, digits, dots, underscores, or hyphens");
            return Err(GatError::Usage(m));
        }
        i += 1;
    }
    Ok(string_of(&p))
}

/// The ticket name for a user target: plain numbers get `<prefix>-`, where the
/// prefix is the override, else the configured one, else `TICKET`; everything
/// else is kept as given.
pub open spec fn normalized_target(
    raw: Seq<char>,
    prefix_override: Option<Seq<char>>,
    configured_prefix: Option<Seq<char>>,
    no_prefix: bool,
) -> core::result::Result<Seq<char>, ErrorView> {
    if no_prefix || !plain_number(raw) {
        Ok(raw)
    } else {
        let prefix = match prefix_override {
            Some(p) => p,
            None => match configured_prefix {
                Some(p) => p,
                None => "TICKET"@,
            },
        };
        match normalized_prefix(prefix) {
            Ok(p) => Ok(p + "-"@ + raw),
            Err(e) => Err(e),
        }
    }
}

/// The configured prefix: the repository's `gat.ticketPrefix` setting, else
/// the session's `GAT_TICKET_PREFIX` value.
pub open spec fn prefix_setting_spec(git_prefix: Option<Seq<char>>, env_prefix: Option<Seq<char>>) -> Option<Seq<char>> {
    match git_prefix {
        Some(p) => Some(p),
        None => env_prefix,
    }
}

/// Picks the configured ticket prefix from its two sources: the repository's
/// `gat.ticketPrefix` wins over the session's `GAT_TICKET_PREFIX`. The result
/// is what [`normalize_target`] takes as `configured_prefix`, so an explicit
/// `--prefix` still wins over both, and `TICKET` applies when neither is set.
pub fn prefix_setting(git_prefix: Option<&str>, env_prefix: Option<&str>) -> (r: Option<String>)
    ensures
        match r {
            Some(p) => prefix_setting_spec(
                match git_prefix { Some(g) => Some(g@), None => None },
                match env_prefix { Some(e) => Some(e@), None => None },
            ) == Some(p@),
            None => git_prefix is None && env_prefix is None,
        },
{
    match git_prefix {
        Some(g) => Some(string_of(&chars_of(g))),
        None => match env_prefix {
            Some(e) => Some(string_of(&chars_of(e))),
            None => None,
        },
    }
}

/// Whether normalizing `raw` consults the configured (`gat.ticketPrefix`) prefix.
pub open spec fn consults_configured_prefix(raw: Seq<char>, prefix_override: Option<Seq<char>>, no_prefix: bool) -> bool {
    !no_prefix && plain_number(raw) && prefix_override is None
}

/// Normalizes user ticket input into the branch/worktree ticket name.
///
/// `configured_prefix` is the repository's `gat.ticketPrefix` value; it is
/// only consulted when [`consults_configured_prefix`] holds.
pub fn normalize_target(
    raw: &str,
    prefix_override: Option<&str>,
    configured_prefix: Option<&str>,
    no_prefix: bool,
) -> (r: Result<String>)
    ensures
        result_view(r) == normalized_target(
            raw@,
            match prefix_override { Some(p) => Some(p@), None => None },
            match configured_prefix { Some(p) => Some(p@), None => None },
            no_prefix,
        ),
        // A plain number always gains a `-` separated prefix; anything else is kept.
        (no_prefix || !plain_number(raw@)) ==> (r matches Ok(t) && t@ == raw@),
        r matches Ok(t) ==> (!no_prefix && plain_number(raw@) ==> ends_with(t@, "-"@ + raw@)),
{
    if no_prefix || !is_plain_number(raw) {
        return Ok(string_of(&chars_of(raw)));
    }
    let prefix = match prefix_override {
        Some(p) => p,
        None => match configured_prefix {
            Some(p) => p,
            None => "TICKET",
        },
    };
    let p = normalize_prefix(prefix)?;
    let mut out = String::new();
    push_str(&mut out, p.as_str());
    push_str(&mut out, "-");
    push_str(&mut out, raw);
    proof {
        let t = p@ + "-"@ + raw@;
        assert(t.subrange(t.len() - ("-"@ + raw@).len(), t.len() as int) =~= "-"@ + raw@);
    }
    Ok(out)
}

/// Maximum number of description characters folded into a tmux session name.
pub const SESSION_DESC_MAX: usize = 100;

/// The stable session-name prefix for a ticket: `gat-<ticket>`.
pub open spec fn session_prefix_spec(ticket: Seq<char>) -> Seq<char> {
    "gat-"@ + sanitized(ticket)
}

/// Returns the stable session-name prefix for a ticket: `gat-<ticket>`.
pub fn session_prefix(ticket: &str) -> (r: String)
    ensures
        r@ == session_prefix_spec(ticket@),
{
    let mut out = String::from_str("gat-");
    let s = sanitize_path_component(ticket);
    push_str(&mut out, s.as_str());
    out
}

/// The tmux session name for a ticket and optional description.
pub open spec fn session_name_spec(ticket: Seq<char>, description: Option<Seq<char>>) -> Seq<char> {
    let prefix = session_prefix_spec(ticket);
    match description {
        Some(desc) if trim(desc).len() > 0 => {
            let truncated = if trim(desc).len() <= SESSION_DESC_MAX { trim(desc) } else { trim(desc).take(SESSION_DESC_MAX as int) };
            let suffix = sanitized(truncated);
            if suffix.len() == 0 || suffix == "worktree"@ {
                prefix
            } else {
                prefix + "-"@ + suffix
            }
        },
        _ => prefix,
    }
}

/// Builds a tmux session name from a ticket and optional description.
///
/// tmux treats `.` and `:` specially and dislikes spaces, so the description is
/// sanitized, truncated to [`SESSION_DESC_MAX`] characters, and appended to the
/// `gat-<ticket>` prefix. The name always starts with that prefix.
pub fn session_name(ticket: &str, description: Option<&str>) -> (r: String)
    ensures
        r@ == session_name_spec(ticket@, match description { Some(d) => Some(d@), None => None }),
        starts_with(r@, session_prefix_spec(ticket@)),
{
    let prefix = session_prefix(ticket);
    proof {
        assert(prefix@.subrange(0, prefix@.len() as int) == prefix@);
    }
    match description {
        Some(desc) => {
            let d = chars_of(desc);
            let t = trim_chars(&d);
            if t.len() == 0 {
                return prefix;
            }
            let truncated = if t.len() <= SESSION_DESC_MAX {
                slice_of(&t, 0, t.len())
            } else {
                slice_of(&t, 0, SESSION_DESC_MAX)
            };
            assert(t@.subrange(0, t.len() as int) == t@);
            let tstr = string_of(&truncated);
            let suffix = sanitize_path_component(tstr.as_str());
            let sv = chars_of(suffix.as_str());
            if sv.len() == 0 || eq_lit(&sv, "worktree") {
                prefix
            } else {
                let mut out = prefix;
                let ghost p0 = out@;
                push_str(&mut out, "-");
                push_str(&mut out, suffix.as_str());
                assert(out@.subrange(0, p0.len() as int) =~= p0);
                out
            }
        },
        None => prefix,
    }
}

/// `name` joined under the directory `base`, as `PathBuf::push` joins a
/// relative component (an absolute `name` replaces `base`).
pub open spec fn join_path(base: Seq<char>, name: Seq<char>) -> Seq<char> {
    if name.len() > 0 && name[0] == '/' {
        name
    } else if base.len() > 0 && base.last() != '/' {
        base + "/"@ + name
    } else {
        base + name
    }
}

/// Joins a path component under a directory (`Path::join`).
pub fn join(base: &str, name: &str) -> (r: String)
    ensures
        r@ == join_path(base@, name@),
{
    let b = chars_of(base);
    let n = chars_of(name);
    if n.len() > 0 && n[0] == '/' {
        return string_of(&n);
    }
    let mut out = string_of(&b);
    if b.len() > 0 && b[b.len() - 1] != '/' {
        push_str(&mut out, "/");
    }
    push_chars(&mut out, &n);
    out
}

/// Repository context discovered from the current process directory.
///
/// `current_root` may be a linked worktree. `primary_root` is the first entry
/// from `git worktree list`, which Git reports as the main worktree.
#[derive(Clone, Debug)]
pub struct Repo {
    /// Root of the worktree the command is currently running inside.
    pub current_root: String,
    /// Root of the primary worktree for the repository.
    pub primary_root: String,
    /// Basename of the primary worktree, used in default path templates.
    pub repo_name: String,
    /// Parent directory of the primary worktree.
    pub repo_parent: String,
}

/// The default sibling worktree path for a ticket.
pub open spec fn default_worktree_path_spec(repo_parent: Seq<char>, repo_name: Seq<char>, ticket: Seq<char>) -> Seq<char> {
    join_path(repo_parent, repo_name + "-"@ + sanitized(ticket))
}

/// Computes the default sibling worktree path.
///
/// Example: `/repos/data-processing` + `TICKET-12345` becomes
/// `/repos/data-processing-TICKET-12345`.
pub fn default_worktree_path(repo: &Repo, ticket: &str) -> (r: String)
    ensures
        r@ == default_worktree_path_spec(repo.repo_parent@, repo.repo_name@, ticket@),
{
    let mut name = string_of(&chars_of(repo.repo_name.as_str()));
    push_str(&mut name, "-");
    let s = sanitize_path_component(ticket);
    push_str(&mut name, s.as_str());
    join(repo.repo_parent.as_str(), name.as_str())
}

/// The 64-bit FNV-1a hash of a byte sequence.
pub open spec fn fnv1a(bytes: Seq<u8>) -> u64
    decreases bytes.len(),
{
    if bytes.len() == 0 {
        0xcbf29ce484222325u64
    } else {
        let h = fnv1a(bytes.drop_last()) ^ (bytes.last() as u64);
        ((h as nat * 0x100000001b3nat) % 0x1_0000_0000_0000_0000nat) as u64
    }
}

/// Produces a stable short hash for namespacing config by repository path:
/// the FNV-1a hash of the UTF-8 bytes, as 16 lowercase hex digits.
pub fn stable_hex_hash(value: &str) -> (r: String)
    ensures
        r@ == hex_fixed(fnv1a(vstd::utf8::encode_utf8(value@)) as nat, 16),
{
    let bytes = value.as_bytes();
    let mut hash: u64 = 0xcbf29ce484222325u64;
    let mut i: usize = 0;
    while i < bytes.len()
        invariant
            i <= bytes.len(),
            bytes@ == vstd::utf8::encode_utf8(value@),
            hash == fnv1a(bytes@.take(i as int)),
        decreases bytes.len() - i,
    {
        assert(bytes@.take(i + 1).drop_last() == bytes@.take(i as int));
        let h = hash ^ (bytes[i] as u64);
        let m: u128 = (h as u128) * 0x100000001b3u128;
        hash = (m % 0x1_0000_0000_0000_0000u128) as u64;
        i += 1;
    }
    assert(bytes@.take(bytes.len() as int) == bytes@);
    let mut out = String::new();
    push_hex64(&mut out, hash, 16);
    out
}

fn push_hex64(out: &mut String, n: u64, width: u32)
    ensures
        final(out)@ == old(out)@ + hex_fixed(n as nat, width as nat),
    decreases width,
{
    if width > 0 {
        push_hex64(out, n / 16, width - 1);
        let d = n % 16;
        let c = if d < 10 {
            digit_to_char(d)
        } else if d == 10 { 'a' } else if d == 11 { 'b' } else if d == 12 { 'c' }
        else if d == 13 { 'd' } else if d == 14 { 'e' } else { 'f' };
        push_char(out, c);
    }
}

} // verus!
