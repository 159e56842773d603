//! Live gat-managed tmux sessions: parsing `tmux list-sessions` output and
//! rendering it.

use vstd::prelude::*;
use crate::naming::{session_name_spec, session_prefix_spec};
use crate::output::{OutputFormat, bool_string, bool_text, json_escape, json_escaped, option_json, option_json_spec, shell_escape, shell_escaped};
use crate::text::{chars_eq, chars_of, decimal, decimal_string, eq_lit, has_prefix, has_prefix_lit, lemma_seq_lt_asymmetric, lemma_seq_lt_total, lemma_seq_lt_transitive, lemma_split_nonempty, lines, lines_chars, pad_left, pad_right, parse_unsigned, parse_unsigned_chars, push_padded_left, push_padded_right, push_str, seq_lt, split, split_chars, starts_with, str_lt, string_of, trim, trim_chars};


verus! {

/// A live gat-managed tmux session and its recorded worktree metadata.
#[derive(Debug, Clone)]
pub struct GatSession<S = String> {
    /// tmux session name.
    pub name: S,
    /// Whether a client is currently attached.
    pub attached: bool,
    /// Number of windows in the session.
    pub windows: usize,
    /// Worktree branch recorded via the `@gat_branch` option, if any.
    pub branch: Option<S>,
    /// Worktree path recorded via the `@gat_path` option, if any.
    pub path: Option<S>,
    /// Worktree description recorded via the `@gat_description` option, if any.
    pub description: Option<S>,
}

/// The specification-level session value.
pub type SessionView = GatSession<Seq<char>>;

/// An optional string taken by its view.
pub open spec fn opt_view(o: Option<String>) -> Option<Seq<char>> {
    match o {
        Some(s) => Some(s@),
        None => None,
    }
}

impl View for GatSession<String> {
    type V = GatSession<Seq<char>>;

    open spec fn view(&self) -> GatSession<Seq<char>> {
        GatSession {
            name: self.name@,
            attached: self.attached,
            windows: self.windows,
            branch: opt_view(self.branch),
            path: opt_view(self.path),
            description: opt_view(self.description),
        }
    }
}

/// The trimmed field as `Some` unless it is missing or empty.
pub open spec fn non_empty_spec(value: Option<Seq<char>>) -> Option<Seq<char>> {
    match value {
        Some(v) => if trim(v).len() > 0 { Some(trim(v)) } else { None },
        None => None,
    }
}

/// Returns the trimmed value as `Some` unless it is missing or empty.
pub fn non_empty(value: Option<&str>) -> (r: Option<String>)
    ensures
        opt_view(r) == non_empty_spec(match value { Some(v) => Some(v@), None => None }),
{
    match value {
        Some(v) => {
            let t = trim_chars(&chars_of(v));
            if t.len() > 0 {
                Some(string_of(&t))
            } else {
                None
            }
        },
        None => None,
    }
}

/// Field `k` of a tab-separated line, if the line has that many fields.
pub open spec fn field(fields: Seq<Seq<char>>, k: int) -> Option<Seq<char>> {
    if k < fields.len() { Some(fields[k]) } else { None }
}

/// The session described by one `tmux list-sessions` line, or `None` when the
/// session is not gat-managed (its name does not start with `gat-`).
pub open spec fn session_line_spec(line: Seq<char>) -> Option<SessionView> {
    let f = split(line, '\t');
    let name = trim(f[0]);
    if !starts_with(name, "gat-"@) {
        None
    } else {
        Some(GatSession {
            name: name,
            attached: match field(f, 1) { Some(v) => trim(v) != "0"@, None => false },
            windows: match field(f, 2) {
                Some(v) => match parse_unsigned(trim(v), usize::MAX as nat) {
                    Some(n) => n as usize,
                    None => 0,
                },
                None => 0,
            },
            branch: non_empty_spec(field(f, 3)),
            path: non_empty_spec(field(f, 4)),
            description: non_empty_spec(field(f, 5)),
        })
    }
}

fn field_of(fields: &Vec<Vec<char>>, k: usize) -> (r: Option<String>)
    ensures
        opt_view(r) == field(fields@.map_values(|v: Vec<char>| v@), k as int),
{
    if k < fields.len() {
        Some(string_of(&fields[k]))
    } else {
        None
    }
}

/// Parses one tab-separated `tmux list-sessions` line into a [`GatSession`].
///
/// Returns `None` exactly for sessions that are not gat-managed.
pub fn parse_session_line(line: &str) -> (r: Option<GatSession>)
    ensures
        match r {
            Some(s) => session_line_spec(line@) == Some(s@),
            None => session_line_spec(line@) is None,
        },
        r is None <==> !starts_with(trim(split(line@, '\t')[0]), "gat-"@),
{
    let v = chars_of(line);
    let fields = split_chars(&v, '\t');
    let ghost f = split(line@, '\t');
    proof {
        lemma_split_nonempty(line@, '\t');
        assert(fields@.map_values(|v: Vec<char>| v@) =~= f);
    }
    let name = trim_chars(&fields[0]);
    if !has_prefix_lit(&name, "gat-") {
        return None;
    }
    let attached = match field_of(&fields, 1) {
        Some(v) => !eq_lit(&trim_chars(&chars_of(v.as_str())), "0"),
        None => false,
    };
    let windows: usize = match field_of(&fields, 2) {
        Some(v) => {
            let t = trim_chars(&chars_of(v.as_str()));
            match parse_unsigned_chars(&t, usize::MAX as u64) {
                Some(n) => n as usize,
                None => 0,
            }
        },
        None => 0,
    };
    let b = field_of(&fields, 3);
    let p = field_of(&fields, 4);
    let d = field_of(&fields, 5);
    let branch = non_empty(match &b { Some(x) => Some(x.as_str()), None => None });
    let path = non_empty(match &p { Some(x) => Some(x.as_str()), None => None });
    let description = non_empty(match &d { Some(x) => Some(x.as_str()), None => None });
    Some(GatSession { name: string_of(&name), attached, windows, branch, path, description })
}

/// The empty-session result for each output mode.
pub open spec fn empty_sessions_spec(format: OutputFormat) -> Seq<char> {
    match format {
        OutputFormat::Json => "[]\n"@,
        _ => "No gat tmux sessions.\n"@,
    }
}

/// Formats the empty-session result for each output mode.
pub fn empty_sessions_output(format: OutputFormat) -> (r: String)
    ensures
        r@ == empty_sessions_spec(format),
{
    match format {
        OutputFormat::Json => String::from_str("[]\n"),
        _ => String::from_str("No gat tmux sessions.\n"),
    }
}

/// The header line of the text session table.
pub open spec fn sessions_header() -> Seq<char> {
    "Session                              A  Win  Branch          Description / Path\n"@
}

/// One row of the text session table.
pub open spec fn session_text_row(s: SessionView) -> Seq<char> {
    let attached = if s.attached { "*"@ } else { " "@ };
    let branch = match s.branch { Some(b) => b, None => "-"@ };
    let info = match s.description {
        Some(d) => d,
        None => match s.path { Some(p) => p, None => "-"@ },
    };
    pad_right(s.name, 36) + " "@ + attached + " "@ + pad_left(decimal(s.windows as nat), 4) + "  "@
        + pad_right(branch, 15) + " "@ + info + "\n"@
}

/// One JSON object of the session list.
pub open spec fn session_json_entry(s: SessionView) -> Seq<char> {
    "{\"name\":\""@ + json_escaped(s.name) + "\",\"attached\":"@ + bool_text(s.attached)
        + ",\"windows\":"@ + decimal(s.windows as nat) + ",\"branch\":"@ + option_json_spec(s.branch)
        + ",\"path\":"@ + option_json_spec(s.path) + ",\"description\":"@
        + option_json_spec(s.description) + "}"@
}

/// One shell assignment of the session list.
pub open spec fn session_shell_line(s: SessionView) -> Seq<char> {
    "GAT_SESSION="@ + shell_escaped(s.name) + "\n"@
}

/// Concatenation of the text rows.
pub open spec fn sessions_text_rows(s: Seq<SessionView>) -> Seq<char>
    decreases s.len(),
{
    if s.len() == 0 { Seq::<char>::empty() } else { sessions_text_rows(s.drop_last()) + session_text_row(s.last()) }
}

/// JSON objects joined by commas.
pub open spec fn sessions_json_joined(s: Seq<SessionView>) -> Seq<char>
    decreases s.len(),
{
    if s.len() == 0 {
        Seq::<char>::empty()
    } else if s.len() == 1 {
        session_json_entry(s[0])
    } else {
        sessions_json_joined(s.drop_last()) + ","@ + session_json_entry(s.last())
    }
}

/// Concatenation of the shell lines.
pub open spec fn sessions_shell_lines(s: Seq<SessionView>) -> Seq<char>
    decreases s.len(),
{
    if s.len() == 0 { Seq::<char>::empty() } else { sessions_shell_lines(s.drop_last()) + session_shell_line(s.last()) }
}

/// The rendering of a session list in each output mode.
pub open spec fn format_sessions_spec(s: Seq<SessionView>, format: OutputFormat) -> Seq<char> {
    if s.len() == 0 {
        empty_sessions_spec(format)
    } else {
        match format {
            OutputFormat::Text => sessions_header() + sessions_text_rows(s),
            OutputFormat::Json => "["@ + sessions_json_joined(s) + "]\n"@,
            OutputFormat::Shell => sessions_shell_lines(s),
        }
    }
}

/// The sessions taken by their views.
pub open spec fn sessions_view(s: Seq<GatSession>) -> Seq<SessionView> {
    s.map_values(|x: GatSession| x@)
}

fn opt_str(v: &Option<String>) -> (r: Option<&str>)
    ensures
        match r { Some(x) => Some(x@), None => None } == opt_view(*v),
{
    match v {
        Some(x) => Some(x.as_str()),
        None => None,
    }
}

fn session_json(s: &GatSession) -> (r: String)
    ensures
        r@ == session_json_entry(s@),
{
    let mut out = String::new();
    push_str(&mut out, "{\"name\":\"");
    assert(out@ =~= "{\"name\":\""@);
    push_str(&mut out, json_escape(s.name.as_str()).as_str());
    push_str(&mut out, "\",\"attached\":");
    push_str(&mut out, bool_string(s.attached).as_str());
    push_str(&mut out, ",\"windows\":");
    push_str(&mut out, decimal_string(s.windows as u64).as_str());
    push_str(&mut out, ",\"branch\":");
    push_str(&mut out, option_json(opt_str(&s.branch)).as_str());
    push_str(&mut out, ",\"path\":");
    push_str(&mut out, option_json(opt_str(&s.path)).as_str());
    push_str(&mut out, ",\"description\":");
    push_str(&mut out, option_json(opt_str(&s.description)).as_str());
    push_str(&mut out, "}");
    out
}

fn session_row(s: &GatSession) -> (r: String)
    ensures
        r@ == session_text_row(s@),
{
    let mut out = String::new();
    push_padded_right(&mut out, s.name.as_str(), 36);
    assert(out@ =~= pad_right(s.name@, 36));
    push_str(&mut out, " ");
    push_str(&mut out, if s.attached { "*" } else { " " });
    push_str(&mut out, " ");
    push_padded_left(&mut out, decimal_string(s.windows as u64).as_str(), 4);
    push_str(&mut out, "  ");
    let branch: &str = match &s.branch { Some(b) => b.as_str(), None => "-" };
    push_padded_right(&mut out, branch, 15);
    push_str(&mut out, " ");
    let info: &str = match &s.description {
        Some(d) => d.as_str(),
        None => match &s.path { Some(p) => p.as_str(), None => "-" },
    };
    push_str(&mut out, info);
    push_str(&mut out, "\n");
    out
}

/// Formats live gat sessions for text, JSON, and shell modes.
pub fn format_sessions(sessions: &[GatSession], format: OutputFormat) -> (r: String)
    ensures
        r@ == format_sessions_spec(sessions@.map_values(|x: GatSession| x@), format),
{
    let ghost sv = sessions@.map_values(|x: GatSession| x@);
    if sessions.len() == 0 {
        return empty_sessions_output(format);
    }
    let mut out = String::new();
    match format {
        OutputFormat::Text => {
            push_str(&mut out, "Session                              A  Win  Branch          Description / Path\n");
            let mut i: usize = 0;
            while i < sessions.len()
                invariant
                    i <= sessions.len(),
                    sv == sessions@.map_values(|x: GatSession| x@),
                    out@ == sessions_header() + sessions_text_rows(sv.take(i as int)),
                decreases sessions.len() - i,
            {
                assert(sv.take(i + 1).drop_last() == sv.take(i as int));
                push_str(&mut out, session_row(&sessions[i]).as_str());
                assert(out@ =~= sessions_header() + sessions_text_rows(sv.take(i + 1)));
                i += 1;
            }
            assert(sv.take(sessions.len() as int) == sv);
        },
        OutputFormat::Json => {
            push_str(&mut out, "[");
            let mut i: usize = 0;
            while i < sessions.len()
                invariant
                    i <= sessions.len(),
                    sessions.len() > 0,
                    sv == sessions@.map_values(|x: GatSession| x@),
                    out@ == "["@ + sessions_json_joined(sv.take(i as int)),
                decreases sessions.len() - i,
            {
                assert(sv.take(i + 1).drop_last() == sv.take(i as int));
                if i > 0 {
                    push_str(&mut out, ",");
                }
                push_str(&mut out, session_json(&sessions[i]).as_str());
                assert(out@ =~= "["@ + sessions_json_joined(sv.take(i + 1)));
                i += 1;
            }
            assert(sv.take(sessions.len() as int) == sv);
            push_str(&mut out, "]\n");
        },
        OutputFormat::Shell => {
            let mut i: usize = 0;
            while i < sessions.len()
                invariant
                    i <= sessions.len(),
                    sv == sessions@.map_values(|x: GatSession| x@),
                    out@ == sessions_shell_lines(sv.take(i as int)),
                decreases sessions.len() - i,
            {
                assert(sv.take(i + 1).drop_last() == sv.take(i as int));
                push_str(&mut out, "GAT_SESSION=");
                push_str(&mut out, shell_escape(sessions[i].name.as_str()).as_str());
                push_str(&mut out, "\n");
                assert(out@ =~= sessions_shell_lines(sv.take(i + 1)));
                i += 1;
            }
            assert(sv.take(sessions.len() as int) == sv);
        },
    }
    out
}

/// `x` inserted into `s` after every element whose name does not sort after
/// `x`'s (one step of a stable sort by name).
pub open spec fn insert_by_name(s: Seq<SessionView>, x: SessionView) -> Seq<SessionView>
    decreases s.len(),
{
    if s.len() == 0 {
        seq![x]
    } else if seq_lt(x.name, s[0].name) {
        seq![x] + s
    } else {
        seq![s[0]] + insert_by_name(s.drop_first(), x)
    }
}

/// `s` stably sorted by name, as `sort_by(|a, b| a.name.cmp(&b.name))` orders it.
pub open spec fn sorted_by_name(s: Seq<SessionView>) -> Seq<SessionView>
    decreases s.len(),
{
    if s.len() == 0 {
        s
    } else {
        insert_by_name(sorted_by_name(s.drop_last()), s.last())
    }
}

proof fn lemma_insert_at(s: Seq<SessionView>, x: SessionView, pos: int)
    requires
        0 <= pos <= s.len(),
        forall|k: int| 0 <= k < pos ==> !seq_lt(x.name, #[trigger] s[k].name),
        pos < s.len() ==> seq_lt(x.name, s[pos].name),
    ensures
        insert_by_name(s, x) == s.take(pos) + seq![x] + s.skip(pos),
    decreases s.len(),
{
    if s.len() == 0 {
        assert(s.take(pos) + seq![x] + s.skip(pos) =~= seq![x]);
    } else if pos == 0 {
        assert(s.take(0) + seq![x] + s.skip(0) =~= seq![x] + s);
    } else {
        let t = s.drop_first();
        assert forall|k: int| 0 <= k < pos - 1 implies !seq_lt(x.name, #[trigger] t[k].name) by {
            assert(t[k] == s[k + 1]);
        }
        lemma_insert_at(t, x, pos - 1);
        assert(s.take(pos) + seq![x] + s.skip(pos) =~= seq![s[0]] + (t.take(pos - 1) + seq![x] + t.skip(pos - 1)));
    }
}

/// How many leading sessions sort no later than `x` (where `x` goes).
pub open spec fn name_slot(s: Seq<SessionView>, x: SessionView) -> nat
    decreases s.len(),
{
    if s.len() == 0 || seq_lt(x.name, s[0].name) {
        0
    } else {
        1 + name_slot(s.drop_first(), x)
    }
}

proof fn lemma_name_slot(s: Seq<SessionView>, x: SessionView)
    ensures
        name_slot(s, x) <= s.len(),
        forall|k: int| 0 <= k < name_slot(s, x) ==> !seq_lt(x.name, #[trigger] s[k].name),
        name_slot(s, x) < s.len() ==> seq_lt(x.name, s[name_slot(s, x) as int].name),
    decreases s.len(),
{
    if s.len() > 0 && !seq_lt(x.name, s[0].name) {
        let t = s.drop_first();
        lemma_name_slot(t, x);
        assert forall|k: int| 0 <= k < name_slot(s, x) implies !seq_lt(x.name, #[trigger] s[k].name) by {
            if k > 0 {
                assert(s[k] == t[k - 1]);
            }
        }
        if name_slot(s, x) < s.len() {
            assert(s[name_slot(s, x) as int] == t[name_slot(t, x) as int]);
        }
    }
}

/// Sessions ordered by name.
pub open spec fn names_ordered(s: Seq<SessionView>) -> bool {
    forall|i: int, j: int| 0 <= i < j < s.len() ==> !seq_lt(#[trigger] s[j].name, #[trigger] s[i].name)
}

/// `gat sessions` lists sessions ordered by name: the order never puts a
/// name before one that sorts after it, and it holds the same sessions,
/// each as often as given.
pub proof fn lemma_sessions_sorted(s: Seq<SessionView>)
    ensures
        names_ordered(sorted_by_name(s)),
        sorted_by_name(s).to_multiset() == s.to_multiset(),
    decreases s.len(),
{
    broadcast use vstd::seq_lib::group_to_multiset_ensures;
    if s.len() == 0 {
        assert(sorted_by_name(s) == s);
    } else {
        lemma_sessions_sorted(s.drop_last());
        let r = sorted_by_name(s.drop_last());
        let x = s.last();
        lemma_name_slot(r, x);
        let p = name_slot(r, x) as int;
        lemma_insert_at(r, x, p);
        let q = r.insert(p, x);
        assert(r.take(p) + seq![x] + r.skip(p) =~= q);
        assert(sorted_by_name(s) == q);
        assert forall|i: int, j: int| 0 <= i < j < q.len() implies !seq_lt(#[trigger] q[j].name, #[trigger] q[i].name) by {
            if j < p {
                assert(q[i] == r[i] && q[j] == r[j]);
            } else if j == p {
                assert(q[i] == r[i] && q[j] == x);
                if seq_lt(x.name, r[i].name) {
                    assert(false);
                }
            } else if i < p {
                assert(q[i] == r[i] && q[j] == r[j - 1]);
            } else if i == p {
                assert(q[i] == x && q[j] == r[j - 1]);
                let y = r[p].name;
                let z = r[j - 1].name;
                assert(seq_lt(x.name, y));
                if j - 1 > p {
                    assert(!seq_lt(z, y));
                    if z != y {
                        lemma_seq_lt_total(y, z);
                        lemma_seq_lt_transitive(x.name, y, z);
                    }
                }
                lemma_seq_lt_asymmetric(x.name, z);
            } else {
                assert(q[i] == r[i - 1] && q[j] == r[j - 1]);
            }
        }
        assert(s.drop_last().push(x) =~= s);
        assert(q.to_multiset() == r.to_multiset().insert(x));
        assert(s.to_multiset() == s.drop_last().to_multiset().insert(x));
    }
}

/// Sorts sessions by name, stably.
pub fn sort_sessions(sessions: Vec<GatSession>) -> (r: Vec<GatSession>)
    ensures
        sessions_view(r@) == sorted_by_name(sessions_view(sessions@)),
{
    let ghost input = sessions_view(sessions@);
    let mut out: Vec<GatSession> = Vec::new();
    let mut rest = sessions;
    let n = rest.len();
    let mut i: usize = 0;
    while i < n
        invariant
            i <= n,
            n == input.len(),
            rest.len() == n - i,
            sessions_view(rest@) == input.skip(i as int),
            sessions_view(out@) == sorted_by_name(input.take(i as int)),
        decreases n - i,
    {
        assert(input.take(i + 1).drop_last() == input.take(i as int));
        let ghost xv = input[i as int];
        assert(sessions_view(rest@)[0] == xv);
        let ghost old_rest = rest@;
        let x = rest.remove(0);
        assert(rest@ =~= old_rest.drop_first());
        assert(sessions_view(rest@) =~= sessions_view(old_rest).drop_first());
        assert(input.skip(i as int).drop_first() =~= input.skip(i + 1));
        let mut pos: usize = 0;
        while pos < out.len() && !str_lt(x.name.as_str(), out[pos].name.as_str())
            invariant
                pos <= out.len(),
                forall|k: int| 0 <= k < pos ==> !seq_lt(xv.name, #[trigger] sessions_view(out@)[k].name),
                x@ == xv,
            decreases out.len() - pos,
        {
            pos += 1;
        }
        proof {
            lemma_insert_at(sessions_view(out@), xv, pos as int);
        }
        let ghost before = sessions_view(out@);
        out.insert(pos, x);
        assert(sessions_view(out@) =~= before.take(pos as int) + seq![xv] + before.skip(pos as int));
        i += 1;
    }
    assert(input.take(n as int) == input);
    out
}

/// The gat sessions listed in `tmux list-sessions` output, in listing order.
pub open spec fn sessions_in_output(lines: Seq<Seq<char>>) -> Seq<SessionView>
    decreases lines.len(),
{
    if lines.len() == 0 {
        Seq::<SessionView>::empty()
    } else {
        let rest = sessions_in_output(lines.drop_last());
        match session_line_spec(lines.last()) {
            Some(s) => rest.push(s),
            None => rest,
        }
    }
}

/// The gat sessions of `tmux list-sessions` output, parsed and sorted by name.
pub fn collect_sessions(stdout: &str) -> (r: Vec<GatSession>)
    ensures
        sessions_view(r@) == sorted_by_name(sessions_in_output(lines(stdout@))),
{
    let v = chars_of(stdout);
    let ls = lines_chars(&v);
    let ghost lv = lines(stdout@);
    let mut found: Vec<GatSession> = Vec::new();
    let mut i: usize = 0;
    while i < ls.len()
        invariant
            i <= ls.len(),
            ls@.len() == lv.len(),
            forall|k: int| 0 <= k < ls@.len() ==> #[trigger] ls@[k]@ == lv[k],
            sessions_view(found@) == sessions_in_output(lv.take(i as int)),
        decreases ls.len() - i,
    {
        assert(lv.take(i + 1).drop_last() == lv.take(i as int));
        let line = string_of(&ls[i]);
        match parse_session_line(line.as_str()) {
            Some(sess) => {
                let ghost before = sessions_view(found@);
                found.push(sess);
                assert(sessions_view(found@) =~= before.push(sess@));
            },
            None => {},
        }
        i += 1;
    }
    assert(lv.take(ls.len() as int) == lv);
    sort_sessions(found)
}

/// The rendering of `gat sessions` from the `tmux list-sessions` outcome: a
/// failed listing (no server running) counts as no sessions.
pub open spec fn sessions_report_spec(stdout: Seq<char>, success: bool, format: OutputFormat) -> Seq<char> {
    if !success {
        empty_sessions_spec(format)
    } else {
        format_sessions_spec(sorted_by_name(sessions_in_output(lines(stdout))), format)
    }
}

/// Renders `gat sessions` output from what `tmux list-sessions` printed and
/// whether it succeeded.
pub fn sessions_report(stdout: &str, success: bool, format: OutputFormat) -> (r: String)
    ensures
        r@ == sessions_report_spec(stdout@, success, format),
{
    if !success {
        return empty_sessions_output(format);
    }
    let sessions = collect_sessions(stdout);
    let r = format_sessions(sessions.as_slice(), format);
    assert(sessions@.map_values(|x: GatSession| x@) == sessions_view(sessions@));
    r
}

/// The first listed session belonging to a ticket: named exactly `prefix` or
/// starting with `prefix-`.
pub open spec fn first_matching_session(names: Seq<Seq<char>>, prefix: Seq<char>) -> Option<Seq<char>>
    decreases names.len(),
{
    if names.len() == 0 {
        None
    } else if trim(names[0]) == prefix || starts_with(trim(names[0]), prefix + "-"@) {
        Some(trim(names[0]))
    } else {
        first_matching_session(names.drop_first(), prefix)
    }
}

/// A session named for a ticket is found again by the ticket's prefix,
/// whatever description went into its name: the lookup yields a session of
/// that ticket (the bare prefix or the prefix and `-`), so renaming a
/// worktree's description never orphans its session.
pub proof fn lemma_named_session_is_found(
    names: Seq<Seq<char>>,
    ticket: Seq<char>,
    description: Option<Seq<char>>,
    i: int,
)
    requires
        0 <= i < names.len(),
        trim(names[i]) == session_name_spec(ticket, description),
    ensures
        first_matching_session(names, session_prefix_spec(ticket)) matches Some(found)
            && (found == session_prefix_spec(ticket) || starts_with(found, session_prefix_spec(ticket) + "-"@)),
    decreases i,
{
    let prefix = session_prefix_spec(ticket);
    assert(trim(names[i]) == prefix || starts_with(trim(names[i]), prefix + "-"@)) by {
        let name = session_name_spec(ticket, description);
        if name != prefix {
            let pd = prefix + "-"@;
            assert(name.subrange(0, pd.len() as int) =~= pd);
        }
    }
    if i > 0 && !(trim(names[0]) == prefix || starts_with(trim(names[0]), prefix + "-"@)) {
        assert(names.drop_first()[i - 1] == names[i]);
        lemma_named_session_is_found(names.drop_first(), ticket, description, i - 1);
    }
}

/// Finds the live session for a session-name prefix in the output of
/// `tmux list-sessions -F '#{session_name}'`, tolerating description changes.
pub fn find_session_in(stdout: &str, prefix: &str) -> (r: Option<String>)
    ensures
        opt_view(r) == first_matching_session(lines(stdout@), prefix@),
{
    let v = chars_of(stdout);
    let ls = lines_chars(&v);
    let ghost lv = lines(stdout@);
    let p = chars_of(prefix);
    let mut with_dash = chars_of(prefix);
    with_dash.push('-');
    assert(with_dash@ == prefix@ + "-"@) by { reveal_strlit("-"); assert(with_dash@ =~= prefix@ + "-"@); }
    let mut i: usize = 0;
    assert(lv.skip(0) == lv);
    while i < ls.len()
        invariant
            i <= ls.len(),
            ls@.len() == lv.len(),
            forall|k: int| 0 <= k < ls@.len() ==> #[trigger] ls@[k]@ == lv[k],
            p@ == prefix@,
            lv == lines(stdout@),
            with_dash@ == prefix@ + "-"@,
            first_matching_session(lv, prefix@) == first_matching_session(lv.skip(i as int), prefix@),
        decreases ls.len() - i,
    {
        assert(lv.skip(i as int)[0] == lv[i as int]);
        assert(lv.skip(i as int).drop_first() == lv.skip(i + 1));
        let name = trim_chars(&ls[i]);
        assert(name@ == trim(lv.skip(i as int)[0]));
        if chars_eq(&name, &p) || has_prefix(&name, &with_dash) {
            assert(lv.skip(i as int).len() > 0);
            assert(first_matching_session(lv.skip(i as int), prefix@) == Some(trim(lv.skip(i as int)[0])));
            let res = string_of(&name);
            assert(opt_view(Some(res)) == Some(name@));

            return Some(res);
        }
        i += 1;
    }
    None
}

} // verus!
