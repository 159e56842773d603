//! Configuration: layout presets, the on-disk `config.toml` format, dotted
//! config keys, and the git-config / environment overlays.

use vstd::prelude::*;
use crate::cli::run;
use crate::error::{ErrorView, GatError, Result, result_view};
use crate::naming::{join, join_path};
use crate::output::{bool_string, bool_text};
use crate::sessions::opt_view;
use crate::text::{ascii_lowercase, chars_eq, chars_lt, chars_of, decimal, decimal_string, eq_lit, first_index_of, has_prefix_lit, index_of, is_ascii_text, is_ws, lemma_decimal_parses, lemma_index_of, lemma_lines_concat, lemma_lines_single, lemma_seq_lt_asymmetric, lemma_seq_lt_irreflexive, lemma_seq_lt_total, lemma_seq_lt_transitive, lemma_split_concat, lemma_split_nonempty, lemma_split_plain, lemma_trim_ascii, lemma_trim_id, lines, lines_chars, lowercase, parse_unsigned, parse_unsigned_chars, push_char, push_str, replace_char, seq_lt, slice_of, split, split_chars, starts_with, string_of, to_lowercase, trim, trim_char, trim_char_chars, trim_chars, trim_end, trim_end_char, trim_start, trim_start_char};





verus! {

/// A worktree setup template applied after `gat new` creates a worktree.
///
/// Templates make new worktrees immediately usable by copying ignored config
/// files, symlinking shared dependency directories, and running setup commands.
#[derive(Clone, Debug)]
pub struct Template {
    /// Files to copy from the primary worktree into the new worktree.
    pub copy: Vec<String>,
    /// Directories to symlink from the primary worktree into the new worktree.
    pub symlink: Vec<String>,
    /// Shell commands to run in the new worktree after copy/symlink steps.
    pub run: Vec<String>,
}

/// The specification-level template value.
pub struct TemplateView {
    pub copy: Seq<Seq<char>>,
    pub symlink: Seq<Seq<char>>,
    pub run: Seq<Seq<char>>,
}

/// Strings taken by their views.
pub open spec fn strings_view(v: Seq<String>) -> Seq<Seq<char>> {
    v.map_values(|s: String| s@)
}

impl View for Template {
    type V = TemplateView;

    open spec fn view(&self) -> TemplateView {
        TemplateView { copy: strings_view(self.copy@), symlink: strings_view(self.symlink@), run: strings_view(self.run@) }
    }
}

/// The empty template.
pub open spec fn empty_template() -> TemplateView {
    TemplateView { copy: Seq::empty(), symlink: Seq::empty(), run: Seq::empty() }
}

impl Template {
    /// A template with nothing to copy, link, or run.
    pub fn new() -> (r: Template)
        ensures
            r@ == empty_template(),
    {
        let r = Template { copy: Vec::new(), symlink: Vec::new(), run: Vec::new() };
        assert(r@.copy =~= Seq::<Seq<char>>::empty());
        assert(r@.symlink =~= Seq::<Seq<char>>::empty());
        assert(r@.run =~= Seq::<Seq<char>>::empty());
        r
    }
}

/// Named tmux layout presets.
///
/// A preset is a shorthand for the pane geometry (`left_width`,
/// `bottom_height`, `focus_left`). Explicit geometry settings override the
/// preset baseline.
#[derive(Clone, Copy, Debug, PartialEq, Eq, Structural)]
pub enum LayoutPreset {
    /// Balanced 3-pane layout: AI left (55%), editor and shell right.
    Classic,
    /// Large AI pane (70%) for AI-driven work.
    AiFocus,
    /// Small AI pane (35%) with the editor in focus.
    EditorFocus,
    /// Even 50/50 split between AI and editor.
    Wide,
}

/// The preset a (normalized) name denotes.
pub open spec fn preset_named(n: Seq<char>) -> Option<LayoutPreset> {
    if n == "classic"@ || n == "default"@ {
        Some(LayoutPreset::Classic)
    } else if n == "ai-focus"@ || n == "ai"@ {
        Some(LayoutPreset::AiFocus)
    } else if n == "editor-focus"@ || n == "editor"@ {
        Some(LayoutPreset::EditorFocus)
    } else if n == "wide"@ || n == "side-by-side"@ || n == "5050"@ || n == "50-50"@ {
        Some(LayoutPreset::Wide)
    } else {
        None
    }
}

/// The preset for a user-supplied name: trimmed, lowercased, `_` read as `-`.
pub open spec fn preset_from_name(name: Seq<char>) -> Option<LayoutPreset> {
    preset_named(replace_char(lowercase(trim(name)), '_', '-'))
}

/// The `(left_width, bottom_height, focus_left)` geometry of a preset.
pub open spec fn preset_geometry(p: LayoutPreset) -> (u8, u8, bool) {
    match p {
        LayoutPreset::Classic => (55, 35, true),
        LayoutPreset::AiFocus => (70, 40, true),
        LayoutPreset::EditorFocus => (35, 25, false),
        LayoutPreset::Wide => (50, 50, true),
    }
}

fn replace_underscores(v: &[char]) -> (r: Vec<char>)
    ensures
        r@ == replace_char(v@, '_', '-'),
{
    let mut r: Vec<char> = Vec::new();
    let mut i: usize = 0;
    while i < v.len()
        invariant
            i <= v.len(),
            r@ =~= replace_char(v@.take(i as int), '_', '-'),
        decreases v.len() - i,
    {
        r.push(if v[i] == '_' { '-' } else { v[i] });
        i += 1;
        assert(replace_char(v@.take(i as int), '_', '-') =~= replace_char(v@.take(i - 1), '_', '-').push(if v@[i - 1] == '_' { '-' } else { v@[i - 1] }));
    }
    assert(v@.take(v.len() as int) == v@);
    r
}

impl LayoutPreset {
    /// Resolves a preset from its name, accepting common spellings.
    ///
    /// Returns `None` for unknown names so callers can fall back.
    pub fn from_name(name: &str) -> (r: Option<Self>)
        ensures
            r == preset_from_name(name@),
            // ASCII names match whatever their case.
            is_ascii_text(name@) ==> r == preset_named(replace_char(ascii_lowercase(trim(name@)), '_', '-')),
    {
        let t = string_of(&trim_chars(&chars_of(name)));
        proof {
            if is_ascii_text(name@) {
                lemma_trim_ascii(name@);
            }
        }
        let lower = to_lowercase(t.as_str());
        Self::from_lowercase(lower.as_str())
    }

    /// Resolves a preset from a name that is already trimmed and lowercased;
    /// `_` is read as `-`.
    pub fn from_lowercase(name: &str) -> (r: Option<Self>)
        ensures
            r == preset_named(replace_char(name@, '_', '-')),
    {
        let n = replace_underscores(&chars_of(name));
        if eq_lit(&n, "classic") || eq_lit(&n, "default") {
            Some(LayoutPreset::Classic)
        } else if eq_lit(&n, "ai-focus") || eq_lit(&n, "ai") {
            Some(LayoutPreset::AiFocus)
        } else if eq_lit(&n, "editor-focus") || eq_lit(&n, "editor") {
            Some(LayoutPreset::EditorFocus)
        } else if eq_lit(&n, "wide") || eq_lit(&n, "side-by-side") || eq_lit(&n, "5050") || eq_lit(&n, "50-50") {
            Some(LayoutPreset::Wide)
        } else {
            None
        }
    }

    /// Returns the `(left_width, bottom_height, focus_left)` geometry.
    pub fn geometry(self) -> (r: (u8, u8, bool))
        ensures
            r == preset_geometry(self),
    {
        match self {
            LayoutPreset::Classic => (55, 35, true),
            LayoutPreset::AiFocus => (70, 40, true),
            LayoutPreset::EditorFocus => (35, 25, false),
            LayoutPreset::Wide => (50, 50, true),
        }
    }

    /// Applies the preset geometry to a [`TmuxLayout`] as a baseline.
    pub fn apply(self, layout: &mut TmuxLayout)
        ensures
            final(layout)@ == apply_preset_spec(old(layout)@, self),
    {
        let (left_width, bottom_height, focus_left) = self.geometry();
        layout.left_width = left_width;
        layout.bottom_height = bottom_height;
        layout.focus_left = focus_left;
    }
}

/// Tmux layout configuration.
#[derive(Clone, Debug)]
pub struct TmuxLayout<S = String> {
    /// Left pane width percentage (0-100).
    pub left_width: u8,
    /// Right bottom pane height percentage (0-100).
    pub bottom_height: u8,
    /// Shell path for tmux panes.
    pub shell: S,
    /// Command for left AI pane.
    pub codex_cmd: S,
    /// Command for right editor pane.
    pub editor_cmd: S,
    /// Whether to focus left pane on creation.
    pub focus_left: bool,
}

/// The specification-level layout value.
pub type LayoutView = TmuxLayout<Seq<char>>;

impl View for TmuxLayout<String> {
    type V = TmuxLayout<Seq<char>>;

    open spec fn view(&self) -> TmuxLayout<Seq<char>> {
        TmuxLayout {
            left_width: self.left_width,
            bottom_height: self.bottom_height,
            shell: self.shell@,
            codex_cmd: self.codex_cmd@,
            editor_cmd: self.editor_cmd@,
            focus_left: self.focus_left,
        }
    }
}

/// A layout with a preset's geometry applied.
pub open spec fn apply_preset_spec(l: LayoutView, p: LayoutPreset) -> LayoutView {
    let (w, h, f) = preset_geometry(p);
    TmuxLayout { left_width: w, bottom_height: h, focus_left: f, ..l }
}

/// The built-in layout: 55% left pane, 35% bottom pane, `codex` and `nvim`,
/// left pane focused, and the given shell.
pub open spec fn default_layout(shell: Seq<char>) -> LayoutView {
    TmuxLayout {
        left_width: 55,
        bottom_height: 35,
        shell: shell,
        codex_cmd: "codex"@,
        editor_cmd: "nvim"@,
        focus_left: true,
    }
}

impl TmuxLayout<String> {
    /// The built-in layout, with `shell` (the user's `$SHELL`, else `/bin/bash`).
    pub fn with_shell(shell: &str) -> (r: Self)
        ensures
            r@ == default_layout(shell@),
    {
        TmuxLayout {
            left_width: 55,
            bottom_height: 35,
            shell: string_of(&chars_of(shell)),
            codex_cmd: String::from_str("codex"),
            editor_cmd: String::from_str("nvim"),
            focus_left: true,
        }
    }
}

/// Global configuration for gat.
#[derive(Clone, Debug)]
pub struct GatConfig {
    /// Default ticket prefix.
    pub ticket_prefix: Option<String>,
    /// Tmux layout configuration.
    pub tmux: TmuxLayout,
    /// Docker compose directory.
    pub docker_compose_dir: Option<String>,
    /// Docker worktree mount path.
    pub docker_worktree_mount: Option<String>,
    /// Docker default service.
    pub docker_service: Option<String>,
    /// Enable verbose logging.
    pub verbose: bool,
    /// Named worktree setup templates, kept sorted by name (names unique).
    pub templates: Vec<(String, Template)>,
}

/// The specification-level configuration value.
pub struct ConfigView {
    pub ticket_prefix: Option<Seq<char>>,
    pub tmux: LayoutView,
    pub docker_compose_dir: Option<Seq<char>>,
    pub docker_worktree_mount: Option<Seq<char>>,
    pub docker_service: Option<Seq<char>>,
    pub verbose: bool,
    pub templates: Seq<(Seq<char>, TemplateView)>,
}

/// Named templates taken by their views.
pub open spec fn templates_view(v: Seq<(String, Template)>) -> Seq<(Seq<char>, TemplateView)> {
    v.map_values(|e: (String, Template)| (e.0@, e.1@))
}

impl View for GatConfig {
    type V = ConfigView;

    open spec fn view(&self) -> ConfigView {
        ConfigView {
            ticket_prefix: opt_view(self.ticket_prefix),
            tmux: self.tmux@,
            docker_compose_dir: opt_view(self.docker_compose_dir),
            docker_worktree_mount: opt_view(self.docker_worktree_mount),
            docker_service: opt_view(self.docker_service),
            verbose: self.verbose,
            templates: templates_view(self.templates@),
        }
    }
}

/// Template names are strictly increasing, hence unique.
pub open spec fn templates_sorted(t: Seq<(Seq<char>, TemplateView)>) -> bool {
    forall|i: int, j: int| 0 <= i < j < t.len() ==> seq_lt(#[trigger] t[i].0, #[trigger] t[j].0)
}

/// The built-in configuration with the given default shell.
pub open spec fn default_config(shell: Seq<char>) -> ConfigView {
    ConfigView {
        ticket_prefix: None,
        tmux: default_layout(shell),
        docker_compose_dir: None,
        docker_worktree_mount: None,
        docker_service: None,
        verbose: false,
        templates: Seq::empty(),
    }
}

/// The template stored under `name`, if any.
pub open spec fn template_lookup(t: Seq<(Seq<char>, TemplateView)>, name: Seq<char>) -> Option<TemplateView>
    decreases t.len(),
{
    if t.len() == 0 {
        None
    } else if t.last().0 == name {
        Some(t.last().1)
    } else {
        template_lookup(t.drop_last(), name)
    }
}

/// Position at which `name` belongs in a sorted template list: the first
/// entry whose name does not sort before it.
pub open spec fn template_position(t: Seq<(Seq<char>, TemplateView)>, name: Seq<char>) -> int
    decreases t.len(),
{
    if t.len() == 0 {
        0
    } else if !seq_lt(t[0].0, name) {
        0
    } else {
        1 + template_position(t.drop_first(), name)
    }
}

/// The sorted template list with `template` stored under `name` (replacing
/// any entry of that name).
pub open spec fn template_insert(t: Seq<(Seq<char>, TemplateView)>, name: Seq<char>, template: TemplateView) -> Seq<(Seq<char>, TemplateView)> {
    let p = template_position(t, name);
    if p < t.len() && t[p].0 == name {
        t.update(p, (name, template))
    } else {
        t.insert(p, (name, template))
    }
}

/// The sorted template list, with an empty template under `name` unless one
/// exists (`entry(name).or_default()`).
pub open spec fn template_ensure(t: Seq<(Seq<char>, TemplateView)>, name: Seq<char>) -> Seq<(Seq<char>, TemplateView)> {
    match template_lookup(t, name) {
        Some(_) => t,
        None => template_insert(t, name, empty_template()),
    }
}

proof fn lemma_position_bounds(t: Seq<(Seq<char>, TemplateView)>, name: Seq<char>)
    requires
        templates_sorted(t),
    ensures
        0 <= template_position(t, name) <= t.len(),
        forall|i: int| 0 <= i < template_position(t, name) ==> seq_lt(#[trigger] t[i].0, name),
        template_position(t, name) < t.len() ==> !seq_lt(t[template_position(t, name)].0, name),
    decreases t.len(),
{
    if t.len() > 0 && seq_lt(t[0].0, name) {
        let u = t.drop_first();
        assert(templates_sorted(u)) by {
            assert forall|i: int, j: int| 0 <= i < j < u.len() implies seq_lt(#[trigger] u[i].0, #[trigger] u[j].0) by {
                assert(u[i] == t[i + 1] && u[j] == t[j + 1]);
            }
        }
        lemma_position_bounds(u, name);
        assert forall|i: int| 0 <= i < template_position(t, name) implies seq_lt(#[trigger] t[i].0, name) by {
            if i > 0 {
                assert(t[i] == u[i - 1]);
            }
        }
    }
}

proof fn lemma_lookup_found(t: Seq<(Seq<char>, TemplateView)>, i: int)
    requires
        templates_sorted(t),
        0 <= i < t.len(),
    ensures
        template_lookup(t, t[i].0) == Some(t[i].1),
    decreases t.len(),
{
    if i < t.len() - 1 {
        lemma_seq_lt_irreflexive(t[i].0);
        assert(seq_lt(t[i].0, t.last().0));
        assert(t.last().0 != t[i].0) by {
            lemma_seq_lt_irreflexive(t[i].0);
        }
        let u = t.drop_last();
        assert(templates_sorted(u));
        assert(u[i] == t[i]);
        lemma_lookup_found(u, i);
    }
}

proof fn lemma_lookup_missing(t: Seq<(Seq<char>, TemplateView)>, name: Seq<char>)
    requires
        forall|i: int| 0 <= i < t.len() ==> #[trigger] t[i].0 != name,
    ensures
        template_lookup(t, name) is None,
    decreases t.len(),
{
    if t.len() > 0 {
        let u = t.drop_last();
        assert forall|i: int| 0 <= i < u.len() implies #[trigger] u[i].0 != name by {
            assert(u[i] == t[i]);
        }
        lemma_lookup_missing(u, name);
    }
}

/// Inserting at the sorted position keeps the list sorted.
proof fn lemma_insert_sorted(t: Seq<(Seq<char>, TemplateView)>, name: Seq<char>, template: TemplateView)
    requires
        templates_sorted(t),
    ensures
        templates_sorted(template_insert(t, name, template)),
        template_lookup(template_insert(t, name, template), name) == Some(template),
{
    lemma_position_bounds(t, name);
    let p = template_position(t, name);
    let r = template_insert(t, name, template);
    if p < t.len() && t[p].0 == name {
        assert forall|i: int, j: int| 0 <= i < j < r.len() implies seq_lt(#[trigger] r[i].0, #[trigger] r[j].0) by {
            assert(r[i].0 == t[i].0 && r[j].0 == t[j].0);
        }
        assert(r[p].0 == name);
        lemma_lookup_found(r, p);
    } else {
        if p < t.len() {
            assert(t[p].0 != name);
            lemma_seq_lt_total(t[p].0, name);
            assert(seq_lt(name, t[p].0));
        }
        assert forall|i: int, j: int| 0 <= i < j < r.len() implies seq_lt(#[trigger] r[i].0, #[trigger] r[j].0) by {
            if i < p && j < p {
                assert(r[i] == t[i] && r[j] == t[j]);
            } else if i < p && j == p {
                assert(r[i] == t[i]);
            } else if i < p && j > p {
                assert(r[i] == t[i] && r[j] == t[j - 1]);
                assert(seq_lt(t[i].0, name));
                assert(seq_lt(name, t[p].0));
                if j - 1 > p {
                    lemma_seq_lt_transitive(name, t[p].0, t[j - 1].0);
                }
                lemma_seq_lt_transitive(t[i].0, name, t[j - 1].0);
            } else if i == p {
                assert(r[j] == t[j - 1]);
                if j - 1 > p {
                    lemma_seq_lt_transitive(name, t[p].0, t[j - 1].0);
                }
            } else {
                assert(r[i] == t[i - 1] && r[j] == t[j - 1]);
            }
        }
        assert(r[p].0 == name);
        lemma_lookup_found(r, p);
    }
}

/// `template_ensure` keeps the list sorted and makes `name` present.
proof fn lemma_ensure_sorted(t: Seq<(Seq<char>, TemplateView)>, name: Seq<char>)
    requires
        templates_sorted(t),
    ensures
        templates_sorted(template_ensure(t, name)),
        template_lookup(template_ensure(t, name), name) is Some,
{
    match template_lookup(t, name) {
        Some(_) => {},
        None => {
            lemma_insert_sorted(t, name, empty_template());
        },
    }
}

impl GatConfig {
    /// The built-in configuration, with `shell` as the tmux pane shell.
    pub fn with_shell(shell: &str) -> (r: Self)
        ensures
            r@ == default_config(shell@),
            r.wf(),
    {
        let r = GatConfig {
            ticket_prefix: None,
            tmux: TmuxLayout::with_shell(shell),
            docker_compose_dir: None,
            docker_worktree_mount: None,
            docker_service: None,
            verbose: false,
            templates: Vec::new(),
        };
        assert(r@.templates =~= Seq::<(Seq<char>, TemplateView)>::empty());
        r
    }

    /// Well-formedness: templates sorted by name, names unique.
    pub open spec fn wf(&self) -> bool {
        templates_sorted(self@.templates)
    }

    /// Position of `name` among the templates.
    fn position_of(&self, name: &[char]) -> (r: usize)
        requires
            self.wf(),
        ensures
            r as int == template_position(self@.templates, name@),
            r <= self.templates.len(),
    {
        proof { lemma_position_bounds(self@.templates, name@); }
        let mut i: usize = 0;
        let ghost t = self@.templates;
        while i < self.templates.len() && chars_lt(&chars_of(self.templates[i].0.as_str()), name)
            invariant
                i <= self.templates.len(),
                t == self@.templates,
                t.len() == self.templates.len(),
                templates_sorted(t),
                forall|k: int| 0 <= k < i ==> seq_lt(#[trigger] t[k].0, name@),
            decreases self.templates.len() - i,
        {
            i += 1;
        }
        proof { lemma_position_is(t, name@, i as int); }
        i
    }

    /// The template configured under `name`, if any.
    pub fn template(&self, name: &str) -> (r: Option<&Template>)
        requires
            self.wf(),
        ensures
            match template_lookup(self@.templates, name@) {
                Some(t) => r is Some && r->0@ == t,
                None => r is None,
            },
    {
        let n = chars_of(name);
        let p = self.position_of(&n);
        proof { lemma_position_bounds(self@.templates, name@); }
        if p < self.templates.len() && chars_eq(&chars_of(self.templates[p].0.as_str()), &n) {
            proof { lemma_lookup_found(self@.templates, p as int); }
            Some(&self.templates[p].1)
        } else {
            proof { lemma_absent(self@.templates, name@); }
            None
        }
    }

    /// Stores `template` under `name`, replacing any template of that name.
    pub fn insert_template(&mut self, name: &str, template: Template)
        requires
            old(self).wf(),
        ensures
            final(self).wf(),
            final(self)@ == (ConfigView { templates: template_insert(old(self)@.templates, name@, template@), ..old(self)@ }),
    {
        let n = chars_of(name);
        let p = self.position_of(&n);
        let ghost t = self@.templates;
        proof { lemma_position_bounds(t, name@); lemma_insert_sorted(t, name@, template@); }
        if p < self.templates.len() && chars_eq(&chars_of(self.templates[p].0.as_str()), &n) {
            self.templates.set(p, (string_of(&n), template));
            assert(self@.templates =~= template_insert(t, name@, template@));
        } else {
            self.templates.insert(p, (string_of(&n), template));
            assert(self@.templates =~= template_insert(t, name@, template@));
        }
    }

    /// Makes sure a (possibly empty) template exists under `name` and returns
    /// its position.
    fn ensure_template(&mut self, name: &[char]) -> (r: usize)
        requires
            old(self).wf(),
        ensures
            final(self).wf(),
            final(self)@ == (ConfigView { templates: template_ensure(old(self)@.templates, name@), ..old(self)@ }),
            r < final(self).templates.len(),
            final(self)@.templates[r as int].0 == name@,
            r as int == template_position(final(self)@.templates, name@),
    {
        let p = self.position_of(name);
        let ghost t = self@.templates;
        proof { lemma_position_bounds(t, name@); lemma_ensure_sorted(t, name@); }
        if p < self.templates.len() && chars_eq(&chars_of(self.templates[p].0.as_str()), name) {
            proof {
                lemma_lookup_found(t, p as int);
                lemma_seq_lt_irreflexive(name@);
                lemma_position_is(t, name@, p as int);
            }
            p
        } else {
            proof { lemma_absent(t, name@); lemma_insert_sorted(t, name@, empty_template()); }
            self.templates.insert(p, (string_of(name), Template::new()));
            assert(self@.templates =~= template_insert(t, name@, empty_template()));
            proof {
                let u = self@.templates;
                assert forall|k: int| 0 <= k < p implies seq_lt(#[trigger] u[k].0, name@) by {
                    assert(u[k] == t[k]);
                }
                lemma_seq_lt_irreflexive(name@);
                lemma_position_is(u, name@, p as int);
            }
            p
        }
    }

    /// Sets one list field (`copy`, `symlink`, or `run`) of the template under
    /// `name`, creating the template first if needed; other keys only create it.
    fn set_template_field(&mut self, name: &[char], key: &[char], items: Vec<String>)
        requires
            old(self).wf(),
        ensures
            final(self).wf(),
            final(self)@ == (ConfigView { templates: template_set_spec(old(self)@.templates, name@, key@, strings_view(items@)), ..old(self)@ }),
    {
        let p = self.ensure_template(name);
        let ghost e = self@.templates;
        if eq_lit(key, "copy") || eq_lit(key, "symlink") || eq_lit(key, "run") {
            let (nm, mut t) = self.templates.remove(p);
            if eq_lit(key, "copy") {
                t.copy = items;
            } else if eq_lit(key, "symlink") {
                t.symlink = items;
            } else {
                t.run = items;
            }
            self.templates.insert(p, (nm, t));
            assert(self@.templates =~= template_set_spec(old(self)@.templates, name@, key@, strings_view(items@)));
            assert(templates_sorted(self@.templates)) by {
                let u = self@.templates;
                assert forall|i: int, j: int| 0 <= i < j < u.len() implies seq_lt(#[trigger] u[i].0, #[trigger] u[j].0) by {
                    assert(u[i].0 == e[i].0 && u[j].0 == e[j].0);
                }
            }
        }
    }
}

proof fn lemma_position_is(t: Seq<(Seq<char>, TemplateView)>, name: Seq<char>, i: int)
    requires
        templates_sorted(t),
        0 <= i <= t.len(),
        forall|k: int| 0 <= k < i ==> seq_lt(#[trigger] t[k].0, name),
        i < t.len() ==> !seq_lt(t[i].0, name),
    ensures
        template_position(t, name) == i,
    decreases t.len(),
{
    if i > 0 {
        let u = t.drop_first();
        assert(templates_sorted(u)) by {
            assert forall|a: int, b: int| 0 <= a < b < u.len() implies seq_lt(#[trigger] u[a].0, #[trigger] u[b].0) by {
                assert(u[a] == t[a + 1] && u[b] == t[b + 1]);
            }
        }
        assert(seq_lt(t[0].0, name));
        assert forall|k: int| 0 <= k < i - 1 implies seq_lt(#[trigger] u[k].0, name) by {
            assert(u[k] == t[k + 1]);
        }
        lemma_position_is(u, name, i - 1);
    }
}

/// When the entry at the sorted position does not carry `name`, no entry does.
proof fn lemma_absent(t: Seq<(Seq<char>, TemplateView)>, name: Seq<char>)
    requires
        templates_sorted(t),
        !(template_position(t, name) < t.len() && t[template_position(t, name)].0 == name),
    ensures
        template_lookup(t, name) is None,
{
    lemma_position_bounds(t, name);
    let p = template_position(t, name);
    assert forall|i: int| 0 <= i < t.len() implies #[trigger] t[i].0 != name by {
        if i < p {
            lemma_seq_lt_irreflexive(name);
        } else if i == p {
        } else {
            assert(seq_lt(t[p].0, t[i].0));
            if t[i].0 == name {
                assert(t[p].0 != name);
                lemma_seq_lt_total(t[p].0, name);
                lemma_seq_lt_asymmetric(t[p].0, name);
            }
        }
    }
    lemma_lookup_missing(t, name);
}

/// The trimmed value, or `None` when it is empty (which clears a key).
pub open spec fn non_empty_owned_spec(value: Seq<char>) -> Option<Seq<char>> {
    if trim(value).len() == 0 { None } else { Some(trim(value)) }
}

/// Returns the trimmed value as `Some`, or `None` when empty (to clear a key).
pub fn non_empty_owned(value: &str) -> (r: Option<String>)
    ensures
        opt_view(r) == non_empty_owned_spec(value@),
{
    let t = trim_chars(&chars_of(value));
    if t.len() == 0 { None } else { Some(string_of(&t)) }
}

/// The boolean a lowercased, trimmed spelling denotes.
pub open spec fn bool_named(n: Seq<char>) -> Option<bool> {
    if n == "true"@ || n == "1"@ || n == "yes"@ || n == "on"@ {
        Some(true)
    } else if n == "false"@ || n == "0"@ || n == "no"@ || n == "off"@ {
        Some(false)
    } else {
        None
    }
}

/// The boolean a config value spells, accepting common spellings.
pub open spec fn parse_bool_spec(value: Seq<char>) -> core::result::Result<bool, ErrorView> {
    match bool_named(lowercase(trim(value))) {
        Some(b) => Ok(b),
        None => Err(GatError::Usage("expected a boolean (true/false), got '"@ + value + "'"@)),
    }
}

/// The boolean an already trimmed and lowercased spelling denotes, if any.
pub fn bool_from_lowercase(n: &str) -> (r: Option<bool>)
    ensures
        r == bool_named(n@),
{
    let n = chars_of(n);
    if eq_lit(&n, "true") || eq_lit(&n, "1") || eq_lit(&n, "yes") || eq_lit(&n, "on") {
        Some(true)
    } else if eq_lit(&n, "false") || eq_lit(&n, "0") || eq_lit(&n, "no") || eq_lit(&n, "off") {
        Some(false)
    } else {
        None
    }
}

/// Parses a boolean config value, accepting common spellings.
pub fn parse_bool(value: &str) -> (r: Result<bool>)
    ensures
        match r {
            Ok(b) => parse_bool_spec(value@) == Ok::<bool, ErrorView>(b),
            Err(e) => parse_bool_spec(value@) == Err::<bool, ErrorView>(e@),
        },
        // ASCII spellings are read whatever their case.
        is_ascii_text(value@) ==> (r is Ok <==> bool_named(ascii_lowercase(trim(value@))) is Some),
        is_ascii_text(value@) ==> (r matches Ok(b) ==> bool_named(ascii_lowercase(trim(value@))) == Some(b)),
{
    let t = string_of(&trim_chars(&chars_of(value)));
    proof {
        if is_ascii_text(value@) {
            lemma_trim_ascii(value@);
        }
    }
    let lower = to_lowercase(t.as_str());
    match bool_from_lowercase(lower.as_str()) {
        Some(b) => Ok(b),
        None => {
            let mut m = String::new();
            push_str(&mut m, "expected a boolean (true/false), got '");
            assert(m@ =~= "expected a boolean (true/false), got '"@);
            push_str(&mut m, value);
            push_str(&mut m, "'");
            Err(GatError::Usage(m))
        },
    }
}

/// The percentage a config value spells: a `u8` no larger than 100.
pub open spec fn parse_percent_spec(value: Seq<char>) -> core::result::Result<u8, ErrorView> {
    match parse_unsigned(trim(value), 255) {
        None => Err(GatError::Usage("expected a number 0-100, got '"@ + value + "'"@)),
        Some(n) => if n > 100 {
            Err(GatError::Usage("percentage must be 0-100, got "@ + decimal(n)))
        } else {
            Ok(n as u8)
        },
    }
}

/// Parses a percentage config value in the range 0-100.
pub fn parse_percent(value: &str) -> (r: Result<u8>)
    ensures
        match r {
            Ok(b) => parse_percent_spec(value@) == Ok::<u8, ErrorView>(b) && b <= 100,
            Err(e) => parse_percent_spec(value@) == Err::<u8, ErrorView>(e@),
        },
{
    let t = trim_chars(&chars_of(value));
    match parse_unsigned_chars(&t, 255) {
        None => {
            let mut m = String::new();
            push_str(&mut m, "expected a number 0-100, got '");
            assert(m@ =~= "expected a number 0-100, got '"@);
            push_str(&mut m, value);
            push_str(&mut m, "'");
            Err(GatError::Usage(m))
        },
        Some(n) => {
            if n > 100 {
                let mut m = String::new();
                push_str(&mut m, "percentage must be 0-100, got ");
                assert(m@ =~= "percentage must be 0-100, got "@);
                push_str(&mut m, decimal_string(n).as_str());
                Err(GatError::Usage(m))
            } else {
                Ok(n as u8)
            }
        },
    }
}

/// The value of a dotted config key, or `None` if unset or unknown
/// (`tmux.layout` is write-only sugar with no stored value).
pub open spec fn get_key_spec(c: ConfigView, key: Seq<char>) -> Option<Seq<char>> {
    if key == "ticket_prefix"@ {
        c.ticket_prefix
    } else if key == "docker_compose_dir"@ {
        c.docker_compose_dir
    } else if key == "docker_worktree_mount"@ {
        c.docker_worktree_mount
    } else if key == "docker_service"@ {
        c.docker_service
    } else if key == "verbose"@ {
        Some(bool_text(c.verbose))
    } else if key == "tmux.left_width"@ {
        Some(decimal(c.tmux.left_width as nat))
    } else if key == "tmux.bottom_height"@ {
        Some(decimal(c.tmux.bottom_height as nat))
    } else if key == "tmux.shell"@ {
        Some(c.tmux.shell)
    } else if key == "tmux.codex_cmd"@ {
        Some(c.tmux.codex_cmd)
    } else if key == "tmux.editor_cmd"@ {
        Some(c.tmux.editor_cmd)
    } else if key == "tmux.focus_left"@ {
        Some(bool_text(c.tmux.focus_left))
    } else {
        None
    }
}

fn clone_opt(o: &Option<String>) -> (r: Option<String>)
    ensures
        opt_view(r) == opt_view(*o),
{
    match o {
        Some(s) => Some(string_of(&chars_of(s.as_str()))),
        None => None,
    }
}

/// What `set_key` does: the updated configuration, or the error for an
/// unknown key or an invalid value.
pub open spec fn set_key_spec(c: ConfigView, key: Seq<char>, value: Seq<char>) -> core::result::Result<ConfigView, ErrorView> {
    if key == "ticket_prefix"@ {
        Ok(ConfigView { ticket_prefix: non_empty_owned_spec(value), ..c })
    } else if key == "docker_compose_dir"@ {
        Ok(ConfigView { docker_compose_dir: non_empty_owned_spec(value), ..c })
    } else if key == "docker_worktree_mount"@ {
        Ok(ConfigView { docker_worktree_mount: non_empty_owned_spec(value), ..c })
    } else if key == "docker_service"@ {
        Ok(ConfigView { docker_service: non_empty_owned_spec(value), ..c })
    } else if key == "verbose"@ {
        match parse_bool_spec(value) {
            Ok(b) => Ok(ConfigView { verbose: b, ..c }),
            Err(e) => Err(e),
        }
    } else if key == "tmux.layout"@ {
        Ok(apply_layout_spec(c, value))
    } else if key == "tmux.left_width"@ {
        match parse_percent_spec(value) {
            Ok(n) => Ok(ConfigView { tmux: TmuxLayout { left_width: n, ..c.tmux }, ..c }),
            Err(e) => Err(e),
        }
    } else if key == "tmux.bottom_height"@ {
        match parse_percent_spec(value) {
            Ok(n) => Ok(ConfigView { tmux: TmuxLayout { bottom_height: n, ..c.tmux }, ..c }),
            Err(e) => Err(e),
        }
    } else if key == "tmux.shell"@ {
        Ok(ConfigView { tmux: TmuxLayout { shell: value, ..c.tmux }, ..c })
    } else if key == "tmux.codex_cmd"@ {
        Ok(ConfigView { tmux: TmuxLayout { codex_cmd: value, ..c.tmux }, ..c })
    } else if key == "tmux.editor_cmd"@ {
        Ok(ConfigView { tmux: TmuxLayout { editor_cmd: value, ..c.tmux }, ..c })
    } else if key == "tmux.focus_left"@ {
        match parse_bool_spec(value) {
            Ok(b) => Ok(ConfigView { tmux: TmuxLayout { focus_left: b, ..c.tmux }, ..c }),
            Err(e) => Err(e),
        }
    } else {
        Err(GatError::Usage("unknown config key '"@ + key + "'; run `gat config list` to see valid keys"@))
    }
}

/// A configuration with the named layout preset applied (unknown names leave
/// it unchanged).
pub open spec fn apply_layout_spec(c: ConfigView, name: Seq<char>) -> ConfigView {
    match preset_from_name(name) {
        Some(p) => ConfigView { tmux: apply_preset_spec(c.tmux, p), ..c },
        None => c,
    }
}

/// A layout with explicit pane sizes in place of its own; an absent size
/// keeps the layout's value.
pub open spec fn apply_geometry_spec(l: LayoutView, left_width: Option<u8>, bottom_height: Option<u8>) -> LayoutView {
    TmuxLayout {
        left_width: match left_width { Some(w) => w, None => l.left_width },
        bottom_height: match bottom_height { Some(h) => h, None => l.bottom_height },
        ..l
    }
}

/// A configuration with a session's layout choices applied: the named preset
/// as the baseline, then the explicit pane sizes.
pub open spec fn layout_args_spec(c: ConfigView, layout: Option<Seq<char>>, left_width: Option<u8>, bottom_height: Option<u8>) -> ConfigView {
    let c1 = match layout {
        Some(name) => apply_layout_spec(c, name),
        None => c,
    };
    ConfigView { tmux: apply_geometry_spec(c1.tmux, left_width, bottom_height), ..c1 }
}

/// Explicit pane sizes override the layout preset: whatever the preset and
/// the configuration, a given width or height is the one the session gets,
/// and the preset still decides what is not given.
pub proof fn lemma_explicit_geometry_wins(c: ConfigView, layout: Option<Seq<char>>, left_width: Option<u8>, bottom_height: Option<u8>)
    ensures
        left_width matches Some(w) ==> layout_args_spec(c, layout, left_width, bottom_height).tmux.left_width == w,
        bottom_height matches Some(h) ==> layout_args_spec(c, layout, left_width, bottom_height).tmux.bottom_height == h,
        layout_args_spec(c, layout, left_width, bottom_height).tmux.focus_left == layout_args_spec(c, layout, None, None).tmux.focus_left,
        left_width is None ==> layout_args_spec(c, layout, left_width, bottom_height).tmux.left_width
            == layout_args_spec(c, layout, None, None).tmux.left_width,
        bottom_height is None ==> layout_args_spec(c, layout, left_width, bottom_height).tmux.bottom_height
            == layout_args_spec(c, layout, None, None).tmux.bottom_height,
{
}

/// The eleven keys `gat config list` shows, in order.
pub open spec fn config_keys() -> Seq<Seq<char>> {
    seq![
        "ticket_prefix"@, "docker_compose_dir"@, "docker_worktree_mount"@, "docker_service"@,
        "verbose"@, "tmux.left_width"@, "tmux.bottom_height"@, "tmux.shell"@, "tmux.codex_cmd"@,
        "tmux.editor_cmd"@, "tmux.focus_left"@,
    ]
}

impl GatConfig {
    /// Applies a named layout preset; unknown names leave the layout unchanged.
    pub fn apply_layout_preset(&mut self, name: &str)
        ensures
            final(self)@ == apply_layout_spec(old(self)@, name@),
            final(self).templates == old(self).templates,
    {
        match LayoutPreset::from_name(name) {
            Some(preset) => preset.apply(&mut self.tmux),
            None => {},
        }
    }

    /// Applies the layout choices of `gat tmux` and `gat switch`: the named
    /// preset first (unknown names leave the layout unchanged), then the
    /// explicit pane sizes, each of which replaces the preset's value.
    pub fn apply_layout_args(&mut self, layout: Option<&str>, left_width: Option<u8>, bottom_height: Option<u8>)
        ensures
            final(self)@ == layout_args_spec(
                old(self)@,
                match layout { Some(n) => Some(n@), None => None },
                left_width,
                bottom_height,
            ),
            final(self).templates == old(self).templates,
    {
        match layout {
            Some(name) => self.apply_layout_preset(name),
            None => {},
        }
        match left_width {
            Some(w) => self.tmux.left_width = w,
            None => {},
        }
        match bottom_height {
            Some(h) => self.tmux.bottom_height = h,
            None => {},
        }
    }

    /// Returns the value of a dotted config key, or `None` if unset/unknown.
    ///
    /// Recognized keys: `ticket_prefix`, `docker_compose_dir`,
    /// `docker_worktree_mount`, `docker_service`, `verbose`, and the
    /// `tmux.<field>` keys.
    pub fn get_key(&self, key: &str) -> (r: Option<String>)
        ensures
            opt_view(r) == get_key_spec(self@, key@),
    {
        let k = chars_of(key);
        if eq_lit(&k, "ticket_prefix") {
            clone_opt(&self.ticket_prefix)
        } else if eq_lit(&k, "docker_compose_dir") {
            clone_opt(&self.docker_compose_dir)
        } else if eq_lit(&k, "docker_worktree_mount") {
            clone_opt(&self.docker_worktree_mount)
        } else if eq_lit(&k, "docker_service") {
            clone_opt(&self.docker_service)
        } else if eq_lit(&k, "verbose") {
            Some(bool_string(self.verbose))
        } else if eq_lit(&k, "tmux.left_width") {
            Some(decimal_string(self.tmux.left_width as u64))
        } else if eq_lit(&k, "tmux.bottom_height") {
            Some(decimal_string(self.tmux.bottom_height as u64))
        } else if eq_lit(&k, "tmux.shell") {
            Some(string_of(&chars_of(self.tmux.shell.as_str())))
        } else if eq_lit(&k, "tmux.codex_cmd") {
            Some(string_of(&chars_of(self.tmux.codex_cmd.as_str())))
        } else if eq_lit(&k, "tmux.editor_cmd") {
            Some(string_of(&chars_of(self.tmux.editor_cmd.as_str())))
        } else if eq_lit(&k, "tmux.focus_left") {
            Some(bool_string(self.tmux.focus_left))
        } else {
            None
        }
    }

    /// Sets a dotted config key, validating the value; on error nothing changes.
    ///
    /// Returns an error for unknown keys or values that fail validation (for
    /// example a percentage outside 0-100).
    pub fn set_key(&mut self, key: &str, value: &str) -> (r: Result<()>)
        ensures
            match r {
                Ok(()) => set_key_spec(old(self)@, key@, value@) == Ok::<ConfigView, ErrorView>(final(self)@),
                Err(e) => set_key_spec(old(self)@, key@, value@) == Err::<ConfigView, ErrorView>(e@)
                    && final(self)@ == old(self)@,
            },
            final(self).templates == old(self).templates,
    {
        let k = chars_of(key);
        if eq_lit(&k, "ticket_prefix") {
            self.ticket_prefix = non_empty_owned(value);
        } else if eq_lit(&k, "docker_compose_dir") {
            self.docker_compose_dir = non_empty_owned(value);
        } else if eq_lit(&k, "docker_worktree_mount") {
            self.docker_worktree_mount = non_empty_owned(value);
        } else if eq_lit(&k, "docker_service") {
            self.docker_service = non_empty_owned(value);
        } else if eq_lit(&k, "verbose") {
            self.verbose = parse_bool(value)?;
        } else if eq_lit(&k, "tmux.layout") {
            self.apply_layout_preset(value);
        } else if eq_lit(&k, "tmux.left_width") {
            self.tmux.left_width = parse_percent(value)?;
        } else if eq_lit(&k, "tmux.bottom_height") {
            self.tmux.bottom_height = parse_percent(value)?;
        } else if eq_lit(&k, "tmux.shell") {
            self.tmux.shell = string_of(&chars_of(value));
        } else if eq_lit(&k, "tmux.codex_cmd") {
            self.tmux.codex_cmd = string_of(&chars_of(value));
        } else if eq_lit(&k, "tmux.editor_cmd") {
            self.tmux.editor_cmd = string_of(&chars_of(value));
        } else if eq_lit(&k, "tmux.focus_left") {
            self.tmux.focus_left = parse_bool(value)?;
        } else {
            let mut m = String::new();
            push_str(&mut m, "unknown config key '");
            assert(m@ =~= "unknown config key '"@);
            push_str(&mut m, key);
            push_str(&mut m, "'; run `gat config list` to see valid keys");
            return Err(GatError::Usage(m));
        }
        Ok(())
    }

    /// Returns all recognized keys paired with their current values (empty
    /// for unset keys).
    pub fn entries(&self) -> (r: Vec<(&'static str, String)>)
        ensures
            r@.len() == config_keys().len(),
            forall|i: int| 0 <= i < r@.len() ==> (#[trigger] r@[i]).0@ == config_keys()[i]
                && r@[i].1@ == (match get_key_spec(self@, config_keys()[i]) { Some(v) => v, None => Seq::<char>::empty() }),
    {
        let keys: [&'static str; 11] = [
            "ticket_prefix",
            "docker_compose_dir",
            "docker_worktree_mount",
            "docker_service",
            "verbose",
            "tmux.left_width",
            "tmux.bottom_height",
            "tmux.shell",
            "tmux.codex_cmd",
            "tmux.editor_cmd",
            "tmux.focus_left",
        ];
        assert(keys@.map_values(|k: &str| k@) =~= config_keys());
        let mut out: Vec<(&'static str, String)> = Vec::new();
        let mut i: usize = 0;
        while i < 11
            invariant
                i <= 11,
                keys@.map_values(|k: &str| k@) == config_keys(),
                out@.len() == i,
                forall|j: int| 0 <= j < i ==> (#[trigger] out@[j]).0@ == config_keys()[j]
                    && out@[j].1@ == (match get_key_spec(self@, config_keys()[j]) { Some(v) => v, None => Seq::<char>::empty() }),
            decreases 11 - i,
        {
            let k = keys[i];
            assert(k@ == config_keys()[i as int]);
            let v = match self.get_key(k) {
                Some(v) => v,
                None => String::new(),
            };
            out.push((k, v));
            i += 1;
        }
        out
    }
}

/// The recognized config keys are pairwise distinct.
proof fn lemma_keys_distinct()
    ensures
        "ticket_prefix"@ != "docker_compose_dir"@,
        "ticket_prefix"@ != "docker_worktree_mount"@,
        "ticket_prefix"@ != "docker_service"@,
        "ticket_prefix"@ != "verbose"@,
        "ticket_prefix"@ != "tmux.layout"@,
        "ticket_prefix"@ != "tmux.left_width"@,
        "ticket_prefix"@ != "tmux.bottom_height"@,
        "ticket_prefix"@ != "tmux.shell"@,
        "ticket_prefix"@ != "tmux.codex_cmd"@,
        "ticket_prefix"@ != "tmux.editor_cmd"@,
        "ticket_prefix"@ != "tmux.focus_left"@,
        "docker_compose_dir"@ != "docker_worktree_mount"@,
        "docker_compose_dir"@ != "docker_service"@,
        "docker_compose_dir"@ != "verbose"@,
        "docker_compose_dir"@ != "tmux.layout"@,
        "docker_compose_dir"@ != "tmux.left_width"@,
        "docker_compose_dir"@ != "tmux.bottom_height"@,
        "docker_compose_dir"@ != "tmux.shell"@,
        "docker_compose_dir"@ != "tmux.codex_cmd"@,
        "docker_compose_dir"@ != "tmux.editor_cmd"@,
        "docker_compose_dir"@ != "tmux.focus_left"@,
        "docker_worktree_mount"@ != "docker_service"@,
        "docker_worktree_mount"@ != "verbose"@,
        "docker_worktree_mount"@ != "tmux.layout"@,
        "docker_worktree_mount"@ != "tmux.left_width"@,
        "docker_worktree_mount"@ != "tmux.bottom_height"@,
        "docker_worktree_mount"@ != "tmux.shell"@,
        "docker_worktree_mount"@ != "tmux.codex_cmd"@,
        "docker_worktree_mount"@ != "tmux.editor_cmd"@,
        "docker_worktree_mount"@ != "tmux.focus_left"@,
        "docker_service"@ != "verbose"@,
        "docker_service"@ != "tmux.layout"@,
        "docker_service"@ != "tmux.left_width"@,
        "docker_service"@ != "tmux.bottom_height"@,
        "docker_service"@ != "tmux.shell"@,
        "docker_service"@ != "tmux.codex_cmd"@,
        "docker_service"@ != "tmux.editor_cmd"@,
        "docker_service"@ != "tmux.focus_left"@,
        "verbose"@ != "tmux.layout"@,
        "verbose"@ != "tmux.left_width"@,
        "verbose"@ != "tmux.bottom_height"@,
        "verbose"@ != "tmux.shell"@,
        "verbose"@ != "tmux.codex_cmd"@,
        "verbose"@ != "tmux.editor_cmd"@,
        "verbose"@ != "tmux.focus_left"@,
        "tmux.layout"@ != "tmux.left_width"@,
        "tmux.layout"@ != "tmux.bottom_height"@,
        "tmux.layout"@ != "tmux.shell"@,
        "tmux.layout"@ != "tmux.codex_cmd"@,
        "tmux.layout"@ != "tmux.editor_cmd"@,
        "tmux.layout"@ != "tmux.focus_left"@,
        "tmux.left_width"@ != "tmux.bottom_height"@,
        "tmux.left_width"@ != "tmux.shell"@,
        "tmux.left_width"@ != "tmux.codex_cmd"@,
        "tmux.left_width"@ != "tmux.editor_cmd"@,
        "tmux.left_width"@ != "tmux.focus_left"@,
        "tmux.bottom_height"@ != "tmux.shell"@,
        "tmux.bottom_height"@ != "tmux.codex_cmd"@,
        "tmux.bottom_height"@ != "tmux.editor_cmd"@,
        "tmux.bottom_height"@ != "tmux.focus_left"@,
        "tmux.shell"@ != "tmux.codex_cmd"@,
        "tmux.shell"@ != "tmux.editor_cmd"@,
        "tmux.shell"@ != "tmux.focus_left"@,
        "tmux.codex_cmd"@ != "tmux.editor_cmd"@,
        "tmux.codex_cmd"@ != "tmux.focus_left"@,
        "tmux.editor_cmd"@ != "tmux.focus_left"@,
{
    reveal_strlit("ticket_prefix");
    reveal_strlit("docker_compose_dir");
    reveal_strlit("docker_worktree_mount");
    reveal_strlit("docker_service");
    reveal_strlit("verbose");
    reveal_strlit("tmux.layout");
    reveal_strlit("tmux.left_width");
    reveal_strlit("tmux.bottom_height");
    reveal_strlit("tmux.shell");
    reveal_strlit("tmux.codex_cmd");
    reveal_strlit("tmux.editor_cmd");
    reveal_strlit("tmux.focus_left");
    assert("ticket_prefix"@.len() != "docker_compose_dir"@.len());
    assert("ticket_prefix"@.len() != "docker_worktree_mount"@.len());
    assert("ticket_prefix"@.len() != "docker_service"@.len());
    assert("ticket_prefix"@.len() != "verbose"@.len());
    assert("ticket_prefix"@.len() != "tmux.layout"@.len());
    assert("ticket_prefix"@.len() != "tmux.left_width"@.len());
    assert("ticket_prefix"@.len() != "tmux.bottom_height"@.len());
    assert("ticket_prefix"@.len() != "tmux.shell"@.len());
    assert("ticket_prefix"@.len() != "tmux.codex_cmd"@.len());
    assert("ticket_prefix"@.len() != "tmux.editor_cmd"@.len());
    assert("ticket_prefix"@.len() != "tmux.focus_left"@.len());
    assert("docker_compose_dir"@.len() != "docker_worktree_mount"@.len());
    assert("docker_compose_dir"@.len() != "docker_service"@.len());
    assert("docker_compose_dir"@.len() != "verbose"@.len());
    assert("docker_compose_dir"@.len() != "tmux.layout"@.len());
    assert("docker_compose_dir"@.len() != "tmux.left_width"@.len());
    assert("docker_compose_dir"@[0] != "tmux.bottom_height"@[0]);
    assert("docker_compose_dir"@.len() != "tmux.shell"@.len());
    assert("docker_compose_dir"@.len() != "tmux.codex_cmd"@.len());
    assert("docker_compose_dir"@.len() != "tmux.editor_cmd"@.len());
    assert("docker_compose_dir"@.len() != "tmux.focus_left"@.len());
    assert("docker_worktree_mount"@.len() != "docker_service"@.len());
    assert("docker_worktree_mount"@.len() != "verbose"@.len());
    assert("docker_worktree_mount"@.len() != "tmux.layout"@.len());
    assert("docker_worktree_mount"@.len() != "tmux.left_width"@.len());
    assert("docker_worktree_mount"@.len() != "tmux.bottom_height"@.len());
    assert("docker_worktree_mount"@.len() != "tmux.shell"@.len());
    assert("docker_worktree_mount"@.len() != "tmux.codex_cmd"@.len());
    assert("docker_worktree_mount"@.len() != "tmux.editor_cmd"@.len());
    assert("docker_worktree_mount"@.len() != "tmux.focus_left"@.len());
    assert("docker_service"@.len() != "verbose"@.len());
    assert("docker_service"@.len() != "tmux.layout"@.len());
    assert("docker_service"@.len() != "tmux.left_width"@.len());
    assert("docker_service"@.len() != "tmux.bottom_height"@.len());
    assert("docker_service"@.len() != "tmux.shell"@.len());
    assert("docker_service"@[0] != "tmux.codex_cmd"@[0]);
    assert("docker_service"@.len() != "tmux.editor_cmd"@.len());
    assert("docker_service"@.len() != "tmux.focus_left"@.len());
    assert("verbose"@.len() != "tmux.layout"@.len());
    assert("verbose"@.len() != "tmux.left_width"@.len());
    assert("verbose"@.len() != "tmux.bottom_height"@.len());
    assert("verbose"@.len() != "tmux.shell"@.len());
    assert("verbose"@.len() != "tmux.codex_cmd"@.len());
    assert("verbose"@.len() != "tmux.editor_cmd"@.len());
    assert("verbose"@.len() != "tmux.focus_left"@.len());
    assert("tmux.layout"@.len() != "tmux.left_width"@.len());
    assert("tmux.layout"@.len() != "tmux.bottom_height"@.len());
    assert("tmux.layout"@.len() != "tmux.shell"@.len());
    assert("tmux.layout"@.len() != "tmux.codex_cmd"@.len());
    assert("tmux.layout"@.len() != "tmux.editor_cmd"@.len());
    assert("tmux.layout"@.len() != "tmux.focus_left"@.len());
    assert("tmux.left_width"@.len() != "tmux.bottom_height"@.len());
    assert("tmux.left_width"@.len() != "tmux.shell"@.len());
    assert("tmux.left_width"@.len() != "tmux.codex_cmd"@.len());
    assert("tmux.left_width"@[5] != "tmux.editor_cmd"@[5]);
    assert("tmux.left_width"@[5] != "tmux.focus_left"@[5]);
    assert("tmux.bottom_height"@.len() != "tmux.shell"@.len());
    assert("tmux.bottom_height"@.len() != "tmux.codex_cmd"@.len());
    assert("tmux.bottom_height"@.len() != "tmux.editor_cmd"@.len());
    assert("tmux.bottom_height"@.len() != "tmux.focus_left"@.len());
    assert("tmux.shell"@.len() != "tmux.codex_cmd"@.len());
    assert("tmux.shell"@.len() != "tmux.editor_cmd"@.len());
    assert("tmux.shell"@.len() != "tmux.focus_left"@.len());
    assert("tmux.codex_cmd"@.len() != "tmux.editor_cmd"@.len());
    assert("tmux.codex_cmd"@.len() != "tmux.focus_left"@.len());
    assert("tmux.editor_cmd"@[5] != "tmux.focus_left"@[5]);
}

/// Get-after-set: a key accepted by `set_key` reads back as what was stored.
pub proof fn lemma_get_after_set(c: ConfigView, key: Seq<char>, value: Seq<char>)
    requires
        set_key_spec(c, key, value) is Ok,
        key != "tmux.layout"@,
    ensures
        get_key_spec(set_key_spec(c, key, value)->Ok_0, key) == (
            if key == "ticket_prefix"@ || key == "docker_compose_dir"@ || key == "docker_worktree_mount"@ || key == "docker_service"@ {
                non_empty_owned_spec(value)
            } else if key == "verbose"@ || key == "tmux.focus_left"@ {
                Some(bool_text(parse_bool_spec(value)->Ok_0))
            } else if key == "tmux.left_width"@ || key == "tmux.bottom_height"@ {
                Some(decimal(parse_percent_spec(value)->Ok_0 as nat))
            } else {
                Some(value)
            }
        ),
{
    lemma_keys_distinct();
}

/// The sorted template list after a `key = [...]` line in the section of
/// template `name`.
pub open spec fn template_set_spec(t: Seq<(Seq<char>, TemplateView)>, name: Seq<char>, key: Seq<char>, items: Seq<Seq<char>>) -> Seq<(Seq<char>, TemplateView)> {
    let e = template_ensure(t, name);
    let p = template_position(e, name);
    if key == "copy"@ {
        e.update(p, (name, TemplateView { copy: items, ..e[p].1 }))
    } else if key == "symlink"@ {
        e.update(p, (name, TemplateView { symlink: items, ..e[p].1 }))
    } else if key == "run"@ {
        e.update(p, (name, TemplateView { run: items, ..e[p].1 }))
    } else {
        e
    }
}

/// `s` with each `"` escaped as `\"`.
pub open spec fn escape_quotes(s: Seq<char>) -> Seq<char>
    decreases s.len(),
{
    if s.len() == 0 {
        Seq::<char>::empty()
    } else {
        escape_quotes(s.drop_last()) + (if s.last() == '"' { "\\\""@ } else { seq![s.last()] })
    }
}

/// Items rendered as quoted strings joined by `, `.
pub open spec fn quoted_items(items: Seq<Seq<char>>) -> Seq<char>
    decreases items.len(),
{
    if items.len() == 0 {
        Seq::<char>::empty()
    } else if items.len() == 1 {
        "\""@ + escape_quotes(items[0]) + "\""@
    } else {
        quoted_items(items.drop_last()) + ", "@ + "\""@ + escape_quotes(items.last()) + "\""@
    }
}

/// A list of strings as a TOML array literal: `["a", "b"]`.
pub open spec fn toml_string_array_spec(items: Seq<Seq<char>>) -> Seq<char> {
    "["@ + quoted_items(items) + "]"@
}

fn escaped_quotes(s: &str) -> (r: String)
    ensures
        r@ == escape_quotes(s@),
{
    let v = chars_of(s);
    let mut out = String::new();
    let mut i: usize = 0;
    while i < v.len()
        invariant
            i <= v.len(),
            v@ == s@,
            out@ == escape_quotes(v@.take(i as int)),
        decreases v.len() - i,
    {
        assert(v@.take(i + 1).drop_last() == v@.take(i as int));
        if v[i] == '"' {
            push_str(&mut out, "\\\"");
        } else {
            push_char(&mut out, v[i]);
        }
        i += 1;
    }
    assert(v@.take(v.len() as int) == v@);
    out
}

/// Renders a list of strings as a TOML array literal: `["a", "b"]`.
pub fn toml_string_array(items: &[String]) -> (r: String)
    ensures
        r@ == toml_string_array_spec(items@.map_values(|s: String| s@)),
{
    let ghost iv = items@.map_values(|s: String| s@);
    let mut inner = String::new();
    let mut i: usize = 0;
    while i < items.len()
        invariant
            i <= items.len(),
            iv == items@.map_values(|s: String| s@),
            inner@ == quoted_items(iv.take(i as int)),
        decreases items.len() - i,
    {
        assert(iv.take(i + 1).drop_last() == iv.take(i as int));
        if i > 0 {
            push_str(&mut inner, ", ");
        } else {
            assert(inner@ =~= Seq::<char>::empty());
        }
        push_str(&mut inner, "\"");
        push_str(&mut inner, escaped_quotes(items[i].as_str()).as_str());
        push_str(&mut inner, "\"");
        assert(inner@ =~= quoted_items(iv.take(i + 1)));
        i += 1;
    }
    assert(iv.take(items.len() as int) == iv);
    let mut out = String::new();
    push_str(&mut out, "[");
    assert(out@ =~= "["@);
    push_str(&mut out, inner.as_str());
    push_str(&mut out, "]");
    out
}

/// A `key = "value"` line for an optional string, or nothing.
pub open spec fn opt_line(key: Seq<char>, value: Option<Seq<char>>) -> Seq<char> {
    match value {
        Some(v) => key + " = \""@ + v + "\"\n"@,
        None => Seq::<char>::empty(),
    }
}

/// A `key = [...]` line for a non-empty list, or nothing.
pub open spec fn list_line(key: Seq<char>, items: Seq<Seq<char>>) -> Seq<char> {
    if items.len() > 0 {
        key + " = "@ + toml_string_array_spec(items) + "\n"@
    } else {
        Seq::<char>::empty()
    }
}

/// One `[template.<name>]` section.
pub open spec fn template_section(name: Seq<char>, t: TemplateView) -> Seq<char> {
    "\n[template."@ + name + "]\n"@ + list_line("copy"@, t.copy) + list_line("symlink"@, t.symlink)
        + list_line("run"@, t.run)
}

/// The template sections in order.
pub open spec fn template_sections(t: Seq<(Seq<char>, TemplateView)>) -> Seq<char>
    decreases t.len(),
{
    if t.len() == 0 {
        Seq::<char>::empty()
    } else {
        template_sections(t.drop_last()) + template_section(t.last().0, t.last().1)
    }
}

/// The root keys of the file format.
pub open spec fn toml_root(c: ConfigView) -> Seq<char> {
    "# gat configuration\n"@ + opt_line("ticket_prefix"@, c.ticket_prefix)
        + opt_line("docker_compose_dir"@, c.docker_compose_dir)
        + opt_line("docker_worktree_mount"@, c.docker_worktree_mount)
        + opt_line("docker_service"@, c.docker_service) + "verbose = "@ + bool_text(c.verbose) + "\n"@
}

/// One `key = value` line.
pub open spec fn line_of(key: Seq<char>, val: Seq<char>) -> Seq<char> {
    kv_line(key, val).push('\n')
}

/// The `[tmux]` section of the file format, one line per setting.
pub open spec fn toml_tmux(l: LayoutView) -> Seq<char> {
    seq!['\n'] + ("[tmux]"@.push('\n') + (line_of("left_width"@, decimal(l.left_width as nat))
        + (line_of("bottom_height"@, decimal(l.bottom_height as nat)) + (line_of("shell"@, quoted(l.shell))
        + (line_of("codex_cmd"@, quoted(l.codex_cmd)) + (line_of("editor_cmd"@, quoted(l.editor_cmd))
        + line_of("focus_left"@, bool_text(l.focus_left))))))))
}

/// The configuration in the file's TOML format.
pub open spec fn to_toml_spec(c: ConfigView) -> Seq<char> {
    toml_root(c) + toml_tmux(c.tmux) + template_sections(c.templates)
}

fn opt_line_string(key: &str, value: &Option<String>) -> (r: String)
    ensures
        r@ == opt_line(key@, opt_view(*value)),
{
    match value {
        Some(v) => {
            let mut out = String::new();
            push_str(&mut out, key);
            assert(out@ =~= key@);
            push_str(&mut out, " = \"");
            push_str(&mut out, v.as_str());
            push_str(&mut out, "\"\n");
            out
        },
        None => String::new(),
    }
}

fn list_line_string(key: &str, items: &Vec<String>) -> (r: String)
    ensures
        r@ == list_line(key@, strings_view(items@)),
{
    if items.len() > 0 {
        let mut out = String::new();
        push_str(&mut out, key);
        assert(out@ =~= key@);
        push_str(&mut out, " = ");
        push_str(&mut out, toml_string_array(items.as_slice()).as_str());
        push_str(&mut out, "\n");
        out
    } else {
        String::new()
    }
}

fn template_section_string(name: &str, t: &Template) -> (r: String)
    ensures
        r@ == template_section(name@, t@),
{
    let mut out = String::new();
    push_str(&mut out, "\n[template.");
    assert(out@ =~= "\n[template."@);
    push_str(&mut out, name);
    push_str(&mut out, "]\n");
    push_str(&mut out, list_line_string("copy", &t.copy).as_str());
    push_str(&mut out, list_line_string("symlink", &t.symlink).as_str());
    push_str(&mut out, list_line_string("run", &t.run).as_str());
    out
}

fn toml_root_string(c: &GatConfig) -> (r: String)
    ensures
        r@ == toml_root(c@),
{
    let mut out = String::new();
    push_str(&mut out, "# gat configuration\n");
    assert(out@ =~= "# gat configuration\n"@);
    push_str(&mut out, opt_line_string("ticket_prefix", &c.ticket_prefix).as_str());
    push_str(&mut out, opt_line_string("docker_compose_dir", &c.docker_compose_dir).as_str());
    push_str(&mut out, opt_line_string("docker_worktree_mount", &c.docker_worktree_mount).as_str());
    push_str(&mut out, opt_line_string("docker_service", &c.docker_service).as_str());
    push_str(&mut out, "verbose = ");
    push_str(&mut out, bool_string(c.verbose).as_str());
    push_str(&mut out, "\n");
    out
}

fn line_string(key: &str, val: &str) -> (r: String)
    ensures
        r@ == line_of(key@, val@),
{
    let mut out = String::new();
    push_str(&mut out, key);
    assert(out@ =~= key@);
    push_str(&mut out, " = ");
    push_str(&mut out, val);
    push_char(&mut out, '\n');
    out
}

fn quoted_string(v: &str) -> (r: String)
    ensures
        r@ == quoted(v@),
{
    let mut out = String::new();
    push_char(&mut out, '"');
    assert(out@ =~= seq!['"']);
    push_str(&mut out, v);
    push_char(&mut out, '"');
    out
}

fn toml_tmux_string(l: &TmuxLayout) -> (r: String)
    ensures
        r@ == toml_tmux(l@),
{
    let l1 = line_string("left_width", decimal_string(l.left_width as u64).as_str());
    let l2 = line_string("bottom_height", decimal_string(l.bottom_height as u64).as_str());
    let l3 = line_string("shell", quoted_string(l.shell.as_str()).as_str());
    let l4 = line_string("codex_cmd", quoted_string(l.codex_cmd.as_str()).as_str());
    let l5 = line_string("editor_cmd", quoted_string(l.editor_cmd.as_str()).as_str());
    let l6 = line_string("focus_left", bool_string(l.focus_left).as_str());
    let mut out = String::new();
    push_char(&mut out, '\n');
    assert(out@ =~= seq!['\n']);
    push_str(&mut out, "[tmux]");
    push_char(&mut out, '\n');
    push_str(&mut out, l1.as_str());
    push_str(&mut out, l2.as_str());
    push_str(&mut out, l3.as_str());
    push_str(&mut out, l4.as_str());
    push_str(&mut out, l5.as_str());
    push_str(&mut out, l6.as_str());
    assert(out@ =~= toml_tmux(l@));
    out
}

impl GatConfig {
    /// Serializes the configuration to the file's TOML format.
    ///
    /// Only the keys understood by the file parser are emitted, and templates
    /// come out sorted by name, so a written file reads back cleanly.
    pub fn to_toml(&self) -> (r: String)
        ensures
            r@ == to_toml_spec(self@),
    {
        let mut out = toml_root_string(self);
        push_str(&mut out, toml_tmux_string(&self.tmux).as_str());
        let ghost tv = self@.templates;
        let ghost base = out@;
        let mut sections = String::new();
        let mut i: usize = 0;
        while i < self.templates.len()
            invariant
                i <= self.templates.len(),
                tv == self@.templates,
                sections@ == template_sections(tv.take(i as int)),
            decreases self.templates.len() - i,
        {
            assert(tv.take(i + 1).drop_last() == tv.take(i as int));
            let sec = template_section_string(self.templates[i].0.as_str(), &self.templates[i].1);
            push_str(&mut sections, sec.as_str());
            i += 1;
        }
        assert(tv.take(self.templates.len() as int) == tv);
        push_str(&mut out, sections.as_str());
        out
    }
}

/// Which part of the file a line belongs to.
#[derive(Clone, Debug)]
pub enum TomlSection<S = String> {
    /// Top-level keys.
    Root,
    /// The `[tmux]` table.
    Tmux,
    /// A `[template.<name>]` table.
    Template(S),
}

impl View for TomlSection<String> {
    type V = TomlSection<Seq<char>>;

    open spec fn view(&self) -> TomlSection<Seq<char>> {
        match self {
            TomlSection::Root => TomlSection::Root,
            TomlSection::Tmux => TomlSection::Tmux,
            TomlSection::Template(n) => TomlSection::Template(n@),
        }
    }
}

/// The items of a simple TOML string-array value: `["a", "b"]` or a bare
/// string, split on commas, each trimmed and unquoted, empty items dropped.
pub open spec fn parse_string_array_spec(raw: Seq<char>) -> Seq<Seq<char>> {
    let t = trim(raw);
    let inner = if t.len() >= 2 && t[0] == '[' && t.last() == ']' { t.subrange(1, t.len() - 1) } else { t };
    array_items(split(inner, ','))
}

/// Cleaned, non-empty items.
pub open spec fn array_items(pieces: Seq<Seq<char>>) -> Seq<Seq<char>>
    decreases pieces.len(),
{
    if pieces.len() == 0 {
        Seq::<Seq<char>>::empty()
    } else {
        let rest = array_items(pieces.drop_last());
        let item = trim(trim_char(trim(pieces.last()), '"'));
        if item.len() > 0 { rest.push(item) } else { rest }
    }
}

/// Parses a simple TOML string-array value: `["a", "b"]` or a bare string.
///
/// It splits on commas and strips quotes and brackets, which covers the values
/// gat templates use.
pub fn parse_string_array(raw: &str) -> (r: Vec<String>)
    ensures
        strings_view(r@) == parse_string_array_spec(raw@),
{
    let t = trim_chars(&chars_of(raw));
    let inner = if t.len() >= 2 && t[0] == '[' && t[t.len() - 1] == ']' {
        slice_of(&t, 1, t.len() - 1)
    } else {
        slice_of(&t, 0, t.len())
    };
    assert(t@.subrange(0, t.len() as int) == t@);
    let pieces = split_chars(&inner, ',');
    let ghost pv = split(inner@, ',');
    let mut out: Vec<String> = Vec::new();
    let mut i: usize = 0;
    while i < pieces.len()
        invariant
            i <= pieces.len(),
            pieces@.len() == pv.len(),
            forall|k: int| 0 <= k < pv.len() ==> #[trigger] pieces@[k]@ == pv[k],
            strings_view(out@) == array_items(pv.take(i as int)),
        decreases pieces.len() - i,
    {
        assert(pv.take(i + 1).drop_last() == pv.take(i as int));
        let a = trim_chars(&pieces[i]);
        let b = trim_char_chars(&a, '"');
        let item = trim_chars(&b);
        if item.len() > 0 {
            let ghost before = strings_view(out@);
            out.push(string_of(&item));
            assert(strings_view(out@) =~= before.push(item@));
        }
        i += 1;
    }
    assert(pv.take(pieces.len() as int) == pv);
    out
}

/// One line of the file applied to the configuration read so far.
pub open spec fn toml_line(c: ConfigView, section: TomlSection<Seq<char>>, raw_line: Seq<char>) -> (ConfigView, TomlSection<Seq<char>>) {
    let line = trim(raw_line);
    if line.len() == 0 || line[0] == '#' {
        (c, section)
    } else if line.len() >= 2 && line[0] == '[' && line.last() == ']' {
        let header = trim(line.subrange(1, line.len() - 1));
        if starts_with(header, "template."@) {
            let name = trim_char(trim(header.skip(9)), '"');
            (ConfigView { templates: template_ensure(c.templates, name), ..c }, TomlSection::Template(name))
        } else if header == "tmux"@ {
            (c, TomlSection::Tmux)
        } else {
            (c, TomlSection::Root)
        }
    } else {
        match index_of(line, '=') {
            None => (c, section),
            Some(k) => {
                let key = trim(line.take(k));
                let raw_value = trim(line.skip(k + 1));
                let value = trim_char(raw_value, '"');
                (toml_key(c, section, key, raw_value, value), section)
            },
        }
    }
}

/// A `key = value` line applied in its section.
pub open spec fn toml_key(c: ConfigView, section: TomlSection<Seq<char>>, key: Seq<char>, raw_value: Seq<char>, value: Seq<char>) -> ConfigView {
    match section {
        TomlSection::Tmux => {
            if key == "layout"@ {
                apply_layout_spec(c, value)
            } else if key == "left_width"@ {
                ConfigView { tmux: TmuxLayout { left_width: match parse_unsigned(value, 100) { Some(n) => n as u8, None => 55 }, ..c.tmux }, ..c }
            } else if key == "bottom_height"@ {
                ConfigView { tmux: TmuxLayout { bottom_height: match parse_unsigned(value, 100) { Some(n) => n as u8, None => 35 }, ..c.tmux }, ..c }
            } else if key == "shell"@ {
                ConfigView { tmux: TmuxLayout { shell: value, ..c.tmux }, ..c }
            } else if key == "codex_cmd"@ {
                ConfigView { tmux: TmuxLayout { codex_cmd: value, ..c.tmux }, ..c }
            } else if key == "editor_cmd"@ {
                ConfigView { tmux: TmuxLayout { editor_cmd: value, ..c.tmux }, ..c }
            } else if key == "focus_left"@ {
                ConfigView { tmux: TmuxLayout { focus_left: value == "true"@, ..c.tmux }, ..c }
            } else {
                c
            }
        },
        TomlSection::Template(name) => {
            ConfigView { templates: template_set_spec(c.templates, name, key, parse_string_array_spec(raw_value)), ..c }
        },
        TomlSection::Root => {
            if key == "ticket_prefix"@ {
                ConfigView { ticket_prefix: Some(value), ..c }
            } else if key == "docker_compose_dir"@ {
                ConfigView { docker_compose_dir: Some(value), ..c }
            } else if key == "docker_worktree_mount"@ {
                ConfigView { docker_worktree_mount: Some(value), ..c }
            } else if key == "docker_service"@ {
                ConfigView { docker_service: Some(value), ..c }
            } else if key == "verbose"@ {
                ConfigView { verbose: value == "true"@, ..c }
            } else {
                c
            }
        },
    }
}

/// The configuration and section after reading `ls` in order, from the
/// configuration and section `st`.
pub open spec fn toml_fold_from(st: (ConfigView, TomlSection<Seq<char>>), ls: Seq<Seq<char>>) -> (ConfigView, TomlSection<Seq<char>>)
    decreases ls.len(),
{
    if ls.len() == 0 {
        st
    } else {
        let (c2, sec) = toml_fold_from(st, ls.drop_last());
        toml_line(c2, sec, ls.last())
    }
}

/// The configuration and section after reading `ls` in order, starting at
/// the top level.
pub open spec fn toml_fold(c: ConfigView, ls: Seq<Seq<char>>) -> (ConfigView, TomlSection<Seq<char>>) {
    toml_fold_from((c, TomlSection::Root), ls)
}

/// The configuration a file's text describes, on top of the built-in
/// configuration with the given default shell.
pub open spec fn parse_config_spec(s: Seq<char>, shell: Seq<char>) -> ConfigView {
    toml_fold(default_config(shell), lines(s)).0
}

fn owned_str(s: &[char]) -> (r: String)
    ensures
        r@ == s@,
{
    string_of(s)
}

impl GatConfig {
    fn apply_key(&mut self, section: &TomlSection, key: &[char], raw_value: &[char], value: &[char])
        requires
            old(self).wf(),
        ensures
            final(self).wf(),
            final(self)@ == toml_key(old(self)@, section@, key@, raw_value@, value@),
            old(self).tmux.left_width <= 100 ==> final(self).tmux.left_width <= 100,
            old(self).tmux.bottom_height <= 100 ==> final(self).tmux.bottom_height <= 100,
    {
        match section {
            TomlSection::Tmux => {
                if eq_lit(key, "layout") {
                    self.apply_layout_preset(owned_str(value).as_str());
                } else if eq_lit(key, "left_width") {
                    self.tmux.left_width = match parse_unsigned_chars(value, 100) { Some(n) => n as u8, None => 55 };
                } else if eq_lit(key, "bottom_height") {
                    self.tmux.bottom_height = match parse_unsigned_chars(value, 100) { Some(n) => n as u8, None => 35 };
                } else if eq_lit(key, "shell") {
                    self.tmux.shell = owned_str(value);
                } else if eq_lit(key, "codex_cmd") {
                    self.tmux.codex_cmd = owned_str(value);
                } else if eq_lit(key, "editor_cmd") {
                    self.tmux.editor_cmd = owned_str(value);
                } else if eq_lit(key, "focus_left") {
                    self.tmux.focus_left = eq_lit(value, "true");
                }
            },
            TomlSection::Template(name) => {
                let items = parse_string_array(owned_str(raw_value).as_str());
                self.set_template_field(&chars_of(name.as_str()), key, items);
            },
            TomlSection::Root => {
                if eq_lit(key, "ticket_prefix") {
                    self.ticket_prefix = Some(owned_str(value));
                } else if eq_lit(key, "docker_compose_dir") {
                    self.docker_compose_dir = Some(owned_str(value));
                } else if eq_lit(key, "docker_worktree_mount") {
                    self.docker_worktree_mount = Some(owned_str(value));
                } else if eq_lit(key, "docker_service") {
                    self.docker_service = Some(owned_str(value));
                } else if eq_lit(key, "verbose") {
                    self.verbose = eq_lit(value, "true");
                }
            },
        }
    }
}

/// Parses the file format into a configuration.
///
/// The reader is deliberately small: blank lines and `#` comments are
/// skipped, `[tmux]` and `[template.<name>]` open sections, other headers
/// return to the top level, and `key = value` lines set known keys (unknown
/// keys and lines without `=` are ignored). Values start from the built-in
/// configuration with `default_shell`. Reading never fails.
pub fn from_str(s: &str, default_shell: &str) -> (r: core::result::Result<GatConfig, String>)
    ensures
        r matches Ok(c) && c@ == parse_config_spec(s@, default_shell@) && c.wf(),
        r matches Ok(c) && c.tmux.left_width <= 100 && c.tmux.bottom_height <= 100,
{
    let mut config = GatConfig::with_shell(default_shell);
    let mut section: TomlSection = TomlSection::Root;
    let ls = lines_chars(&chars_of(s));
    let ghost lv = lines(s@);
    let ghost start = config@;
    let mut i: usize = 0;
    while i < ls.len()
        invariant
            i <= ls.len(),
            ls@.len() == lv.len(),
            forall|k: int| 0 <= k < lv.len() ==> #[trigger] ls@[k]@ == lv[k],
            start == default_config(default_shell@),
            config.wf(),
            config.tmux.left_width <= 100,
            config.tmux.bottom_height <= 100,
            (config@, section@) == toml_fold(start, lv.take(i as int)),
        decreases ls.len() - i,
    {
        assert(lv.take(i + 1).drop_last() == lv.take(i as int));
        assert(lv.take(i + 1).last() == lv[i as int]);
        let line = trim_chars(&ls[i]);
        if line.len() == 0 || line[0] == '#' {
        } else if line.len() >= 2 && line[0] == '[' && line[line.len() - 1] == ']' {
            let header = trim_chars(&slice_of(&line, 1, line.len() - 1));
            if has_prefix_lit(&header, "template.") {
                proof { reveal_strlit("template."); }
                let rest = trim_chars(&slice_of(&header, 9, header.len()));
                assert(slice_of_spec(header@, 9) == header@.skip(9)) by {
                    assert(header@.subrange(9, header@.len() as int) =~= header@.skip(9));
                }
                let name = trim_char_chars(&rest, '"');
                let _ = config.ensure_template(&name);
                section = TomlSection::Template(string_of(&name));
            } else if eq_lit(&header, "tmux") {
                section = TomlSection::Tmux;
            } else {
                section = TomlSection::Root;
            }
        } else {
            match first_index_of(&line, '=') {
                None => {},
                Some(k) => {
                    let key = trim_chars(&slice_of(&line, 0, k));
                    let raw_value = trim_chars(&slice_of(&line, k + 1, line.len()));
                    let value = trim_char_chars(&raw_value, '"');
                    assert(line@.subrange(0, k as int) =~= line@.take(k as int));
                    assert(line@.subrange(k + 1, line@.len() as int) =~= line@.skip(k + 1));
                    config.apply_key(&section, &key, &raw_value, &value);
                },
            }
        }
        i += 1;
    }
    assert(lv.take(ls.len() as int) == lv);
    Ok(config)
}

/// `s` from index `n` on.
pub open spec fn slice_of_spec(s: Seq<char>, n: int) -> Seq<char> {
    s.subrange(n, s.len() as int)
}

/// Values read from one configuration layer above the file: `gat.*` Git
/// config keys or `GAT_*` environment variables (unset or empty values are
/// `None`).
#[derive(Clone, Debug)]
pub struct ConfigOverlay {
    pub ticket_prefix: Option<String>,
    pub docker_compose_dir: Option<String>,
    pub docker_worktree_mount: Option<String>,
    pub docker_service: Option<String>,
    pub tmux_layout: Option<String>,
    pub tmux_shell: Option<String>,
    pub tmux_codex_cmd: Option<String>,
    pub tmux_editor_cmd: Option<String>,
    pub tmux_left_width: Option<String>,
    pub tmux_bottom_height: Option<String>,
}

/// A percentage override: applied only when it parses as a `u8` of at most 100.
pub open spec fn percent_override(current: u8, value: Option<Seq<char>>) -> u8 {
    match value {
        Some(v) => match parse_unsigned(v, 255) {
            Some(n) => if n <= 100 { n as u8 } else { current },
            None => current,
        },
        None => current,
    }
}

/// `value` when present, else `current`.
pub open spec fn or_keep(current: Option<Seq<char>>, value: Option<Seq<char>>) -> Option<Seq<char>> {
    match value {
        Some(v) => Some(v),
        None => current,
    }
}

/// `value` when present, else `current`.
pub open spec fn or_keep_text(current: Seq<char>, value: Option<Seq<char>>) -> Seq<char> {
    match value {
        Some(v) => v,
        None => current,
    }
}

/// A configuration with one overlay merged in: set values win, a layout preset
/// applies before explicit geometry, and invalid percentages are ignored.
pub open spec fn merge_overlay_spec(c: ConfigView, o: ConfigOverlay) -> ConfigView {
    let c1 = ConfigView {
        ticket_prefix: or_keep(c.ticket_prefix, opt_view(o.ticket_prefix)),
        docker_compose_dir: or_keep(c.docker_compose_dir, opt_view(o.docker_compose_dir)),
        docker_worktree_mount: or_keep(c.docker_worktree_mount, opt_view(o.docker_worktree_mount)),
        docker_service: or_keep(c.docker_service, opt_view(o.docker_service)),
        ..c
    };
    let c2 = match opt_view(o.tmux_layout) {
        Some(l) => apply_layout_spec(c1, l),
        None => c1,
    };
    ConfigView {
        tmux: TmuxLayout {
            shell: or_keep_text(c2.tmux.shell, opt_view(o.tmux_shell)),
            codex_cmd: or_keep_text(c2.tmux.codex_cmd, opt_view(o.tmux_codex_cmd)),
            editor_cmd: or_keep_text(c2.tmux.editor_cmd, opt_view(o.tmux_editor_cmd)),
            left_width: percent_override(c2.tmux.left_width, opt_view(o.tmux_left_width)),
            bottom_height: percent_override(c2.tmux.bottom_height, opt_view(o.tmux_bottom_height)),
            ..c2.tmux
        },
        ..c2
    }
}

/// The configuration the config file alone gives (the built-in one when
/// there is no file).
pub open spec fn file_layer(file: Option<Seq<char>>, shell: Seq<char>) -> ConfigView {
    match file {
        Some(text) => parse_config_spec(text, shell),
        None => default_config(shell),
    }
}

/// The configuration built from its layers: the file (or the built-in
/// defaults), then the repository's Git settings, then the environment.
pub open spec fn loaded_config(
    file: Option<Seq<char>>,
    git: Option<ConfigOverlay>,
    env: ConfigOverlay,
    env_verbose: bool,
    shell: Seq<char>,
) -> ConfigView {
    let base = file_layer(file, shell);
    let with_git = match git {
        Some(o) => merge_overlay_spec(base, o),
        None => base,
    };
    let merged = merge_overlay_spec(with_git, env);
    ConfigView { verbose: merged.verbose || env_verbose, ..merged }
}

/// Layer priority: a value set in the environment wins over the repository's
/// Git config, which wins over the config file, which wins over the built-in
/// default. Shown for the ticket prefix, the Docker service and the tmux
/// shell; `GAT_VERBOSE` turns verbose output on whatever the other layers say.
pub proof fn lemma_layer_priority(
    file: Option<Seq<char>>,
    git: Option<ConfigOverlay>,
    env: ConfigOverlay,
    env_verbose: bool,
    shell: Seq<char>,
)
    ensures
        ({
            let c = loaded_config(file, git, env, env_verbose, shell);
            let git_prefix = match git { Some(g) => opt_view(g.ticket_prefix), None => None };
            let git_service = match git { Some(g) => opt_view(g.docker_service), None => None };
            let git_shell = match git { Some(g) => opt_view(g.tmux_shell), None => None };
            &&& c.ticket_prefix == match opt_view(env.ticket_prefix) {
                Some(v) => Some(v),
                None => match git_prefix {
                    Some(v) => Some(v),
                    None => file_layer(file, shell).ticket_prefix,
                },
            }
            &&& c.docker_service == match opt_view(env.docker_service) {
                Some(v) => Some(v),
                None => match git_service {
                    Some(v) => Some(v),
                    None => file_layer(file, shell).docker_service,
                },
            }
            &&& c.tmux.shell == match opt_view(env.tmux_shell) {
                Some(v) => v,
                None => match git_shell {
                    Some(v) => v,
                    None => file_layer(file, shell).tmux.shell,
                },
            }
            &&& env_verbose ==> c.verbose
        }),
{
    let base = file_layer(file, shell);
    assert forall|c: ConfigView, l: Seq<char>| (#[trigger] apply_layout_spec(c, l)).ticket_prefix == c.ticket_prefix
        && apply_layout_spec(c, l).docker_service == c.docker_service
        && apply_layout_spec(c, l).tmux.shell == c.tmux.shell by {
        match preset_from_name(l) {
            Some(p) => {},
            None => {},
        }
    }
}

fn percent_or(current: u8, value: &Option<String>) -> (r: u8)
    ensures
        r == percent_override(current, opt_view(*value)),
{
    match value {
        Some(v) => match parse_unsigned_chars(&chars_of(v.as_str()), 255) {
            Some(n) => if n <= 100 { n as u8 } else { current },
            None => current,
        },
        None => current,
    }
}

fn take_if_set(current: &mut Option<String>, value: &Option<String>)
    ensures
        opt_view(*final(current)) == or_keep(opt_view(*old(current)), opt_view(*value)),
{
    match value {
        Some(v) => { *current = Some(string_of(&chars_of(v.as_str()))); },
        None => {},
    }
}

fn text_if_set(current: &mut String, value: &Option<String>)
    ensures
        final(current)@ == or_keep_text(old(current)@, opt_view(*value)),
{
    match value {
        Some(v) => { *current = string_of(&chars_of(v.as_str())); },
        None => {},
    }
}

impl GatConfig {
    fn merge_overlay(&mut self, overlay: &ConfigOverlay)
        requires
            old(self).wf(),
        ensures
            final(self).wf(),
            final(self)@ == merge_overlay_spec(old(self)@, *overlay),
    {
        take_if_set(&mut self.ticket_prefix, &overlay.ticket_prefix);
        take_if_set(&mut self.docker_compose_dir, &overlay.docker_compose_dir);
        take_if_set(&mut self.docker_worktree_mount, &overlay.docker_worktree_mount);
        take_if_set(&mut self.docker_service, &overlay.docker_service);
        match &overlay.tmux_layout {
            Some(l) => self.apply_layout_preset(l.as_str()),
            None => {},
        }
        text_if_set(&mut self.tmux.shell, &overlay.tmux_shell);
        text_if_set(&mut self.tmux.codex_cmd, &overlay.tmux_codex_cmd);
        text_if_set(&mut self.tmux.editor_cmd, &overlay.tmux_editor_cmd);
        self.tmux.left_width = percent_or(self.tmux.left_width, &overlay.tmux_left_width);
        self.tmux.bottom_height = percent_or(self.tmux.bottom_height, &overlay.tmux_bottom_height);
    }

    /// Merges the repository's `gat.*` Git config values.
    pub fn merge_from_git_config(&mut self, overlay: &ConfigOverlay)
        requires
            old(self).wf(),
        ensures
            final(self).wf(),
            final(self)@ == merge_overlay_spec(old(self)@, *overlay),
    {
        self.merge_overlay(overlay);
    }

    /// Merges the `GAT_*` environment values; `verbose_set` tells whether
    /// `GAT_VERBOSE` is set at all, which turns verbose output on.
    pub fn merge_from_env(&mut self, overlay: &ConfigOverlay, verbose_set: bool)
        requires
            old(self).wf(),
        ensures
            final(self).wf(),
            final(self)@ == (ConfigView {
                verbose: merge_overlay_spec(old(self)@, *overlay).verbose || verbose_set,
                ..merge_overlay_spec(old(self)@, *overlay)
            }),
    {
        self.merge_overlay(overlay);
        if verbose_set {
            self.verbose = true;
        }
    }

    /// Loads configuration from its layers, highest priority last: the
    /// built-in defaults (with `default_shell`), the config file's text (when
    /// the file exists), the repository's Git config (inside a repository),
    /// then the environment.
    pub fn load(
        file_contents: Option<&str>,
        git: Option<&ConfigOverlay>,
        env: &ConfigOverlay,
        env_verbose: bool,
        default_shell: &str,
    ) -> (r: Self)
        ensures
            r.wf(),
            r.tmux.left_width <= 100,
            r.tmux.bottom_height <= 100,
            r@ == loaded_config(
                match file_contents { Some(text) => Some(text@), None => None },
                match git { Some(o) => Some(*o), None => None },
                *env,
                env_verbose,
                default_shell@,
            ),
    {
        let mut config = match file_contents {
            Some(text) => match from_str(text, default_shell) {
                Ok(c) => c,
                Err(_) => GatConfig::with_shell(default_shell),
            },
            None => GatConfig::with_shell(default_shell),
        };
        match git {
            Some(o) => config.merge_from_git_config(o),
            None => {},
        }
        config.merge_from_env(env, env_verbose);
        config
    }

    /// Loads the config file alone, with no Git or environment overlay (what
    /// `gat config set` rewrites): `file_contents` is the file's text, `None`
    /// when there is no file, which gives the built-in configuration.
    pub fn load_from_file_public(file_contents: Option<&str>, default_shell: &str) -> (r: Result<Self>)
        ensures
            r matches Ok(c) && c.wf() && c@ == match file_contents {
                Some(text) => parse_config_spec(text@, default_shell@),
                None => default_config(default_shell@),
            },
            r matches Ok(c) && c.tmux.left_width <= 100 && c.tmux.bottom_height <= 100,
    {
        match file_contents {
            None => Ok(GatConfig::with_shell(default_shell)),
            Some(text) => match from_str(text, default_shell) {
                Ok(c) => Ok(c),
                Err(e) => {
                    let mut m = "invalid config file: ".to_string();
                    push_str(&mut m, e.as_str());
                    Err(GatError::Io(m))
                },
            },
        }
    }
}

/// The configuration root: `$XDG_CONFIG_HOME/gat`, else `$HOME/.config/gat`
/// (unset and empty variables are ignored).
pub open spec fn config_root_spec(xdg: Option<Seq<char>>, home: Option<Seq<char>>) -> core::result::Result<Seq<char>, ErrorView> {
    match xdg {
        Some(x) if x.len() > 0 => Ok(join_path(x, "gat"@)),
        _ => match home {
            Some(h) if h.len() > 0 => Ok(join_path(join_path(h, ".config"@), "gat"@)),
            _ => Err(GatError::NotFound("HOME is not set; cannot resolve gat config directory"@)),
        },
    }
}

/// Returns the configuration root directory from `XDG_CONFIG_HOME` and `HOME`.
pub fn gat_config_root(xdg: Option<&str>, home: Option<&str>) -> (r: Result<String>)
    ensures
        result_view(r) == config_root_spec(
            match xdg { Some(x) => Some(x@), None => None },
            match home { Some(h) => Some(h@), None => None },
        ),
{
    match xdg {
        Some(x) if chars_of(x).len() > 0 => {
            return Ok(join(x, "gat"));
        },
        _ => {},
    }
    match home {
        Some(h) if chars_of(h).len() > 0 => {
            let c = join(h, ".config");
            Ok(join(c.as_str(), "gat"))
        },
        _ => Err(GatError::NotFound(String::from_str("HOME is not set; cannot resolve gat config directory"))),
    }
}

/// Returns the configuration file path under the configuration root.
pub fn config_file_path(xdg: Option<&str>, home: Option<&str>) -> (r: Result<String>)
    ensures
        result_view(r) == match config_root_spec(
            match xdg { Some(x) => Some(x@), None => None },
            match home { Some(h) => Some(h@), None => None },
        ) {
            Ok(root) => Ok(join_path(root, "config.toml"@)),
            Err(e) => Err(e),
        },
{
    let root = gat_config_root(xdg, home)?;
    Ok(join(root.as_str(), "config.toml"))
}

// ---------------------------------------------------------------------------
// Reading back what was written
// ---------------------------------------------------------------------------

/// A value the `key = "value"` line format carries unchanged: on one line,
/// and neither starting nor ending with a double quote.
pub open spec fn line_safe(v: Seq<char>) -> bool {
    &&& forall|i: int| 0 <= i < v.len() ==> #[trigger] v[i] != '\n'
    &&& v.len() > 0 ==> v[0] != '"' && v.last() != '"'
}

/// An optional value the line format carries unchanged.
pub open spec fn opt_line_safe(v: Option<Seq<char>>) -> bool {
    match v {
        Some(x) => line_safe(x),
        None => true,
    }
}

/// A key usable on the left of `key = value`.
pub open spec fn plain_key(k: Seq<char>) -> bool {
    &&& k.len() > 0
    &&& k[0] != '#'
    &&& k[0] != '['
    &&& forall|i: int| 0 <= i < k.len() ==> !is_ws(#[trigger] k[i]) && k[i] != '=' && k[i] != '\n'
}

/// The text of a `key = value` line.
pub open spec fn kv_line(key: Seq<char>, val: Seq<char>) -> Seq<char> {
    key + " = "@ + val
}

/// `v` in double quotes.
pub open spec fn quoted(v: Seq<char>) -> Seq<char> {
    seq!['"'] + v + seq!['"']
}

proof fn lemma_fold_concat(st: (ConfigView, TomlSection<Seq<char>>), a: Seq<Seq<char>>, b: Seq<Seq<char>>)
    ensures
        toml_fold_from(st, a + b) == toml_fold_from(toml_fold_from(st, a), b),
    decreases b.len(),
{
    if b.len() == 0 {
        assert(a + b =~= a);
    } else {
        lemma_fold_concat(st, a, b.drop_last());
        assert((a + b).drop_last() =~= a + b.drop_last());
        assert((a + b).last() == b.last());
    }
}

/// Reading a text piece by piece: a first piece (empty or ending a line),
/// then the rest.
proof fn lemma_fold_text(st: (ConfigView, TomlSection<Seq<char>>), p: Seq<char>, rest: Seq<char>)
    requires
        p.len() == 0 || p.last() == '\n',
    ensures
        toml_fold_from(st, lines(p + rest)) == toml_fold_from(toml_fold_from(st, lines(p)), lines(rest)),
{
    lemma_lines_concat(p, rest);
    lemma_fold_concat(st, lines(p), lines(rest));
}

/// A line's text read alone.
proof fn lemma_fold_line(st: (ConfigView, TomlSection<Seq<char>>), x: Seq<char>)
    requires
        forall|i: int| 0 <= i < x.len() ==> x[i] != '\n',
        x.len() > 0 ==> x.last() != '\r',
    ensures
        toml_fold_from(st, lines(x.push('\n'))) == toml_line(st.0, st.1, x),
{
    lemma_lines_single(x);
    let ls = seq![x];
    assert(ls.drop_last() =~= Seq::<Seq<char>>::empty());
    assert(ls.last() == x);
    assert(toml_fold_from(st, ls.drop_last()) == st);
    assert(toml_fold_from(st, ls) == toml_line(st.0, st.1, x));
}

/// How a `key = value` line is read.
proof fn lemma_key_line(c: ConfigView, sec: TomlSection<Seq<char>>, key: Seq<char>, val: Seq<char>)
    requires
        plain_key(key),
        val.len() > 0,
        !is_ws(val[0]),
        !is_ws(val.last()),
    ensures
        toml_line(c, sec, kv_line(key, val)) == (toml_key(c, sec, key, val, trim_char(val, '"')), sec),
{
    reveal_strlit(" = ");
    let line = kv_line(key, val);
    let k = key.len() as int;
    assert(line.len() == k + 3 + val.len());
    assert(line[0] == key[0]);
    assert(!is_ws(key[0]));
    assert(line.last() == val.last());
    lemma_trim_id(line);
    assert(line[k] == ' ' && line[k + 1] == '=');
    assert forall|j: int| 0 <= j < k + 1 implies line[j] != '=' by {
        if j < k {
            assert(line[j] == key[j]);
        }
    }
    lemma_index_of(line, '=', k + 1);
    let left = line.take(k + 1);
    assert(left =~= key.push(' '));
    assert(trim_start(left) == left);
    assert(left.drop_last() =~= key);
    assert(is_ws(' '));
    assert(trim_end(left) == trim_end(key));
    assert(!is_ws(key.last())) by {
        assert(key.last() == key[k - 1]);
    }
    assert(trim_end(key) == key);
    let right = line.skip(k + 2);
    assert(right =~= seq![' '] + val);
    assert(right.drop_first() =~= val);
    assert(trim_start(right) == trim_start(val));
    assert(trim_start(val) == val);
    assert(trim_end(val) == val);
    assert(trim(right) == val);
    assert(trim(left) == key);
}

/// Quotes come off a quoted value the line format carries.
proof fn lemma_unquote(v: Seq<char>)
    requires
        line_safe(v),
    ensures
        trim_char(quoted(v), '"') == v,
        quoted(v).len() > 0,
        !is_ws(quoted(v)[0]),
        !is_ws(quoted(v).last()),
{
    let q = quoted(v);
    assert(q.drop_first() =~= v.push('"'));
    if v.len() > 0 {
        assert(v.push('"')[0] == v[0]);
        assert(trim_start_char(v.push('"'), '"') == v.push('"'));
        assert(v.push('"').drop_last() =~= v);
        assert(trim_end_char(v, '"') == v);
    } else {
        let one = v.push('"');
        assert(one.len() == 1 && one[0] == '"');
        assert(one.drop_first() =~= Seq::<char>::empty());
        assert(trim_start_char(one.drop_first(), '"') =~= Seq::<char>::empty());
        assert(trim_start_char(one, '"') =~= Seq::<char>::empty());
        assert(trim_end_char(Seq::<char>::empty(), '"') =~= Seq::<char>::empty());
        assert(v =~= Seq::<char>::empty());
    }
}

/// Plain text (no quote at either end) is left alone by unquoting.
proof fn lemma_unquote_plain(v: Seq<char>)
    requires
        v.len() > 0,
        v[0] != '"',
        v.last() != '"',
    ensures
        trim_char(v, '"') == v,
{
}

/// Reading a `key = value` line followed by more text.
proof fn lemma_fold_kv(st: (ConfigView, TomlSection<Seq<char>>), key: Seq<char>, val: Seq<char>, rest: Seq<char>)
    requires
        plain_key(key),
        val.len() > 0,
        !is_ws(val[0]),
        !is_ws(val.last()),
        forall|i: int| 0 <= i < val.len() ==> val[i] != '\n',
    ensures
        toml_fold_from(st, lines(kv_line(key, val).push('\n') + rest))
            == toml_fold_from((toml_key(st.0, st.1, key, val, trim_char(val, '"')), st.1), lines(rest)),
{
    reveal_strlit(" = ");
    let x = kv_line(key, val);
    assert forall|i: int| 0 <= i < x.len() implies x[i] != '\n' by {
        if i < key.len() {
            assert(x[i] == key[i]);
        } else if i >= key.len() + 3 {
            assert(x[i] == val[i - key.len() - 3]);
        }
    }
    assert(x.last() == val.last());
    assert(is_ws('\r'));
    lemma_fold_text(st, x.push('\n'), rest);
    lemma_fold_line(st, x);
    lemma_key_line(st.0, st.1, key, val);
}


/// Reading an optional `key = "value"` line (no line when unset).
proof fn lemma_fold_opt(st: (ConfigView, TomlSection<Seq<char>>), key: Seq<char>, v: Option<Seq<char>>, rest: Seq<char>)
    requires
        plain_key(key),
        opt_line_safe(v),
    ensures
        toml_fold_from(st, lines(opt_line(key, v) + rest)) == match v {
            Some(x) => toml_fold_from((toml_key(st.0, st.1, key, quoted(x), x), st.1), lines(rest)),
            None => toml_fold_from(st, lines(rest)),
        },
{
    match v {
        Some(x) => {
            lemma_unquote(x);
            assert(opt_line(key, Some(x)) =~= kv_line(key, quoted(x)).push('\n')) by {
                reveal_strlit(" = \"");
                reveal_strlit("\"\n");
                reveal_strlit(" = ");
            }
            let q = quoted(x);
            assert forall|i: int| 0 <= i < q.len() implies q[i] != '\n' by {
                if 0 < i < q.len() - 1 {
                    assert(q[i] == x[i - 1]);
                }
            }
            lemma_fold_kv(st, key, q, rest);
        },
        None => {
            assert(opt_line(key, None) + rest =~= rest);
        },
    }
}

/// The keys the file format writes.
proof fn lemma_written_keys_plain()
    ensures
        plain_key("ticket_prefix"@),
        plain_key("docker_compose_dir"@),
        plain_key("docker_worktree_mount"@),
        plain_key("docker_service"@),
        plain_key("verbose"@),
        plain_key("left_width"@),
        plain_key("bottom_height"@),
        plain_key("shell"@),
        plain_key("codex_cmd"@),
        plain_key("editor_cmd"@),
        plain_key("focus_left"@),
{
    reveal_strlit("ticket_prefix");
    reveal_strlit("docker_compose_dir");
    reveal_strlit("docker_worktree_mount");
    reveal_strlit("docker_service");
    reveal_strlit("verbose");
    reveal_strlit("left_width");
    reveal_strlit("bottom_height");
    reveal_strlit("shell");
    reveal_strlit("codex_cmd");
    reveal_strlit("editor_cmd");
    reveal_strlit("focus_left");
}

/// `true` and `false` read back as themselves.
proof fn lemma_bool_text(b: bool)
    ensures
        bool_text(b).len() > 0,
        !is_ws(bool_text(b)[0]),
        !is_ws(bool_text(b).last()),
        forall|i: int| 0 <= i < bool_text(b).len() ==> #[trigger] bool_text(b)[i] != '\n',
        trim_char(bool_text(b), '"') == bool_text(b),
        (bool_text(b) == "true"@) == b,
{
    reveal_strlit("true");
    reveal_strlit("false");
    lemma_unquote_plain(bool_text(b));
}


/// The top-level part of the file as a sequence of lines.
proof fn lemma_root_text(c: ConfigView, rest: Seq<char>)
    ensures
        toml_root(c) + rest == "# gat configuration"@.push('\n') + (opt_line("ticket_prefix"@, c.ticket_prefix)
            + (opt_line("docker_compose_dir"@, c.docker_compose_dir) + (opt_line("docker_worktree_mount"@, c.docker_worktree_mount)
            + (opt_line("docker_service"@, c.docker_service) + (kv_line("verbose"@, bool_text(c.verbose)).push('\n') + rest))))),
{
    reveal_strlit("# gat configuration\n");
    reveal_strlit("# gat configuration");
    reveal_strlit("verbose = ");
    reveal_strlit("verbose");
    reveal_strlit(" = ");
    reveal_strlit("\n");
    assert(toml_root(c) + rest =~= "# gat configuration"@.push('\n') + (opt_line("ticket_prefix"@, c.ticket_prefix)
            + (opt_line("docker_compose_dir"@, c.docker_compose_dir) + (opt_line("docker_worktree_mount"@, c.docker_worktree_mount)
            + (opt_line("docker_service"@, c.docker_service) + (kv_line("verbose"@, bool_text(c.verbose)).push('\n') + rest))))));
}

/// What each top-level key line sets.
proof fn lemma_root_keys(d: ConfigView, raw: Seq<char>, x: Seq<char>)
    ensures
        toml_key(d, TomlSection::Root, "ticket_prefix"@, raw, x) == (ConfigView { ticket_prefix: Some(x), ..d }),
        toml_key(d, TomlSection::Root, "docker_compose_dir"@, raw, x) == (ConfigView { docker_compose_dir: Some(x), ..d }),
        toml_key(d, TomlSection::Root, "docker_worktree_mount"@, raw, x) == (ConfigView { docker_worktree_mount: Some(x), ..d }),
        toml_key(d, TomlSection::Root, "docker_service"@, raw, x) == (ConfigView { docker_service: Some(x), ..d }),
        toml_key(d, TomlSection::Root, "verbose"@, raw, x) == (ConfigView { verbose: x == "true"@, ..d }),
{
    reveal_strlit("ticket_prefix");
    reveal_strlit("docker_compose_dir");
    reveal_strlit("docker_worktree_mount");
    reveal_strlit("docker_service");
    reveal_strlit("verbose");
    assert("docker_compose_dir"@ != "ticket_prefix"@) by {
        assert("docker_compose_dir"@.len() != "ticket_prefix"@.len());
    }
    assert("docker_worktree_mount"@ != "ticket_prefix"@) by {
        assert("docker_worktree_mount"@.len() != "ticket_prefix"@.len());
    }
    assert("docker_worktree_mount"@ != "docker_compose_dir"@) by {
        assert("docker_worktree_mount"@.len() != "docker_compose_dir"@.len());
    }
    assert("docker_service"@ != "ticket_prefix"@) by {
        assert("docker_service"@.len() != "ticket_prefix"@.len());
    }
    assert("docker_service"@ != "docker_compose_dir"@) by {
        assert("docker_service"@.len() != "docker_compose_dir"@.len());
    }
    assert("docker_service"@ != "docker_worktree_mount"@) by {
        assert("docker_service"@.len() != "docker_worktree_mount"@.len());
    }
    assert("verbose"@ != "ticket_prefix"@) by {
        assert("verbose"@.len() != "ticket_prefix"@.len());
    }
    assert("verbose"@ != "docker_compose_dir"@) by {
        assert("verbose"@.len() != "docker_compose_dir"@.len());
    }
    assert("verbose"@ != "docker_worktree_mount"@) by {
        assert("verbose"@.len() != "docker_worktree_mount"@.len());
    }
    assert("verbose"@ != "docker_service"@) by {
        assert("verbose"@.len() != "docker_service"@.len());
    }
}

/// The comment line that opens the file changes nothing.
proof fn lemma_head_line(st: (ConfigView, TomlSection<Seq<char>>), rest: Seq<char>)
    ensures
        toml_fold_from(st, lines("# gat configuration"@.push('\n') + rest)) == toml_fold_from(st, lines(rest)),
{
    reveal_strlit("# gat configuration");
    let head = "# gat configuration"@;
    lemma_trim_id(head);
    lemma_fold_text(st, head.push('\n'), rest);
    lemma_fold_line(st, head);
}

/// The top-level keys of the file set the top-level fields.
proof fn lemma_fold_root(c: ConfigView, d: ConfigView, rest: Seq<char>)
    requires
        opt_line_safe(c.ticket_prefix),
        opt_line_safe(c.docker_compose_dir),
        opt_line_safe(c.docker_worktree_mount),
        opt_line_safe(c.docker_service),
    ensures
        toml_fold_from((d, TomlSection::Root), lines(toml_root(c) + rest)) == toml_fold_from(
            (ConfigView {
                ticket_prefix: or_keep(d.ticket_prefix, c.ticket_prefix),
                docker_compose_dir: or_keep(d.docker_compose_dir, c.docker_compose_dir),
                docker_worktree_mount: or_keep(d.docker_worktree_mount, c.docker_worktree_mount),
                docker_service: or_keep(d.docker_service, c.docker_service),
                verbose: c.verbose,
                ..d
            }, TomlSection::Root),
            lines(rest),
        ),
{
    lemma_written_keys_plain();
    lemma_bool_text(c.verbose);
    let o1 = opt_line("ticket_prefix"@, c.ticket_prefix);
    let o2 = opt_line("docker_compose_dir"@, c.docker_compose_dir);
    let o3 = opt_line("docker_worktree_mount"@, c.docker_worktree_mount);
    let o4 = opt_line("docker_service"@, c.docker_service);
    let vl = kv_line("verbose"@, bool_text(c.verbose)).push('\n');
    lemma_root_text(c, rest);
    let st0 = (d, TomlSection::Root);
    lemma_head_line(st0, o1 + (o2 + (o3 + (o4 + (vl + rest)))));

    let c1 = ConfigView { ticket_prefix: or_keep(d.ticket_prefix, c.ticket_prefix), ..d };
    lemma_fold_opt(st0, "ticket_prefix"@, c.ticket_prefix, o2 + (o3 + (o4 + (vl + rest))));
    if let Some(x) = c.ticket_prefix { lemma_root_keys(d, quoted(x), x); }
    let c2 = ConfigView { docker_compose_dir: or_keep(d.docker_compose_dir, c.docker_compose_dir), ..c1 };
    lemma_fold_opt((c1, TomlSection::Root), "docker_compose_dir"@, c.docker_compose_dir, o3 + (o4 + (vl + rest)));
    if let Some(x) = c.docker_compose_dir { lemma_root_keys(c1, quoted(x), x); }
    let c3 = ConfigView { docker_worktree_mount: or_keep(d.docker_worktree_mount, c.docker_worktree_mount), ..c2 };
    lemma_fold_opt((c2, TomlSection::Root), "docker_worktree_mount"@, c.docker_worktree_mount, o4 + (vl + rest));
    if let Some(x) = c.docker_worktree_mount { lemma_root_keys(c2, quoted(x), x); }
    let c4 = ConfigView { docker_service: or_keep(d.docker_service, c.docker_service), ..c3 };
    lemma_fold_opt((c3, TomlSection::Root), "docker_service"@, c.docker_service, vl + rest);
    if let Some(x) = c.docker_service { lemma_root_keys(c3, quoted(x), x); }
    lemma_fold_kv((c4, TomlSection::Root), "verbose"@, bool_text(c.verbose), rest);
    lemma_root_keys(c4, bool_text(c.verbose), bool_text(c.verbose));
}

/// What each `[tmux]` key line sets.
proof fn lemma_tmux_keys(d: ConfigView, raw: Seq<char>, x: Seq<char>)
    ensures
        toml_key(d, TomlSection::Tmux, "left_width"@, raw, x) == (ConfigView {
            tmux: TmuxLayout { left_width: match parse_unsigned(x, 100) { Some(n) => n as u8, None => 55 }, ..d.tmux },
            ..d
        }),
        toml_key(d, TomlSection::Tmux, "bottom_height"@, raw, x) == (ConfigView {
            tmux: TmuxLayout { bottom_height: match parse_unsigned(x, 100) { Some(n) => n as u8, None => 35 }, ..d.tmux },
            ..d
        }),
        toml_key(d, TomlSection::Tmux, "shell"@, raw, x) == (ConfigView { tmux: TmuxLayout { shell: x, ..d.tmux }, ..d }),
        toml_key(d, TomlSection::Tmux, "codex_cmd"@, raw, x) == (ConfigView { tmux: TmuxLayout { codex_cmd: x, ..d.tmux }, ..d }),
        toml_key(d, TomlSection::Tmux, "editor_cmd"@, raw, x) == (ConfigView { tmux: TmuxLayout { editor_cmd: x, ..d.tmux }, ..d }),
        toml_key(d, TomlSection::Tmux, "focus_left"@, raw, x) == (ConfigView {
            tmux: TmuxLayout { focus_left: x == "true"@, ..d.tmux },
            ..d
        }),
{
    reveal_strlit("layout");
    reveal_strlit("left_width");
    reveal_strlit("bottom_height");
    reveal_strlit("shell");
    reveal_strlit("codex_cmd");
    reveal_strlit("editor_cmd");
    reveal_strlit("focus_left");
    assert("left_width"@ != "layout"@) by {
        assert("left_width"@.len() != "layout"@.len());
    }
    assert("bottom_height"@ != "layout"@) by {
        assert("bottom_height"@.len() != "layout"@.len());
    }
    assert("bottom_height"@ != "left_width"@) by {
        assert("bottom_height"@.len() != "left_width"@.len());
    }
    assert("shell"@ != "layout"@) by {
        assert("shell"@.len() != "layout"@.len());
    }
    assert("shell"@ != "left_width"@) by {
        assert("shell"@.len() != "left_width"@.len());
    }
    assert("shell"@ != "bottom_height"@) by {
        assert("shell"@.len() != "bottom_height"@.len());
    }
    assert("codex_cmd"@ != "layout"@) by {
        assert("codex_cmd"@.len() != "layout"@.len());
    }
    assert("codex_cmd"@ != "left_width"@) by {
        assert("codex_cmd"@.len() != "left_width"@.len());
    }
    assert("codex_cmd"@ != "bottom_height"@) by {
        assert("codex_cmd"@.len() != "bottom_height"@.len());
    }
    assert("codex_cmd"@ != "shell"@) by {
        assert("codex_cmd"@.len() != "shell"@.len());
    }
    assert("editor_cmd"@ != "layout"@) by {
        assert("editor_cmd"@.len() != "layout"@.len());
    }
    assert("editor_cmd"@ != "left_width"@) by {
        assert("editor_cmd"@[0] != "left_width"@[0]);
    }
    assert("editor_cmd"@ != "bottom_height"@) by {
        assert("editor_cmd"@.len() != "bottom_height"@.len());
    }
    assert("editor_cmd"@ != "shell"@) by {
        assert("editor_cmd"@.len() != "shell"@.len());
    }
    assert("editor_cmd"@ != "codex_cmd"@) by {
        assert("editor_cmd"@.len() != "codex_cmd"@.len());
    }
    assert("focus_left"@ != "layout"@) by {
        assert("focus_left"@.len() != "layout"@.len());
    }
    assert("focus_left"@ != "left_width"@) by {
        assert("focus_left"@[0] != "left_width"@[0]);
    }
    assert("focus_left"@ != "bottom_height"@) by {
        assert("focus_left"@.len() != "bottom_height"@.len());
    }
    assert("focus_left"@ != "shell"@) by {
        assert("focus_left"@.len() != "shell"@.len());
    }
    assert("focus_left"@ != "codex_cmd"@) by {
        assert("focus_left"@.len() != "codex_cmd"@.len());
    }
    assert("focus_left"@ != "editor_cmd"@) by {
        assert("focus_left"@[0] != "editor_cmd"@[0]);
    }
}

/// The `[tmux]` header line opens the tmux section.
proof fn lemma_tmux_header(d: ConfigView)
    ensures
        toml_line(d, TomlSection::Root, "[tmux]"@) == (d, TomlSection::<Seq<char>>::Tmux),
{
    reveal_strlit("[tmux]");
    reveal_strlit("tmux");
    reveal_strlit("template.");
    let line = "[tmux]"@;
    lemma_trim_id(line);
    let header = line.subrange(1, line.len() - 1);
    assert(header =~= "tmux"@);
    lemma_trim_id(header);
    assert(!starts_with(header, "template."@));
}

/// Reading the `[tmux]` section sets the whole layout.
proof fn lemma_fold_tmux(l: LayoutView, d: ConfigView)
    requires
        l.left_width <= 100,
        l.bottom_height <= 100,
        line_safe(l.shell),
        line_safe(l.codex_cmd),
        line_safe(l.editor_cmd),
    ensures
        toml_fold_from((d, TomlSection::Root), lines(toml_tmux(l))) == (ConfigView { tmux: l, ..d }, TomlSection::<Seq<char>>::Tmux),
{
    lemma_written_keys_plain();
    let l1 = line_of("left_width"@, decimal(l.left_width as nat));
    let l2 = line_of("bottom_height"@, decimal(l.bottom_height as nat));
    let l3 = line_of("shell"@, quoted(l.shell));
    let l4 = line_of("codex_cmd"@, quoted(l.codex_cmd));
    let l5 = line_of("editor_cmd"@, quoted(l.editor_cmd));
    let l6 = line_of("focus_left"@, bool_text(l.focus_left));
    let head = "[tmux]"@.push('\n');
    let st0 = (d, TomlSection::<Seq<char>>::Root);

    // The blank line, then the header.
    lemma_fold_text(st0, seq!['\n'], head + (l1 + (l2 + (l3 + (l4 + (l5 + l6))))));
    assert(Seq::<char>::empty().push('\n') =~= seq!['\n']);
    lemma_fold_line(st0, Seq::<char>::empty());
    assert(trim(Seq::<char>::empty()) =~= Seq::<char>::empty());
    lemma_fold_text(st0, head, l1 + (l2 + (l3 + (l4 + (l5 + l6)))));
    assert("[tmux]"@.len() > 0 ==> "[tmux]"@.last() != '\r') by {
        reveal_strlit("[tmux]");
    }
    assert(forall|i: int| 0 <= i < "[tmux]"@.len() ==> "[tmux]"@[i] != '\n') by {
        reveal_strlit("[tmux]");
    }
    lemma_fold_line(st0, "[tmux]"@);
    lemma_tmux_header(d);

    // The six settings.
    lemma_decimal_parses(l.left_width as nat, 100);
    lemma_decimal_parses(l.bottom_height as nat, 100);
    lemma_unquote_plain(decimal(l.left_width as nat));
    lemma_unquote_plain(decimal(l.bottom_height as nat));
    lemma_unquote(l.shell);
    lemma_unquote(l.codex_cmd);
    lemma_unquote(l.editor_cmd);
    lemma_bool_text(l.focus_left);
    lemma_quoted_one_line(l.shell);
    lemma_quoted_one_line(l.codex_cmd);
    lemma_quoted_one_line(l.editor_cmd);

    let t = TomlSection::<Seq<char>>::Tmux;
    lemma_fold_kv((d, t), "left_width"@, decimal(l.left_width as nat), l2 + (l3 + (l4 + (l5 + l6))));
    lemma_tmux_keys(d, decimal(l.left_width as nat), decimal(l.left_width as nat));
    let d1 = ConfigView { tmux: TmuxLayout { left_width: l.left_width, ..d.tmux }, ..d };
    lemma_fold_kv((d1, t), "bottom_height"@, decimal(l.bottom_height as nat), l3 + (l4 + (l5 + l6)));
    lemma_tmux_keys(d1, decimal(l.bottom_height as nat), decimal(l.bottom_height as nat));
    let d2 = ConfigView { tmux: TmuxLayout { bottom_height: l.bottom_height, ..d1.tmux }, ..d1 };
    lemma_fold_kv((d2, t), "shell"@, quoted(l.shell), l4 + (l5 + l6));
    lemma_tmux_keys(d2, quoted(l.shell), l.shell);
    let d3 = ConfigView { tmux: TmuxLayout { shell: l.shell, ..d2.tmux }, ..d2 };
    lemma_fold_kv((d3, t), "codex_cmd"@, quoted(l.codex_cmd), l5 + l6);
    lemma_tmux_keys(d3, quoted(l.codex_cmd), l.codex_cmd);
    let d4 = ConfigView { tmux: TmuxLayout { codex_cmd: l.codex_cmd, ..d3.tmux }, ..d3 };
    assert(l6 + Seq::<char>::empty() =~= l6);
    lemma_fold_kv((d4, t), "editor_cmd"@, quoted(l.editor_cmd), l6);
    lemma_tmux_keys(d4, quoted(l.editor_cmd), l.editor_cmd);
    let d5 = ConfigView { tmux: TmuxLayout { editor_cmd: l.editor_cmd, ..d4.tmux }, ..d4 };
    lemma_fold_kv((d5, t), "focus_left"@, bool_text(l.focus_left), Seq::<char>::empty());
    lemma_tmux_keys(d5, bool_text(l.focus_left), bool_text(l.focus_left));
    assert(lines(Seq::<char>::empty()) =~= Seq::<Seq<char>>::empty());
    assert(toml_tmux(l) == seq!['\n'] + (head + (l1 + (l2 + (l3 + (l4 + (l5 + l6)))))));
}

/// A quoted value that the line format carries stays on one line.
proof fn lemma_quoted_one_line(v: Seq<char>)
    requires
        line_safe(v),
    ensures
        forall|i: int| 0 <= i < quoted(v).len() ==> quoted(v)[i] != '\n',
{
    let q = quoted(v);
    assert forall|i: int| 0 <= i < q.len() implies q[i] != '\n' by {
        if 0 < i < q.len() - 1 {
            assert(q[i] == v[i - 1]);
        }
    }
}




/// A list item the array format carries unchanged: non-empty, trimmed, on
/// one line, and free of double quotes and commas.
pub open spec fn item_safe(x: Seq<char>) -> bool {
    &&& x.len() > 0
    &&& !is_ws(x[0])
    &&& !is_ws(x.last())
    &&& forall|i: int| 0 <= i < x.len() ==> #[trigger] x[i] != '"' && x[i] != ',' && x[i] != '\n'
}

/// Items the array format carries unchanged.
pub open spec fn items_safe(items: Seq<Seq<char>>) -> bool {
    forall|k: int| 0 <= k < items.len() ==> item_safe(#[trigger] items[k])
}

proof fn lemma_escape_plain(x: Seq<char>)
    requires
        forall|i: int| 0 <= i < x.len() ==> x[i] != '"',
    ensures
        escape_quotes(x) == x,
    decreases x.len(),
{
    if x.len() > 0 {
        assert forall|i: int| 0 <= i < x.drop_last().len() implies x.drop_last()[i] != '"' by {
            assert(x.drop_last()[i] == x[i]);
        }
        lemma_escape_plain(x.drop_last());
        assert(x[x.len() - 1] != '"');
        assert(x.drop_last() + seq![x.last()] =~= x);
    }
}

/// A quoted item, with or without a space before it, reads back as the item.
proof fn lemma_item_piece(x: Seq<char>, spaced: bool)
    requires
        item_safe(x),
    ensures
        ({
            let piece = if spaced { seq![' '] + quoted(x) } else { quoted(x) };
            trim(trim_char(trim(piece), '"')) == x
        }),
{
    let q = quoted(x);
    lemma_unquote(x);
    assert(line_safe(x));
    lemma_trim_id(q);
    if spaced {
        let piece = seq![' '] + q;
        assert(piece.drop_first() =~= q);
        assert(is_ws(' '));
        assert(trim_start(piece) == trim_start(q));
        assert(trim_start(q) == q);
        assert(trim(piece) == q);
    }
    lemma_trim_id(x);
}

/// The items inside the brackets of the array format.
proof fn lemma_quoted_items_read(items: Seq<Seq<char>>)
    requires
        items.len() > 0,
        items_safe(items),
    ensures
        array_items(split(quoted_items(items), ',')) == items,
    decreases items.len(),
{
    let n = items.len();
    let last = items[n - 1];
    assert(item_safe(last));
    lemma_escape_plain(last);
    lemma_item_piece(last, n > 1);
    if n == 1 {
        let q = quoted(last);
        assert(quoted_items(items) == q) by {
            reveal_strlit("\"");
            assert("\""@ + escape_quotes(items[0]) + "\""@ =~= q);
        }
        assert forall|i: int| 0 <= i < q.len() implies q[i] != ',' by {
            if 0 < i < q.len() - 1 {
                assert(q[i] == last[i - 1]);
            }
        }
        lemma_split_plain(q, ',');
        let ps = seq![q];
        assert(ps.drop_last() =~= Seq::<Seq<char>>::empty());
        assert(ps.last() == q);
        assert(array_items(ps.drop_last()) =~= Seq::<Seq<char>>::empty());
        assert(trim(trim_char(trim(ps.last()), '"')) == last);
        assert(array_items(ps) =~= Seq::<Seq<char>>::empty().push(last));
        assert(array_items(ps) =~= seq![last]);
        assert(items =~= seq![last]);
    } else {
        let init = items.drop_last();
        assert(items_safe(init)) by {
            assert forall|k: int| 0 <= k < init.len() implies item_safe(#[trigger] init[k]) by {
                assert(init[k] == items[k]);
            }
        }
        lemma_quoted_items_read(init);
        let qi = quoted_items(init);
        let r = seq![' '] + quoted(last);
        assert(quoted_items(items) == qi.push(',') + r) by {
            reveal_strlit(", ");
            reveal_strlit("\"");
            assert(quoted_items(items) =~= qi.push(',') + r);
        }
        assert forall|i: int| 0 <= i < r.len() implies r[i] != ',' by {
            if 1 < i < r.len() - 1 {
                assert(r[i] == last[i - 2]);
            }
        }
        lemma_split_concat(qi.push(','), r, ',');
        lemma_split_plain(r, ',');
        assert(qi.push(',').drop_last() =~= qi);
        lemma_split_nonempty(qi, ',');
        assert(split(qi.push(','), ',') == split(qi, ',').push(Seq::<char>::empty()));
        let ps = split(qi, ',').push(r);
        assert(split(quoted_items(items), ',') =~= ps);
        assert(ps.drop_last() =~= split(qi, ','));
        assert(ps.last() == r);
        assert(items =~= init.push(last));
    }
}

/// The array format reads back as its items.
proof fn lemma_string_array_read(items: Seq<Seq<char>>)
    requires
        items_safe(items),
    ensures
        parse_string_array_spec(toml_string_array_spec(items)) == items,
        toml_string_array_spec(items).len() >= 2,
        toml_string_array_spec(items)[0] == '[',
        toml_string_array_spec(items).last() == ']',
        forall|i: int| 0 <= i < toml_string_array_spec(items).len() ==> #[trigger] toml_string_array_spec(items)[i] != '\n',
{
    reveal_strlit("[");
    reveal_strlit("]");
    let a = toml_string_array_spec(items);
    let qi = quoted_items(items);
    assert(a =~= seq!['['] + qi + seq![']']);
    lemma_quoted_items_one_line(items);
    assert forall|i: int| 0 <= i < a.len() implies #[trigger] a[i] != '\n' by {
        if 0 < i < a.len() - 1 {
            assert(a[i] == qi[i - 1]);
        }
    }
    assert(!is_ws('[') && !is_ws(']'));
    lemma_trim_id(a);
    assert(a.subrange(1, a.len() - 1) =~= qi);
    if items.len() == 0 {
        assert(qi =~= Seq::<char>::empty());
        lemma_split_plain(qi, ',');
        let ps = seq![qi];
        assert(ps.drop_last() =~= Seq::<Seq<char>>::empty());
        assert(ps.last() == qi);
        assert(array_items(ps.drop_last()) =~= Seq::<Seq<char>>::empty());
        assert(trim_start(qi) =~= Seq::<char>::empty());
        assert(trim(qi) =~= Seq::<char>::empty());
        assert(trim_char(Seq::<char>::empty(), '"') =~= Seq::<char>::empty());
        assert(array_items(ps) =~= Seq::<Seq<char>>::empty());
        assert(items =~= Seq::<Seq<char>>::empty());
    } else {
        lemma_quoted_items_read(items);
    }
}

/// The quoted items stay on one line.
proof fn lemma_quoted_items_one_line(items: Seq<Seq<char>>)
    requires
        items_safe(items),
    ensures
        forall|i: int| 0 <= i < quoted_items(items).len() ==> #[trigger] quoted_items(items)[i] != '\n',
    decreases items.len(),
{
    reveal_strlit("\"");
    reveal_strlit(", ");
    if items.len() >= 1 {
        let last = items[items.len() - 1];
        assert(item_safe(last));
        lemma_escape_plain(last);
        if items.len() >= 2 {
            let init = items.drop_last();
            assert(items_safe(init)) by {
                assert forall|k: int| 0 <= k < init.len() implies item_safe(#[trigger] init[k]) by {
                    assert(init[k] == items[k]);
                }
            }
            lemma_quoted_items_one_line(init);
        }
        let q = quoted_items(items);
        assert forall|i: int| 0 <= i < q.len() implies q[i] != '\n' by {
            if items.len() >= 2 {
                let qi = quoted_items(items.drop_last());
                if i < qi.len() {
                    assert(q[i] == qi[i]);
                } else if qi.len() + 3 <= i < q.len() - 1 {
                    assert(q[i] == last[i - qi.len() - 3]);
                }
            } else if 0 < i < q.len() - 1 {
                assert(q[i] == last[i - 1]);
            }
        }
    }
}


/// A template name the section header carries unchanged: on one line,
/// trimmed, and not delimited by double quotes.
pub open spec fn name_safe(n: Seq<char>) -> bool {
    &&& forall|i: int| 0 <= i < n.len() ==> #[trigger] n[i] != '\n'
    &&& n.len() > 0 ==> !is_ws(n[0]) && !is_ws(n.last()) && n[0] != '"' && n.last() != '"'
}

/// Templates the file format carries unchanged.
pub open spec fn templates_safe(t: Seq<(Seq<char>, TemplateView)>) -> bool {
    forall|k: int| 0 <= k < t.len() ==> name_safe(#[trigger] t[k].0) && items_safe(t[k].1.copy)
        && items_safe(t[k].1.symlink) && items_safe(t[k].1.run)
}

/// The text of a template section header.
pub open spec fn template_header(name: Seq<char>) -> Seq<char> {
    "[template."@ + name + "]"@
}

/// A template section as a sequence of lines.
proof fn lemma_template_text(name: Seq<char>, tv: TemplateView, rest: Seq<char>)
    ensures
        template_section(name, tv) + rest == seq!['\n'] + (template_header(name).push('\n')
            + (list_line("copy"@, tv.copy) + (list_line("symlink"@, tv.symlink) + (list_line("run"@, tv.run) + rest)))),
        template_section(name, tv).len() > 0,
        template_section(name, tv).last() == '\n',
{
    reveal_strlit("\n[template.");
    reveal_strlit("[template.");
    reveal_strlit("]\n");
    reveal_strlit("]");
    let h = "\n[template."@ + name + "]\n"@;
    assert(h =~= seq!['\n'] + template_header(name).push('\n'));
    let a = list_line("copy"@, tv.copy);
    let b = list_line("symlink"@, tv.symlink);
    let c = list_line("run"@, tv.run);
    assert(template_section(name, tv) + rest =~= seq!['\n'] + (template_header(name).push('\n') + (a + (b + (c + rest)))));
    lemma_list_line_ends(tv);
    let sec = template_section(name, tv);
    assert(sec == h + a + b + c);
    if c.len() > 0 {
        assert(sec.last() == c.last());
    } else if b.len() > 0 {
        assert(sec.last() == b.last());
    } else if a.len() > 0 {
        assert(sec.last() == a.last());
    } else {
        assert(sec.last() == h.last());
    }
}

proof fn lemma_list_line_ends(tv: TemplateView)
    ensures
        list_line("copy"@, tv.copy).len() == 0 || list_line("copy"@, tv.copy).last() == '\n',
        list_line("symlink"@, tv.symlink).len() == 0 || list_line("symlink"@, tv.symlink).last() == '\n',
        list_line("run"@, tv.run).len() == 0 || list_line("run"@, tv.run).last() == '\n',
{
    reveal_strlit("\n");
}

/// A section header line opens that template, creating it if needed.
proof fn lemma_template_header_line(c: ConfigView, sec: TomlSection<Seq<char>>, name: Seq<char>)
    requires
        name_safe(name),
    ensures
        toml_line(c, sec, template_header(name)) == (ConfigView { templates: template_ensure(c.templates, name), ..c }, TomlSection::Template(name)),
{
    reveal_strlit("[template.");
    reveal_strlit("]");
    reveal_strlit("template.");
    let line = template_header(name);
    assert(line[0] == '[');
    assert(line.last() == ']');
    assert(!is_ws('[') && !is_ws(']'));
    lemma_trim_id(line);
    let header = line.subrange(1, line.len() - 1);
    assert(header =~= "template."@ + name);
    assert(header[0] == 't');
    if name.len() > 0 {
        assert(header.last() == name.last());
    } else {
        assert(header.last() == '.');
    }
    lemma_trim_id(header);
    assert(header.subrange(0, 9) =~= "template."@);
    assert(starts_with(header, "template."@));
    assert(header.skip(9) =~= name);
    if name.len() > 0 {
        lemma_trim_id(name);
    } else {
        assert(trim_start(name) =~= name);
        assert(trim(name) =~= name);
    }
    assert(trim_char(name, '"') == name);
}

/// A `key = [...]` list line (none for an empty list) inside a template
/// section stores the items.
proof fn lemma_fold_list(c: ConfigView, name: Seq<char>, key: Seq<char>, items: Seq<Seq<char>>, rest: Seq<char>)
    requires
        plain_key(key),
        items_safe(items),
    ensures
        toml_fold_from((c, TomlSection::Template(name)), lines(list_line(key, items) + rest)) == if items.len() > 0 {
            toml_fold_from((ConfigView { templates: template_set_spec(c.templates, name, key, items), ..c }, TomlSection::Template(name)), lines(rest))
        } else {
            toml_fold_from((c, TomlSection::Template(name)), lines(rest))
        },
{
    if items.len() > 0 {
        lemma_string_array_read(items);
        let a = toml_string_array_spec(items);
        assert(list_line(key, items) == kv_line(key, a).push('\n')) by {
            reveal_strlit("\n");
            assert(list_line(key, items) =~= kv_line(key, a).push('\n'));
        }
        assert(!is_ws('[') && !is_ws(']'));
        lemma_fold_kv((c, TomlSection::Template(name)), key, a, rest);
    } else {
        assert(list_line(key, items) + rest =~= rest);
    }
}

proof fn lemma_template_keys_plain()
    ensures
        plain_key("copy"@),
        plain_key("symlink"@),
        plain_key("run"@),
        "symlink"@ != "copy"@,
        "run"@ != "copy"@,
        "run"@ != "symlink"@,
{
    reveal_strlit("copy");
    reveal_strlit("symlink");
    reveal_strlit("run");
    assert("symlink"@.len() != "copy"@.len());
    assert("run"@.len() != "copy"@.len());
    assert("run"@.len() != "symlink"@.len());
}

/// A template list whose names all sort before `name`, extended with `name`.
proof fn lemma_push_template(p: Seq<(Seq<char>, TemplateView)>, name: Seq<char>, tv: TemplateView)
    requires
        templates_sorted(p),
        forall|k: int| 0 <= k < p.len() ==> seq_lt(#[trigger] p[k].0, name),
    ensures
        templates_sorted(p.push((name, tv))),
        template_lookup(p, name) is None,
        template_position(p, name) == p.len(),
        template_lookup(p.push((name, tv)), name) == Some(tv),
        template_position(p.push((name, tv)), name) == p.len(),
{
    let q = p.push((name, tv));
    assert forall|i: int, j: int| 0 <= i < j < q.len() implies seq_lt(#[trigger] q[i].0, #[trigger] q[j].0) by {
        if j < p.len() {
            assert(q[i] == p[i] && q[j] == p[j]);
        } else {
            assert(q[i] == p[i]);
        }
    }
    assert forall|i: int| 0 <= i < p.len() implies #[trigger] p[i].0 != name by {
        lemma_seq_lt_irreflexive(name);
    }
    lemma_lookup_missing(p, name);
    lemma_position_is(p, name, p.len() as int);
    assert(q.last() == (name, tv));
    lemma_seq_lt_irreflexive(name);
    assert forall|k: int| 0 <= k < p.len() implies seq_lt(#[trigger] q[k].0, name) by {
        assert(q[k] == p[k]);
    }
    lemma_position_is(q, name, p.len() as int);
}

/// Reading one template section adds that template at the end.
proof fn lemma_fold_template(c: ConfigView, sec: TomlSection<Seq<char>>, name: Seq<char>, tv: TemplateView, rest: Seq<char>)
    requires
        name_safe(name),
        items_safe(tv.copy),
        items_safe(tv.symlink),
        items_safe(tv.run),
        templates_sorted(c.templates),
        forall|k: int| 0 <= k < c.templates.len() ==> seq_lt(#[trigger] c.templates[k].0, name),
    ensures
        toml_fold_from((c, sec), lines(template_section(name, tv) + rest))
            == toml_fold_from((ConfigView { templates: c.templates.push((name, tv)), ..c }, TomlSection::Template(name)), lines(rest)),
{
    lemma_template_keys_plain();
    let p = c.templates;
    let a = list_line("copy"@, tv.copy);
    let b = list_line("symlink"@, tv.symlink);
    let r = list_line("run"@, tv.run);
    let hl = template_header(name).push('\n');
    lemma_template_text(name, tv, rest);
    lemma_list_line_ends(tv);

    // The blank line before the header.
    lemma_fold_text((c, sec), seq!['\n'], hl + (a + (b + (r + rest))));
    assert(Seq::<char>::empty().push('\n') =~= seq!['\n']);
    lemma_fold_line((c, sec), Seq::<char>::empty());
    assert(trim(Seq::<char>::empty()) =~= Seq::<char>::empty());

    // The header.
    reveal_strlit("[template.");
    reveal_strlit("]");
    let h = template_header(name);
    assert forall|i: int| 0 <= i < h.len() implies h[i] != '\n' by {
        if 10 <= i < h.len() - 1 {
            assert(h[i] == name[i - 10]);
        }
    }
    assert(h.last() == ']');
    lemma_fold_text((c, sec), hl, a + (b + (r + rest)));
    lemma_fold_line((c, sec), h);
    lemma_template_header_line(c, sec, name);
    lemma_push_template(p, name, empty_template());
    assert(template_insert(p, name, empty_template()) =~= p.push((name, empty_template())));
    let t = TomlSection::Template(name);

    // The three lists.
    let e0 = empty_template();
    let c0 = ConfigView { templates: p.push((name, e0)), ..c };
    let e1 = if tv.copy.len() > 0 { TemplateView { copy: tv.copy, ..e0 } } else { e0 };
    let c1 = ConfigView { templates: p.push((name, e1)), ..c };
    lemma_fold_list(c0, name, "copy"@, tv.copy, b + (r + rest));
    if tv.copy.len() > 0 {
        assert(template_set_spec(p.push((name, e0)), name, "copy"@, tv.copy) =~= p.push((name, e1)));
    }
    lemma_push_template(p, name, e1);
    let e2 = if tv.symlink.len() > 0 { TemplateView { symlink: tv.symlink, ..e1 } } else { e1 };
    let c2 = ConfigView { templates: p.push((name, e2)), ..c };
    lemma_fold_list(c1, name, "symlink"@, tv.symlink, r + rest);
    if tv.symlink.len() > 0 {
        assert(template_set_spec(p.push((name, e1)), name, "symlink"@, tv.symlink) =~= p.push((name, e2)));
    }
    lemma_push_template(p, name, e2);
    let e3 = if tv.run.len() > 0 { TemplateView { run: tv.run, ..e2 } } else { e2 };
    lemma_fold_list(c2, name, "run"@, tv.run, rest);
    if tv.run.len() > 0 {
        assert(template_set_spec(p.push((name, e2)), name, "run"@, tv.run) =~= p.push((name, e3)));
    }
    assert(tv.copy.len() == 0 ==> tv.copy =~= Seq::<Seq<char>>::empty());
    assert(tv.symlink.len() == 0 ==> tv.symlink =~= Seq::<Seq<char>>::empty());
    assert(tv.run.len() == 0 ==> tv.run =~= Seq::<Seq<char>>::empty());
    assert(e3 == tv);
}


/// The template sections in order end a line (or are empty).
proof fn lemma_template_sections_end(t: Seq<(Seq<char>, TemplateView)>)
    ensures
        template_sections(t).len() == 0 || template_sections(t).last() == '\n',
    decreases t.len(),
{
    if t.len() > 0 {
        lemma_template_text(t.last().0, t.last().1, Seq::<char>::empty());
        let s1 = template_sections(t.drop_last());
        let s2 = template_section(t.last().0, t.last().1);
        assert(template_sections(t) == s1 + s2);
        assert((s1 + s2).last() == s2.last());
    }
}

/// Reading the template sections of a sorted template list stores that list.
proof fn lemma_fold_templates(t: Seq<(Seq<char>, TemplateView)>, c: ConfigView, sec: TomlSection<Seq<char>>)
    requires
        templates_safe(t),
        templates_sorted(t),
        c.templates.len() == 0,
    ensures
        toml_fold_from((c, sec), lines(template_sections(t))).0 == (ConfigView { templates: t, ..c }),
    decreases t.len(),
{
    if t.len() == 0 {
        assert(lines(Seq::<char>::empty()) =~= Seq::<Seq<char>>::empty());
        assert(t =~= c.templates);
    } else {
        let init = t.drop_last();
        let last = t.last();
        assert(templates_safe(init)) by {
            assert forall|k: int| 0 <= k < init.len() implies name_safe(#[trigger] init[k].0) && items_safe(init[k].1.copy)
                && items_safe(init[k].1.symlink) && items_safe(init[k].1.run) by {
                assert(init[k] == t[k]);
            }
        }
        assert(templates_sorted(init)) by {
            assert forall|i: int, j: int| 0 <= i < j < init.len() implies seq_lt(#[trigger] init[i].0, #[trigger] init[j].0) by {
                assert(init[i] == t[i] && init[j] == t[j]);
            }
        }
        lemma_fold_templates(init, c, sec);
        lemma_template_sections_end(init);
        lemma_fold_text((c, sec), template_sections(init), template_section(last.0, last.1));
        let st1 = toml_fold_from((c, sec), lines(template_sections(init)));
        let c1 = ConfigView { templates: init, ..c };
        assert(st1.0 == c1);
        assert(templates_safe(t));
        assert(name_safe(t[t.len() - 1].0));
        assert forall|k: int| 0 <= k < init.len() implies seq_lt(#[trigger] init[k].0, last.0) by {
            assert(init[k] == t[k]);
            assert(seq_lt(t[k].0, t[t.len() - 1].0));
        }
        assert(template_section(last.0, last.1) + Seq::<char>::empty() =~= template_section(last.0, last.1));
        lemma_fold_template(c1, st1.1, last.0, last.1, Seq::<char>::empty());
        assert(lines(Seq::<char>::empty()) =~= Seq::<Seq<char>>::empty());
        assert(init.push(last) =~= t);
    }
}

/// Reading the `[tmux]` section followed by more text.
proof fn lemma_fold_tmux_then(l: LayoutView, d: ConfigView, rest: Seq<char>)
    requires
        l.left_width <= 100,
        l.bottom_height <= 100,
        line_safe(l.shell),
        line_safe(l.codex_cmd),
        line_safe(l.editor_cmd),
    ensures
        toml_fold_from((d, TomlSection::Root), lines(toml_tmux(l) + rest))
            == toml_fold_from((ConfigView { tmux: l, ..d }, TomlSection::<Seq<char>>::Tmux), lines(rest)),
{
    let t = toml_tmux(l);
    assert(t.last() == '\n');
    lemma_fold_text((d, TomlSection::Root), t, rest);
    lemma_fold_tmux(l, d);
}

/// Writing the configuration to the file format and reading the text back
/// gives the same configuration, for values the format carries: pane sizes
/// that are percentages (at most 100), each text value on one line and not
/// delimited by double quotes, template names trimmed, and list items
/// non-empty, trimmed, and free of quotes and commas.
pub proof fn lemma_config_file_roundtrip(c: ConfigView, shell: Seq<char>)
    requires
        c.tmux.left_width <= 100,
        c.tmux.bottom_height <= 100,
        opt_line_safe(c.ticket_prefix),
        opt_line_safe(c.docker_compose_dir),
        opt_line_safe(c.docker_worktree_mount),
        opt_line_safe(c.docker_service),
        line_safe(c.tmux.shell),
        line_safe(c.tmux.codex_cmd),
        line_safe(c.tmux.editor_cmd),
        templates_sorted(c.templates),
        templates_safe(c.templates),
    ensures
        parse_config_spec(to_toml_spec(c), shell) == c,
{
    let d = default_config(shell);
    let ts = template_sections(c.templates);
    assert(to_toml_spec(c) =~= toml_root(c) + (toml_tmux(c.tmux) + ts));
    lemma_fold_root(c, d, toml_tmux(c.tmux) + ts);
    let d2 = ConfigView {
        ticket_prefix: or_keep(d.ticket_prefix, c.ticket_prefix),
        docker_compose_dir: or_keep(d.docker_compose_dir, c.docker_compose_dir),
        docker_worktree_mount: or_keep(d.docker_worktree_mount, c.docker_worktree_mount),
        docker_service: or_keep(d.docker_service, c.docker_service),
        verbose: c.verbose,
        ..d
    };
    lemma_fold_tmux_then(c.tmux, d2, ts);
    let d3 = ConfigView { tmux: c.tmux, ..d2 };
    lemma_fold_templates(c.templates, d3, TomlSection::Tmux);
    assert(ConfigView { templates: c.templates, ..d3 } == c);
}


} // verus!
