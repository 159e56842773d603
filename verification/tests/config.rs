use gat::config::{bool_from_lowercase, from_str, parse_bool, GatConfig, LayoutPreset, Template, TmuxLayout};

fn default_config() -> GatConfig {
    GatConfig::with_shell("/bin/bash")
}

#[test]
fn test_default_config() {
    let config = default_config();
    assert_eq!(config.tmux.left_width, 55);
    assert_eq!(config.tmux.bottom_height, 35);
    assert!(config.tmux.focus_left);
}

#[test]
fn test_tmux_layout_percentages() {
    let layout = TmuxLayout::with_shell("/bin/bash");
    assert!(layout.left_width <= 100);
    assert!(layout.bottom_height <= 100);
}

#[test]
fn test_layout_preset_from_name() {
    assert_eq!(LayoutPreset::from_name("classic"), Some(LayoutPreset::Classic));
    assert_eq!(LayoutPreset::from_name("default"), Some(LayoutPreset::Classic));
    assert_eq!(LayoutPreset::from_name("ai-focus"), Some(LayoutPreset::AiFocus));
    assert_eq!(LayoutPreset::from_name("AI_FOCUS"), Some(LayoutPreset::AiFocus));
    assert_eq!(LayoutPreset::from_name("editor-focus"), Some(LayoutPreset::EditorFocus));
    assert_eq!(LayoutPreset::from_name("wide"), Some(LayoutPreset::Wide));
    assert_eq!(LayoutPreset::from_name("side-by-side"), Some(LayoutPreset::Wide));
    assert_eq!(LayoutPreset::from_name("nonsense"), None);
}

#[test]
fn test_apply_layout_preset_sets_geometry() {
    let mut config = default_config();
    config.apply_layout_preset("ai-focus");
    assert_eq!(config.tmux.left_width, 70);
    assert_eq!(config.tmux.bottom_height, 40);
    assert!(config.tmux.focus_left);

    config.apply_layout_preset("editor-focus");
    assert_eq!(config.tmux.left_width, 35);
    assert!(!config.tmux.focus_left);
}

#[test]
fn test_unknown_preset_leaves_geometry_unchanged() {
    let mut config = default_config();
    let before = config.tmux.left_width;
    config.apply_layout_preset("does-not-exist");
    assert_eq!(config.tmux.left_width, before);
}

#[test]
fn test_file_layout_preset_then_explicit_override() {
    let toml = "[tmux]\nlayout = \"ai-focus\"\nleft_width = 60\n";
    let config = from_str(toml, "/bin/bash").unwrap();
    assert_eq!(config.tmux.left_width, 60);
    assert_eq!(config.tmux.bottom_height, 40);
}

#[test]
fn test_to_toml_roundtrips_through_parser() {
    let config = GatConfig {
        ticket_prefix: Some("ABC".to_string()),
        verbose: true,
        tmux: TmuxLayout {
            left_width: 62,
            codex_cmd: "aider".to_string(),
            ..TmuxLayout::with_shell("/bin/bash")
        },
        ..default_config()
    };

    let rendered = config.to_toml();
    let parsed = from_str(&rendered, "/bin/bash").unwrap();

    assert_eq!(parsed.ticket_prefix.as_deref(), Some("ABC"));
    assert_eq!(parsed.tmux.left_width, 62);
    assert_eq!(parsed.tmux.codex_cmd, "aider");
    assert!(parsed.verbose);
}

#[test]
fn test_get_and_set_key() {
    let mut config = default_config();
    config.set_key("ticket_prefix", "GAT").unwrap();
    assert_eq!(config.get_key("ticket_prefix").as_deref(), Some("GAT"));

    config.set_key("tmux.left_width", "70").unwrap();
    assert_eq!(config.get_key("tmux.left_width").as_deref(), Some("70"));

    config.set_key("tmux.focus_left", "false").unwrap();
    assert_eq!(config.get_key("tmux.focus_left").as_deref(), Some("false"));
}

#[test]
fn test_set_key_validation() {
    let mut config = default_config();
    assert!(config.set_key("tmux.left_width", "150").is_err());
    assert!(config.set_key("tmux.left_width", "abc").is_err());
    assert!(config.set_key("verbose", "maybe").is_err());
    assert!(config.set_key("unknown.key", "x").is_err());
}

#[test]
fn test_set_key_clears_with_empty_value() {
    let mut config = default_config();
    config.set_key("ticket_prefix", "GAT").unwrap();
    config.set_key("ticket_prefix", "").unwrap();
    assert_eq!(config.get_key("ticket_prefix"), None);
}

#[test]
fn test_entries_lists_all_keys() {
    let config = default_config();
    let entries = config.entries();
    assert!(entries.iter().any(|(k, _)| *k == "tmux.left_width"));
    assert!(entries.iter().any(|(k, _)| *k == "ticket_prefix"));
    for (key, _) in &entries {
        assert!(config.get_key(key).is_some() || config.get_key(key).is_none());
    }
}

#[test]
fn test_template_section_parsing() {
    let toml = r#"
[template.node]
copy = [".env.example", "config/local.json"]
symlink = ["node_modules"]
run = ["npm install"]
"#;
    let config = from_str(toml, "/bin/bash").unwrap();
    let t = config.template("node").expect("template node exists");
    assert_eq!(t.copy, vec![".env.example", "config/local.json"]);
    assert_eq!(t.symlink, vec!["node_modules"]);
    assert_eq!(t.run, vec!["npm install"]);
}

#[test]
fn test_template_roundtrips_through_writer() {
    let mut config = default_config();
    config.insert_template(
        "rust",
        Template {
            copy: vec![".env".to_string()],
            symlink: vec!["target".to_string()],
            run: vec!["cargo fetch".to_string()],
        },
    );
    let rendered = config.to_toml();
    let parsed = from_str(&rendered, "/bin/bash").unwrap();
    let t = parsed.template("rust").expect("rust template");
    assert_eq!(t.copy, vec![".env"]);
    assert_eq!(t.symlink, vec!["target"]);
    assert_eq!(t.run, vec!["cargo fetch"]);
}

#[test]
fn get_after_set_reads_back_each_accepted_key() {
    let mut config = default_config();
    for (key, value) in [
        ("ticket_prefix", "ABC"),
        ("docker_service", "web"),
        ("tmux.bottom_height", "0"),
        ("tmux.shell", "/bin/zsh"),
        ("verbose", "true"),
    ] {
        config.set_key(key, value).unwrap();
        assert_eq!(config.get_key(key).as_deref(), Some(value));
    }
}

#[test]
fn load_from_file_public_reads_file_only() {
    let c = GatConfig::load_from_file_public(None, "/bin/sh").unwrap();
    assert_eq!(c.tmux.shell, "/bin/sh");
    assert_eq!(c.ticket_prefix, None);
    let c = GatConfig::load_from_file_public(Some("ticket_prefix = \"ZZ\"\n# note\n[tmux]\nfocus_left = false\n"), "/bin/sh").unwrap();
    assert_eq!(c.ticket_prefix.as_deref(), Some("ZZ"));
    assert!(!c.tmux.focus_left);
}

fn overlay(prefix: Option<&str>, shell: Option<&str>) -> gat::config::ConfigOverlay {
    gat::config::ConfigOverlay {
        ticket_prefix: prefix.map(str::to_string),
        docker_compose_dir: None,
        docker_worktree_mount: None,
        docker_service: None,
        tmux_layout: None,
        tmux_shell: shell.map(str::to_string),
        tmux_codex_cmd: None,
        tmux_editor_cmd: None,
        tmux_left_width: None,
        tmux_bottom_height: None,
    }
}

#[test]
fn environment_beats_git_beats_file() {
    let file = Some("ticket_prefix = \"FILE\"\n[tmux]\nshell = \"/bin/file\"\n");
    let git = overlay(Some("GIT"), None);
    let env = overlay(Some("ENV"), Some("/bin/env"));
    let none = overlay(None, None);
    let c = GatConfig::load(file, Some(&git), &env, false, "/bin/sh");
    assert_eq!(c.ticket_prefix.as_deref(), Some("ENV"));
    assert_eq!(c.tmux.shell, "/bin/env");
    let c = GatConfig::load(file, Some(&git), &none, true, "/bin/sh");
    assert_eq!(c.ticket_prefix.as_deref(), Some("GIT"));
    assert_eq!(c.tmux.shell, "/bin/file");
    assert!(c.verbose);
    let c = GatConfig::load(file, None, &none, false, "/bin/sh");
    assert_eq!(c.ticket_prefix.as_deref(), Some("FILE"));
    let c = GatConfig::load(None, None, &none, false, "/bin/sh");
    assert_eq!(c.ticket_prefix, None);
    assert_eq!(c.tmux.shell, "/bin/sh");
}

#[test]
fn written_config_reads_back_whole() {
    let mut config = GatConfig {
        ticket_prefix: Some("ABC".to_string()),
        docker_compose_dir: Some("ops/docker".to_string()),
        docker_worktree_mount: Some("/srv/app".to_string()),
        docker_service: None,
        verbose: false,
        tmux: TmuxLayout {
            left_width: 0,
            bottom_height: 100,
            shell: "/bin/zsh".to_string(),
            codex_cmd: "aider --model x".to_string(),
            editor_cmd: "".to_string(),
            focus_left: false,
        },
        ..default_config()
    };
    config.insert_template(
        "b",
        Template { copy: vec![], symlink: vec!["node_modules".to_string()], run: vec!["make setup".to_string()] },
    );
    config.insert_template("a", Template { copy: vec![".env".to_string()], symlink: vec![], run: vec![] });
    let parsed = from_str(&config.to_toml(), "/bin/other").unwrap();
    assert_eq!(parsed.ticket_prefix, config.ticket_prefix);
    assert_eq!(parsed.docker_compose_dir, config.docker_compose_dir);
    assert_eq!(parsed.docker_worktree_mount, config.docker_worktree_mount);
    assert_eq!(parsed.docker_service, None);
    assert!(!parsed.verbose);
    assert_eq!(parsed.tmux.left_width, 0);
    assert_eq!(parsed.tmux.bottom_height, 100);
    assert_eq!(parsed.tmux.shell, "/bin/zsh");
    assert_eq!(parsed.tmux.codex_cmd, "aider --model x");
    assert_eq!(parsed.tmux.editor_cmd, "");
    assert!(!parsed.tmux.focus_left);
    assert_eq!(parsed.templates.len(), 2);
    assert_eq!(parsed.templates[0].0, "a");
    assert_eq!(parsed.templates[0].1.copy, vec![".env"]);
    assert_eq!(parsed.templates[1].0, "b");
    assert_eq!(parsed.templates[1].1.symlink, vec!["node_modules"]);
    assert_eq!(parsed.templates[1].1.run, vec!["make setup"]);
}

#[test]
fn file_widths_above_one_hundred_fall_back_to_defaults() {
    let config = from_str("[tmux]\nleft_width = 150\nbottom_height = 101\n", "/bin/bash").unwrap();
    assert_eq!(config.tmux.left_width, 55);
    assert_eq!(config.tmux.bottom_height, 35);
    let config = from_str("[tmux]\nleft_width = 100\nbottom_height = 0\n", "/bin/bash").unwrap();
    assert_eq!(config.tmux.left_width, 100);
    assert_eq!(config.tmux.bottom_height, 0);
}

#[test]
fn preset_spellings_from_lowercased_text() {
    assert_eq!(LayoutPreset::from_lowercase("wide"), Some(LayoutPreset::Wide));
    assert_eq!(LayoutPreset::from_lowercase("side_by_side"), Some(LayoutPreset::Wide));
    assert_eq!(LayoutPreset::from_lowercase("ai_focus"), Some(LayoutPreset::AiFocus));
    assert_eq!(LayoutPreset::from_lowercase("editor"), Some(LayoutPreset::EditorFocus));
    assert_eq!(LayoutPreset::from_lowercase("default"), Some(LayoutPreset::Classic));
    assert_eq!(LayoutPreset::from_lowercase("WIDE"), None);
    assert_eq!(LayoutPreset::from_name("  WIDE "), Some(LayoutPreset::Wide));
}

#[test]
fn boolean_spellings_from_lowercased_text() {
    assert_eq!(bool_from_lowercase("yes"), Some(true));
    assert_eq!(bool_from_lowercase("on"), Some(true));
    assert_eq!(bool_from_lowercase("0"), Some(false));
    assert_eq!(bool_from_lowercase("off"), Some(false));
    assert_eq!(bool_from_lowercase("TRUE"), None);
    assert_eq!(bool_from_lowercase("maybe"), None);
    assert_eq!(parse_bool(" TRUE ").ok(), Some(true));
    assert!(parse_bool("maybe").is_err());
}

#[test]
fn explicit_geometry_overrides_the_preset() {
    let mut config = default_config();
    config.apply_layout_args(Some("wide"), Some(60), None);
    assert_eq!(config.tmux.left_width, 60);
    assert_eq!(config.tmux.bottom_height, 50);
    assert!(config.tmux.focus_left);
    let mut config = default_config();
    config.apply_layout_args(Some("editor-focus"), None, Some(10));
    assert_eq!(config.tmux.left_width, 35);
    assert_eq!(config.tmux.bottom_height, 10);
    assert!(!config.tmux.focus_left);
    let mut config = default_config();
    config.apply_layout_args(None, None, None);
    assert_eq!(config.tmux.left_width, 55);
    assert_eq!(config.tmux.bottom_height, 35);
}
