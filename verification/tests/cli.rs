use gat::cli::{parse, Command, ConfigAction, Shell};
use gat::error::GatError;
use gat::output::OutputFormat;

fn args(words: &[&str]) -> Vec<String> {
    words.iter().map(|w| w.to_string()).collect()
}

#[test]
fn empty_arguments_show_help() {
    assert!(matches!(parse(vec![]), Ok(Command::Help)));
    assert!(matches!(parse(args(&["--help"])), Ok(Command::Help)));
    assert!(matches!(parse(args(&["-V"])), Ok(Command::Version)));
}

#[test]
fn bare_ticket_is_shorthand_for_new() {
    match parse(args(&["12345", "--prefix", "ABC", "--json"])) {
        Ok(Command::New(a)) => {
            assert_eq!(a.target, "12345");
            assert_eq!(a.prefix.as_deref(), Some("ABC"));
            assert_eq!(a.format, OutputFormat::Json);
            assert!(!a.dry_run);
        }
        other => panic!("unexpected {other:?}"),
    }
    match parse(args(&["new", "12345", "--prefix=ABC", "--format=json"])) {
        Ok(Command::New(a)) => {
            assert_eq!(a.prefix.as_deref(), Some("ABC"));
            assert_eq!(a.format, OutputFormat::Json);
        }
        other => panic!("unexpected {other:?}"),
    }
}

#[test]
fn new_options_are_read() {
    match parse(args(&["new", "7", "--no-prefix", "-d", "fix it", "--no-template", "-n"])) {
        Ok(Command::New(a)) => {
            assert!(a.no_prefix);
            assert_eq!(a.description.as_deref(), Some("fix it"));
            assert_eq!(a.template.as_deref(), Some(""));
            assert!(a.dry_run);
        }
        other => panic!("unexpected {other:?}"),
    }
}

#[test]
fn unknown_option_is_a_usage_error() {
    match parse(args(&["new", "7", "--bogus"])) {
        Err(GatError::Usage(m)) => assert!(m.contains("--bogus")),
        other => panic!("unexpected {other:?}"),
    }
}

#[test]
fn remove_aliases_parse_alike() {
    for word in ["rm", "remove", "delete"] {
        match parse(args(&[word, "42", "--force"])) {
            Ok(Command::Remove(a)) => {
                assert_eq!(a.target, "42");
                assert!(a.force);
            }
            other => panic!("unexpected {other:?}"),
        }
    }
}

#[test]
fn prune_older_than_must_be_positive() {
    match parse(args(&["prune", "--older-than", "0", "--dry-run"])) {
        Err(GatError::Usage(m)) => assert!(m.contains("positive integer")),
        other => panic!("unexpected {other:?}"),
    }
    match parse(args(&["prune", "--older-than", "14"])) {
        Ok(Command::Prune(a)) => assert_eq!(a.older_than_days, Some(14)),
        other => panic!("unexpected {other:?}"),
    }
}

#[test]
fn config_subcommands_parse() {
    match parse(args(&["config", "set", "ticket_prefix", "ABC"])) {
        Ok(Command::Config(c)) => match c.action {
            ConfigAction::SetValue { key, value } => {
                assert_eq!(key, "ticket_prefix");
                assert_eq!(value, "ABC");
            }
            other => panic!("unexpected {other:?}"),
        },
        other => panic!("unexpected {other:?}"),
    }
}

#[test]
fn shell_init_reads_shell() {
    match parse(args(&["shell-init", "--shell", "fish"])) {
        Ok(Command::ShellInit(a)) => assert_eq!(a.shell, Shell::Fish),
        other => panic!("unexpected {other:?}"),
    }
}

#[test]
fn shell_init_rejects_unknown_shell() {
    assert!(matches!(parse(args(&["shell-init", "--shell=tcsh"])), Err(GatError::Usage(_))));
}

#[test]
fn tmux_geometry_flags_are_read() {
    match parse(args(&["tmux", "12345", "--left-width", "60"])) {
        Ok(Command::Tmux(a)) => {
            assert_eq!(a.target, "12345");
            assert_eq!(a.left_width, Some(60));
            assert_eq!(a.bottom_height, None);
        }
        other => panic!("unexpected {other:?}"),
    }
    match parse(args(&["tmux", "12345", "--layout", "wide", "--bottom-height=30", "--left-width=100"])) {
        Ok(Command::Tmux(a)) => {
            assert_eq!(a.layout.as_deref(), Some("wide"));
            assert_eq!(a.left_width, Some(100));
            assert_eq!(a.bottom_height, Some(30));
        }
        other => panic!("unexpected {other:?}"),
    }
}

#[test]
fn switch_geometry_flags_are_read() {
    match parse(args(&["switch", "12345", "--bottom-height", "0"])) {
        Ok(Command::Switch(a)) => {
            assert_eq!(a.left_width, None);
            assert_eq!(a.bottom_height, Some(0));
        }
        other => panic!("unexpected {other:?}"),
    }
}

#[test]
fn geometry_flags_reject_values_above_one_hundred() {
    match parse(args(&["tmux", "12345", "--left-width", "150"])) {
        Err(GatError::Usage(m)) => assert!(m.contains("--left-width requires a percentage 0-100")),
        other => panic!("unexpected {other:?}"),
    }
    match parse(args(&["switch", "12345", "--bottom-height=abc"])) {
        Err(GatError::Usage(m)) => assert!(m.contains("--bottom-height requires a percentage 0-100")),
        other => panic!("unexpected {other:?}"),
    }
}
