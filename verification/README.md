# gat

`gat` is a ticket-oriented Git worktree helper: `gat 12345` creates (or
reuses) a sibling worktree for `TICKET-12345`, and further commands list,
search, describe, merge, archive, and prune worktrees, open tmux layouts for
them, and enter their Docker containers.

## Layout

- `src/` is the verified library. The rules and decisions of each command
  are functions with contracts proved by Verus: argument parsing (`cli`),
  ticket and session naming (`naming`), Git output parsing and command
  arguments (`git`), the configuration file format and its layers
  (`config`), worktree usage metadata (`metadata`), tmux session listings
  (`sessions`), the dashboard state machine (`tui`), Docker planning and the
  compose file's service list (`docker`, which calls `serde_yaml` behind one
  trusted wrapper), output formatting (`output`, `text`), and the command
  workflows (`workflow`). Laws relating several functions are public proof
  functions, for example `config::lemma_config_file_roundtrip`,
  `config::lemma_get_after_set`, `workflow::lemma_new_is_idempotent`,
  `workflow::lemma_merge_check_order`, `tui::lemma_step_keeps_state_ok`,
  `config::lemma_explicit_geometry_wins`, and
  `output::lemma_json_escape_round_trips`.
- `app/` is the program around it. It gathers the facts that the library's
  step functions take (such as `workflow::switch_step`,
  `workflow::tmux_step`, `workflow::confirm_step` and
  `workflow::locate_target`) and carries out the steps they choose; a few
  small guards stay there, such as which Git queries are worth running. It
  also holds argument reading, running `git`, `tmux`, `docker` and `fzf`,
  reading files and the environment, writing files, the terminal dashboard,
  and the JSON metadata format.
- `tests/` runs the library on concrete values.
