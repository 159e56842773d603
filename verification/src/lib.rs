//! Verified core of `gat`, a ticket-oriented Git worktree helper.

pub mod config;
pub mod error;
pub mod git;
pub mod metadata;
pub mod naming;
pub mod output;
pub mod sessions;
pub mod text;
pub mod tui;
pub mod cli;
pub mod workflow;
pub mod docker;
