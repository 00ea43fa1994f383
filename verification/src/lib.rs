//! Git worktree manager with terminal-multiplexer sessions: the verified core.
//!
//! The library holds the rules of the tool as functions from plain values to
//! plain values: the todo store and its document form, the parser of the
//! worktree listing, path arithmetic on `/`-separated text, the protocol that
//! builds a multiplexer session, and the state machine and screen projection of
//! the interactive list. Running processes, reading files and painting the
//! terminal are left to the caller.

pub mod cli;
pub mod config;
pub mod document;
pub mod git;
pub mod github;
pub mod init;
pub mod layout;
pub mod path;
pub mod process;
pub mod render;
pub mod text;
pub mod tmux;
pub mod tui;

pub use config::{Config, TmuxWindow};
pub use git::Worktree;
