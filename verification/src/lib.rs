//! Session process management for a single-turn command-line coding agent.
//!
//! The agent's CLI answers one prompt per invocation, so a multi-turn
//! conversation is carried by respawning the child process per message and
//! resuming it under an externally assigned conversation identifier.  This
//! crate holds the verified core of that scheme: the session registries and
//! their transition logic, the line-oriented stream dispatcher that turns the
//! child's output into typed events, and the pure text analysis the
//! surrounding tooling needs (git status, diffs, markdown frontmatter).
//! Process and file I/O live outside, feeding plain values in and out.

pub mod diff;
pub mod events;
pub mod frontmatter;
pub mod gitinfo;
pub mod json;
pub mod laws;
pub mod manager;
pub mod parser;
pub mod paths;
pub mod registry;
pub mod status;
pub mod text;
pub mod todos;
pub mod usage;
pub mod worktree;
