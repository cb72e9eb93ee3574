//! Batch automation of git/GitLab chores over a tree of local clones:
//! discover repositories under a root, derive each one's GitLab project
//! path from its remote URL, and either open a merge request through the
//! GitLab REST API or create and push a tag through the git executable.
//!
//! This crate holds the verified logic: URL parsing, repository discovery
//! over a directory-tree model, git command construction and result
//! classification, API request construction and response classification,
//! configuration validation, and the per-repository step machines. The
//! surrounding binary performs the actual process, network and filesystem
//! work and hands plain values in and out.
pub mod api;
pub mod gitcmd;
pub mod locate;
pub mod orchestrate;
pub mod strutil;
pub mod urlparse;
