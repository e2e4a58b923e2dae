//! Verified core of a Git hosting server: configuration, errors, access
//! control, Git protocol helpers, GPG key parsing, OAuth helpers and CI
//! runner coordination.
use vstd::prelude::*;

pub mod text;
pub mod error;
pub mod config;
pub mod auth;
pub mod internal;
pub mod gpg;
pub mod git_http;
pub mod crypto;
pub mod tokens;
pub mod oauth;
pub mod runner;
pub mod runner_session;
pub mod admin;
pub mod registry;
pub mod repository;
pub mod branch;
pub mod commit;
pub mod issue;
pub mod project;
pub mod server;
pub mod namespace;
pub mod ids;
pub mod login;
pub mod merge;
pub mod pipeline;
pub mod deploy_keys;
pub mod log_stream;
pub mod usernames;
pub mod lfs_locks;
pub mod ci_secrets;

verus! {

} // verus!
