//! Template cache sync and project materialization for a scaffolding tool.
//!
//! The file system, the version-control client and the prompts stay with the
//! caller: the sync and the materialization are state machines that say which
//! operation to perform next and take its outcome back.
pub mod config;
pub mod error;
pub mod descriptor;
pub mod index;
pub mod resolve;
pub mod git;
pub mod update;
pub mod create;
pub mod template;
pub mod project;
pub mod monorepo;
