//! The Taskwarrior database of pull requests and commits that the CI driver
//! works from.
pub mod collection;
pub mod serde_types;
pub mod shell;
pub mod task;

