//! Verified core of a local CI driver for GitHub pull requests, together with
//! a typed client description of the Forgejo HTTP API.
use vstd::prelude::*;

pub mod args;
pub mod forgejo;
pub mod gh;
pub mod git;
pub mod outside;
pub mod repo;
pub mod run;
pub mod text;
pub mod tw;

verus! {
} // verus!
