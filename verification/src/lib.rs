//! Source-build installation pipeline for Swift packages.
//!
//! The crate holds the decisions of the pipeline: how a package identifier
//! becomes a repository URL, how the list of remote versions is ordered and
//! memoized, where a checkout is materialized, which products of a package
//! manifest are executables, which toolchain invocations build them and which
//! build outputs are installed. Every decision is a function with a proved
//! contract; performing the planned steps is left to the caller.

pub mod artifacts;
pub mod backend;
pub mod error;
pub mod install;
pub mod json;
pub mod manifest;
pub mod repository;
pub mod text;
pub mod toolchain;
pub mod versions;
pub mod workspace;
