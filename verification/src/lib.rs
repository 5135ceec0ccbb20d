//! Workspace version bumping: map a set of changed file paths to the
//! workspace packages whose directory contains one of them, and rewrite each
//! affected package's manifest to a new version, preserving all other content.

pub mod bytes;
pub mod manifest;
pub mod paths;
pub mod resolve;
pub mod run;
pub mod source;
