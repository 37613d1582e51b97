//! Recursive directory enumeration with glob-style exclusions.
//!
//! The crate exposes two components. [`matcher`] compiles a list of glob
//! patterns into a single [`matcher::Matcher`] whose meaning in contracts is
//! the sequence of patterns it was built from: a path is excluded exactly
//! when at least one pattern matches it. [`scanner`] walks a directory tree
//! depth-first, pruning every subtree whose entry is excluded, and collects
//! the paths of the remaining regular files.

use vstd::prelude::*;

pub mod matcher;
pub mod scanner;

verus! {

/// Why a scan gave no result.
#[derive(Clone, Copy, Debug, PartialEq, Eq, Structural)]
pub enum ScanError {
    /// An ignore pattern is not a syntactically valid glob.
    PatternCompile,
    /// The root path cannot be opened as either a file or a directory.
    RootNotFound,
}

/// The character sequences of a list of strings, in order.
pub open spec fn str_views(ss: Seq<String>) -> Seq<Seq<char>> {
    ss.map_values(|s: String| s@)
}

} // verus!
