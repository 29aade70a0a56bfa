use vstd::prelude::*;

pub mod framework;
pub mod laws;
pub mod named_pattern;
pub mod registry;

verus! {

/// How much of a project a run covers.
#[derive(Debug, Clone, Copy, PartialEq, Eq, Structural)]
pub enum Scope {
    Suite,
    File,
    Line,
}

/// Why no command could be made.
#[derive(Debug, Clone, Copy, PartialEq, Eq, Structural)]
pub enum AnytestError {
    NoFrameworkFound,
    MissingLineNumber,
    EmptyProgram,
}

/// Where a run is asked for: the project root, the file, and the line for a line-scoped run.
pub struct Context {
    pub root: String,
    pub absolute_path: String,
    /// The file's path relative to `root`.
    pub relative_path: String,
    /// Numbered from 1.
    pub line: Option<usize>,
    pub scope: Scope,
}

} // verus!
