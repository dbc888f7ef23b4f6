//! Positions in a schema document.

use vstd::prelude::*;

verus! {

/// A line and a column of a document, as the syntax tree's source map
/// reports them.
#[derive(Clone, Copy, Debug, PartialEq, Eq, Structural)]
pub struct LineColumn {
    pub line: usize,
    pub column: usize,
}

/// The stretch of a document that a syntax node covers.
#[derive(Clone, Copy, Debug, PartialEq, Eq, Structural)]
pub struct LocationRange {
    pub start: LineColumn,
    pub end: LineColumn,
}

} // verus!
