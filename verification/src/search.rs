//! A located occurrence of a search query in displayed content.

use vstd::prelude::*;

verus! {

/// One search hit: the displayed line and the column span `start..end` it covers.
#[derive(Debug, Clone, Copy, PartialEq, Eq, Structural)]
pub struct Match {
    /// Index of the displayed line that holds the hit.
    pub line: usize,
    /// First column of the hit.
    pub start: usize,
    /// Column just past the hit.
    pub end: usize,
}

} // verus!
