//! The views a file preview can be rendered in.

use vstd::prelude::*;

verus! {

/// The view that produced a preview's display content.
#[derive(Debug, Clone, Copy, PartialEq, Eq, Structural)]
pub enum ViewMode {
    /// Source lines with syntax highlighting.
    SyntaxContent,
    /// Markdown rendered for reading.
    RenderedMarkdown,
}

} // verus!
