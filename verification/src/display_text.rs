//! Styled display content from ratatui, as the preview logic sees it.
//!
//! A [`Text`] is carried through the library whole; the one thing the logic reads of it is the
//! display width of each of its lines, which decides how many rows it takes on screen.

use ratatui::text::Text;
use vstd::prelude::*;

verus! {

/// ratatui's styled, multi-line display content.
#[verifier::external_type_specification]
#[verifier::external_body]
pub struct ExText<'a>(Text<'a>);

/// The display width of each line of `text`, in line order (ratatui's `Line::width`, the
/// unicode column width of the line's spans).
pub uninterp spec fn text_line_widths(text: Text<'static>) -> Seq<usize>;

/// ratatui's derived `Clone` for `Text` copies the alignment, style and every line and span
/// field by field: the copy is the same value.
pub assume_specification<'a>[ <Text<'a> as Clone>::clone ](text: &Text<'a>) -> (copy: Text<'a>)
    ensures
        copy == *text,
;

/// Calls `Vec::len` on the lines of `text`: the number of lines.
#[verifier::external_body]
pub(crate) fn text_line_count(text: &Text<'static>) -> (count: usize)
    ensures
        count == text_line_widths(*text).len(),
    no_unwind
{
    text.lines.len()
}

/// Calls ratatui's `Line::width` on line `index` of `text`: its display width.
#[verifier::external_body]
pub(crate) fn text_line_width(text: &Text<'static>, index: usize) -> (width: usize)
    requires
        index < text_line_widths(*text).len(),
    ensures
        width == text_line_widths(*text)[index as int],
    no_unwind
{
    text.lines[index].width()
}

} // verus!
