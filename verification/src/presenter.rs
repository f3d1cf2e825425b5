//! Values the presenter draws from.

use crate::preview::PreviewOrigin;
use crate::search::Match;
use ratatui::text::Text;
use vstd::prelude::*;

verus! {

/// The pane that receives keyboard input.
#[derive(Debug, Clone, Copy, PartialEq, Eq, Structural)]
pub enum Focus {
    /// The file tree.
    Tree,
    /// The active preview.
    Content,
    /// The pinned preview.
    Pinned,
}

/// The search hits a preview surface highlights, and the one that is current.
#[derive(Debug, PartialEq, Eq)]
pub struct ContentSearch {
    /// Every hit, in display order.
    pub matches: Vec<Match>,
    /// Index into `matches` of the current hit.
    pub current: usize,
}

impl Clone for ContentSearch {
    fn clone(&self) -> (copy: Self)
        ensures
            copy.matches@ == self.matches@,
            copy.current == self.current,
    {
        let matches = self.matches.clone();
        assert(matches@ =~= self.matches@);
        ContentSearch { matches, current: self.current }
    }
}

/// Everything the presenter needs to draw one preview surface.
#[derive(Debug, PartialEq, Eq)]
pub struct PreviewProjection {
    /// The styled display content.
    pub content: Text<'static>,
    /// Notices shown with the content.
    pub notices: Vec<String>,
    /// A transient message shown over the content.
    pub flash: Option<String>,
    /// A title for the surface's border.
    pub title: Option<String>,
    /// Whether a render is still in flight.
    pub rendering: bool,
    /// Vertical offset in displayed rows.
    pub scroll: u16,
    /// Horizontal offset in display columns.
    pub hscroll: u16,
    /// The rows the content takes in the surface's viewport.
    pub rows: usize,
    /// Whether the content is wrapped.
    pub wrap: bool,
    /// Whether the content is inset from the left border.
    pub pad_left: bool,
    /// The search highlighted on the surface.
    pub search: Option<ContentSearch>,
    /// Where the content came from.
    pub origin: Option<PreviewOrigin>,
}

/// A copy of an optional text.
fn copy_text_option(text: &Option<String>) -> (copy: Option<String>)
    ensures
        copy == *text,
{
    match text {
        Some(text) => Some(text.clone()),
        None => None,
    }
}

impl Clone for PreviewProjection {
    fn clone(&self) -> (copy: Self)
        ensures
            copy.content == self.content,
            copy.notices@ == self.notices@,
            copy.flash == self.flash,
            copy.title == self.title,
            copy.rendering == self.rendering,
            copy.scroll == self.scroll,
            copy.hscroll == self.hscroll,
            copy.rows == self.rows,
            copy.wrap == self.wrap,
            copy.pad_left == self.pad_left,
            match (copy.search, self.search) {
                (Some(copied), Some(search)) => copied.matches@ == search.matches@
                    && copied.current == search.current,
                (None, None) => true,
                _ => false,
            },
            copy.origin == self.origin,
    {
        let notices = self.notices.clone();
        assert(notices@ =~= self.notices@);
        PreviewProjection {
            content: self.content.clone(),
            notices,
            flash: copy_text_option(&self.flash),
            title: copy_text_option(&self.title),
            rendering: self.rendering,
            scroll: self.scroll,
            hscroll: self.hscroll,
            rows: self.rows,
            wrap: self.wrap,
            pad_left: self.pad_left,
            search: match &self.search {
                Some(search) => Some(search.clone()),
                None => None,
            },
            origin: match &self.origin {
                Some(origin) => Some(origin.clone()),
                None => None,
            },
        }
    }
}

} // verus!
