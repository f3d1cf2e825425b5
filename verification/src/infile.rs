//! In-file search state kept per preview.

use crate::search::Match;
use vstd::prelude::*;

verus! {

/// The search a preview is running: its query, every hit, and the hit that is current.
#[derive(Debug, PartialEq, Eq)]
pub struct SearchState {
    /// The text being searched for.
    pub query: String,
    /// Every hit of the query, in display order.
    pub matches: Vec<Match>,
    /// Index into `matches` of the hit that is current.
    pub current: usize,
}

/// The value a [`SearchState`] holds.
pub struct SearchView {
    pub query: String,
    pub matches: Seq<Match>,
    pub current: usize,
}

impl View for SearchState {
    type V = SearchView;

    open spec fn view(&self) -> SearchView {
        SearchView { query: self.query, matches: self.matches@, current: self.current }
    }
}

impl Clone for SearchState {
    /// Copy the query, every hit and the current index into a state of its own.
    fn clone(&self) -> (copy: Self)
        ensures
            copy@ == self@,
    {
        let matches = self.matches.clone();
        assert(matches@ =~= self.matches@);
        SearchState { query: self.query.clone(), matches, current: self.current }
    }
}

} // verus!
