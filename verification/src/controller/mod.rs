//! The session controller's preview state: what the active preview shows, its interaction
//! state, keyboard focus, the last action notice, and the one optional pinned snapshot.

use self::pinned::PinnedView;
use crate::presenter::Focus;
use crate::preview::{DocumentView, InteractionView, PreviewDocument, PreviewInteractionState};
use vstd::prelude::*;

pub mod pinned;
pub mod viewport;

verus! {

/// What the active preview surface currently shows.
#[derive(Debug)]
pub enum ActiveDisplay {
    /// A render of the selected file is still in flight.
    Loading {
        /// The file being rendered.
        path: String,
    },
    /// The selection is a directory, shown as guidance.
    Directory {
        /// The selected directory.
        path: String,
    },
    /// Nothing is selected because the tree is empty; holds the guidance shown.
    EmptyTree(String),
    /// A settled, display-ready file preview.
    Document(PreviewDocument),
}

/// The value an [`ActiveDisplay`] holds.
pub enum DisplayView {
    Loading { path: Seq<char> },
    Directory { path: Seq<char> },
    EmptyTree(Seq<char>),
    Document(DocumentView),
}

impl View for ActiveDisplay {
    type V = DisplayView;

    open spec fn view(&self) -> DisplayView {
        match self {
            ActiveDisplay::Loading { path } => DisplayView::Loading { path: path@ },
            ActiveDisplay::Directory { path } => DisplayView::Directory { path: path@ },
            ActiveDisplay::EmptyTree(guidance) => DisplayView::EmptyTree(guidance@),
            ActiveDisplay::Document(document) => DisplayView::Document(document@),
        }
    }
}

impl DisplayView {
    /// The settled document shown, if the display is one.
    pub open spec fn document(self) -> Option<DocumentView> {
        match self {
            DisplayView::Document(document) => Some(document),
            _ => None,
        }
    }
}

/// Work a controller operation asks of its caller.
#[derive(Debug, Clone, Copy, PartialEq, Eq, Structural)]
pub struct Effects {
    /// The screen must be drawn again.
    pub redraw: bool,
}

impl Effects {
    /// Ask for a redraw and nothing else.
    pub fn redraw() -> (effects: Self)
        ensures
            effects.redraw,
    {
        Effects { redraw: true }
    }
}

/// Lend out a borrowed interaction state as it is.
fn lend(interaction: &mut PreviewInteractionState) -> (lent: &mut PreviewInteractionState)
    ensures
        *lent == *old(interaction),
        *final(interaction) == *final(lent),
    no_unwind
{
    interaction
}

/// The controller's preview state.
pub struct Controller {
    active_display: ActiveDisplay,
    active_interaction: PreviewInteractionState,
    pinned_snapshot: Option<pinned::PinnedSnapshot>,
    focus: Focus,
    action_notice: Option<String>,
}

/// The value a [`Controller`] holds.
pub struct ControllerView {
    pub active_display: DisplayView,
    pub active_interaction: InteractionView,
    pub pinned: Option<PinnedView>,
    pub focus: Focus,
    pub action_notice: Option<Seq<char>>,
}

impl ControllerView {
    /// Keyboard focus rests on the pinned preview only while a pin exists.
    pub open spec fn focus_consistent(self) -> bool {
        self.focus == Focus::Pinned ==> self.pinned is Some
    }
}

impl View for Controller {
    type V = ControllerView;

    closed spec fn view(&self) -> ControllerView {
        ControllerView {
            active_display: self.active_display@,
            active_interaction: self.active_interaction@,
            pinned: match self.pinned_snapshot {
                Some(pin) => Some(pin.view()),
                None => None,
            },
            focus: self.focus,
            action_notice: match self.action_notice {
                Some(notice) => Some(notice@),
                None => None,
            },
        }
    }
}

impl Controller {
    #[verifier::type_invariant]
    spec fn focus_needs_pin(self) -> bool {
        self.focus == Focus::Pinned ==> self.pinned_snapshot is Some
    }

    /// A controller showing `active_display`, with a fresh interaction state, focus on the tree,
    /// no pin and no notice.
    pub fn new(active_display: ActiveDisplay) -> (controller: Self)
        ensures
            controller@.active_display == active_display@,
            controller@.active_interaction == (InteractionView {
                vertical_scroll: 0,
                horizontal_scroll: 0,
                viewport_width: 0,
                viewport_height: 0,
                search: None,
            }),
            controller@.pinned is None,
            controller@.focus == Focus::Tree,
            controller@.action_notice is None,
            controller@.focus_consistent(),
    {
        Controller {
            active_display,
            active_interaction: PreviewInteractionState::default(),
            pinned_snapshot: None,
            focus: Focus::Tree,
            action_notice: None,
        }
    }

    /// The pane that receives keyboard input.
    pub fn focus(&self) -> (focus: Focus)
        ensures
            focus == self@.focus,
    {
        self.focus
    }

    /// The notice explaining the last rejected action, if any.
    pub fn action_notice(&self) -> (notice: Option<&str>)
        ensures
            match notice {
                Some(text) => self@.action_notice == Some(text@),
                None => self@.action_notice is None,
            },
    {
        match &self.action_notice {
            Some(notice) => Some(notice.as_str()),
            None => None,
        }
    }

    /// The settled document the active preview shows; loading, directory and empty-tree
    /// displays are not documents.
    pub fn active_document(&self) -> (document: Option<&PreviewDocument>)
        ensures
            match document {
                Some(document) => self@.active_display.document() == Some(document@),
                None => self@.active_display.document() is None,
            },
    {
        match &self.active_display {
            ActiveDisplay::Document(document) => Some(document),
            _ => None,
        }
    }

    /// The active preview's interaction state.
    pub fn active_interaction(&self) -> (interaction: &PreviewInteractionState)
        ensures
            interaction@ == self@.active_interaction,
    {
        &self.active_interaction
    }

    /// The active preview's interaction state, for changing in place; nothing else changes.
    pub fn active_interaction_mut(&mut self) -> (interaction: &mut PreviewInteractionState)
        ensures
            interaction@ == old(self)@.active_interaction,
            final(self)@ == (ControllerView {
                active_interaction: final(interaction)@,
                ..old(self)@
            }),
    {
        proof {
            use_type_invariant(&*self);
        }
        lend(&mut self.active_interaction)
    }

    /// Apply what the active preview now shows: a settled render, a loading placeholder, or
    /// directory or empty-tree guidance. The pin, focus, notice and interaction state are left
    /// as they are, so a pinned snapshot never follows the active preview.
    pub fn set_active_display(&mut self, display: ActiveDisplay)
        ensures
            final(self)@ == (ControllerView { active_display: display@, ..old(self)@ }),
            final(self)@.focus_consistent(),
    {
        proof {
            use_type_invariant(&*self);
        }
        self.active_display = display;
    }

    /// Move keyboard focus to `focus` and report whether it moved; the pinned preview can
    /// take focus only while a pin exists.
    pub fn set_focus(&mut self, focus: Focus) -> (moved: bool)
        ensures
            moved == (focus != Focus::Pinned || old(self)@.pinned is Some),
            final(self)@ == (if moved {
                ControllerView { focus, ..old(self)@ }
            } else {
                old(self)@
            }),
            final(self)@.focus_consistent(),
    {
        proof {
            use_type_invariant(&*self);
        }
        if focus == Focus::Pinned && self.pinned_snapshot.is_none() {
            false
        } else {
            self.focus = focus;
            true
        }
    }
}

} // verus!
