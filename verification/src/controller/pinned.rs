//! One frozen, in-memory preview snapshot and its lifecycle operation.

use super::viewport::{
    clamp_offsets, clamped, clamping_is_stable, clamping_keeps_what_fits, content_rows,
    displayed_rows, every_line_takes_a_row, rendered_rows, saturated, usable_columns,
};
use super::{ActiveDisplay, Controller, ControllerView, DisplayView, Effects};
use crate::display_text::text_line_widths;
use crate::paths::plain_path;
use crate::presenter::{ContentSearch, Focus, PreviewProjection};
use crate::preview::{DocumentView, InteractionView, PreviewDocument, PreviewInteractionState};
use vstd::prelude::*;

verus! {

/// The one optional reference preview retained for this controller session.
///
/// The document is an applied render only; the interaction state starts as a clone of the active
/// preview and subsequently receives only pinned-viewport measurements. Neither side shares
/// mutable state with the active preview.
pub(super) struct PinnedSnapshot {
    pub(super) document: PreviewDocument,
    pub(super) interaction: PreviewInteractionState,
}

/// The value a pinned snapshot holds: its frozen document and its own interaction state.
pub struct PinnedView {
    pub document: DocumentView,
    pub interaction: InteractionView,
}

impl PinnedSnapshot {
    pub(super) open spec fn view(&self) -> PinnedView {
        PinnedView { document: self.document@, interaction: self.interaction@ }
    }

    /// The pin's interaction state, lent out for changing in place, if there is a pin.
    fn interaction_of(pin: &mut Option<PinnedSnapshot>) -> (interaction: Option<
        &mut PreviewInteractionState,
    >)
        ensures
            match interaction {
                Some(interaction) => *old(pin) matches Some(before) && *interaction
                    == before.interaction && *final(pin) == Some(
                    PinnedSnapshot { document: before.document, interaction: *final(interaction) },
                ),
                None => *old(pin) is None && *final(pin) is None,
            },
        no_unwind
    {
        match pin {
            Some(pin) => Some(&mut pin.interaction),
            None => None,
        }
    }

    /// Give the pin, if there is one, its measured viewport and clamp its offsets to it.
    fn measure(pin: &mut Option<PinnedSnapshot>, width: u16, height: u16)
        ensures
            match *old(pin) {
                Some(before) => *final(pin) matches Some(after) && after.view() == measured_pin(
                    before.view(),
                    width,
                    height,
                ),
                None => *final(pin) is None,
            },
        no_unwind
    {
        if let Some(pin) = pin {
            pin.interaction.viewport_width = width;
            pin.interaction.viewport_height = height;
            clamp_offsets(
                &mut pin.interaction,
                pin.document.content(),
                pin.document.presentation().wrap(),
                0,
            );
        }
    }
}

/// The notice that explains why the active display cannot be pinned.
pub open spec fn pin_rejection(display: DisplayView) -> Seq<char> {
    match display {
        DisplayView::Loading { .. } => "Cannot pin while preview is rendering"@,
        DisplayView::Directory { .. } => "Cannot pin a directory"@,
        DisplayView::EmptyTree(_) => "Cannot pin: no file is selected"@,
        DisplayView::Document(_) => Seq::empty(),
    }
}

/// The pin holds the same file as `document`: same root, branch state and root-relative path.
pub open spec fn pin_holds_file(pin: PinnedView, document: DocumentView) -> bool {
    pin.document.origin.spec_identity().same_file(&document.origin.spec_identity())
}

/// The controller state after a pin request.
///
/// Without a settled active document the request is rejected with a notice and nothing else
/// changes. Otherwise the notice is cleared; a pin of the same file is removed (focus on the pin
/// moves to the active preview), and any other or no pin is replaced by a frozen copy of the
/// active document with a copy of the active interaction state.
pub open spec fn pinned_after(state: ControllerView) -> ControllerView {
    match state.active_display.document() {
        None => ControllerView { action_notice: Some(pin_rejection(state.active_display)), ..state },
        Some(document) => {
            if state.pinned is Some && pin_holds_file(state.pinned->0, document) {
                ControllerView {
                    pinned: None,
                    focus: if state.focus == Focus::Pinned {
                        Focus::Content
                    } else {
                        state.focus
                    },
                    action_notice: None,
                    ..state
                }
            } else {
                ControllerView {
                    pinned: Some(
                        PinnedView { document, interaction: state.active_interaction },
                    ),
                    action_notice: None,
                    ..state
                }
            }
        },
    }
}

/// Pinning the same settled preview twice, starting without a pin, leaves no pin: the second
/// request finds the first one's pin holds the same file and removes it. Only the notice differs
/// from the start: it is cleared.
pub proof fn pinning_twice_unpins(state: ControllerView)
    requires
        state.focus_consistent(),
        state.pinned is None,
        state.active_display.document() is Some,
    ensures
        pinned_after(pinned_after(state)) == (ControllerView { action_notice: None, ..state }),
{
}

/// Pinning a settled preview of another file, told apart by plain path texts or by branch,
/// replaces the existing pin with a copy of that preview and the active interaction state.
pub proof fn pinning_another_file_replaces(state: ControllerView)
    requires
        state.pinned is Some,
        state.active_display.document() is Some,
        ({
            let held = state.pinned->0.document.origin.spec_identity();
            let shown = state.active_display.document()->0.origin.spec_identity();
            &&& plain_path(held.root@)
            &&& plain_path(shown.root@)
            &&& plain_path(held.root_relative_path@)
            &&& plain_path(shown.root_relative_path@)
            &&& held.root@ != shown.root@ || held.branch@ != shown.branch@
                || held.root_relative_path@ != shown.root_relative_path@
        }),
    ensures
        pinned_after(state).pinned == Some(
            PinnedView {
                document: state.active_display.document()->0,
                interaction: state.active_interaction,
            },
        ),
        pinned_after(state).action_notice is None,
{
}

/// A pin request never changes what the active preview shows or its interaction state, and
/// keeps focus on the pinned preview only while a pin exists.
pub proof fn pinning_keeps_active_preview(state: ControllerView)
    requires
        state.focus_consistent(),
    ensures
        pinned_after(state).active_display == state.active_display,
        pinned_after(state).active_interaction == state.active_interaction,
        pinned_after(state).focus_consistent(),
{
}

/// A rejected pin request (no settled active document) changes nothing but the notice, which
/// explains the rejection.
pub proof fn rejected_pin_only_explains(state: ControllerView)
    requires
        state.active_display.document() is None,
    ensures
        pinned_after(state) == (ControllerView {
            action_notice: Some(pin_rejection(state.active_display)),
            ..state
        }),
        pin_rejection(state.active_display).len() > 0,
{
    reveal_strlit("Cannot pin while preview is rendering");
    reveal_strlit("Cannot pin a directory");
    reveal_strlit("Cannot pin: no file is selected");
}

/// Measuring the pinned viewport again at the same size changes nothing more.
pub proof fn measuring_pin_again_is_stable(pin: PinnedView, width: u16, height: u16)
    ensures
        measured_pin(measured_pin(pin, width, height), width, height) == measured_pin(
            pin,
            width,
            height,
        ),
{
    let first = measured_pin(pin, width, height);
    clamping_is_stable(
        InteractionView { viewport_width: width, viewport_height: height, ..pin.interaction },
        text_line_widths(pin.document.content),
        pin.document.presentation.spec_wrap(),
        0,
    );
    assert(InteractionView { viewport_width: width, viewport_height: height, ..first.interaction }
        == first.interaction);
}

/// A pin request while a pin of the same file is held (same root, branch state and
/// root-relative path) removes it, whatever the presentation, content, notices or interaction of
/// either document; the notice is cleared, focus on the pin moves to the active preview and any
/// other focus stays.
pub proof fn pinning_the_pinned_file_unpins(state: ControllerView)
    requires
        state.active_display.document() is Some,
        state.pinned is Some,
        state.pinned->0.document.origin.spec_identity().same_file(
            &state.active_display.document()->0.origin.spec_identity(),
        ),
    ensures
        pinned_after(state).pinned is None,
        pinned_after(state).action_notice is None,
        pinned_after(state).focus == (if state.focus == Focus::Pinned {
            Focus::Content
        } else {
            state.focus
        }),
        pinned_after(state).active_display == state.active_display,
        pinned_after(state).active_interaction == state.active_interaction,
{
}

/// A pin request with a settled active document and no pin of the same file (no pin, or one
/// whose identity differs) pins a copy of that document with a copy of the active interaction
/// state, clears the notice and leaves focus where it was.
pub proof fn pinning_another_or_no_pin_captures_the_active_preview(state: ControllerView)
    requires
        state.active_display.document() is Some,
        state.pinned is None || !state.pinned->0.document.origin.spec_identity().same_file(
            &state.active_display.document()->0.origin.spec_identity(),
        ),
    ensures
        pinned_after(state).pinned == Some(
            PinnedView {
                document: state.active_display.document()->0,
                interaction: state.active_interaction,
            },
        ),
        pinned_after(state).action_notice is None,
        pinned_after(state).focus == state.focus,
{
}

/// The notice each kind of unpinnable display is answered with.
pub proof fn rejection_notices(state: ControllerView)
    ensures
        state.active_display is Loading ==> pinned_after(state).action_notice == Some(
            "Cannot pin while preview is rendering"@,
        ),
        state.active_display is Directory ==> pinned_after(state).action_notice == Some(
            "Cannot pin a directory"@,
        ),
        state.active_display is EmptyTree ==> pinned_after(state).action_notice == Some(
            "Cannot pin: no file is selected"@,
        ),
        !(state.active_display is Document) ==> pinned_after(state).pinned == state.pinned
            && pinned_after(state).focus == state.focus,
{
}

/// Measuring the pinned viewport records the measured width and height, keeps the frozen
/// document and the search, and keeps a vertical offset that has a full viewport of displayed
/// rows below it, the rows counted with the pin's own wrap setting (a wrapped line by its runs of
/// the measured columns). A wrapped pin has no horizontal offset.
pub proof fn measuring_pin_keeps_what_fits(pin: PinnedView, width: u16, height: u16)
    ensures
        ({
            let after = measured_pin(pin, width, height);
            let wrap = pin.document.presentation.spec_wrap();
            let rows = content_rows(
                text_line_widths(pin.document.content),
                usable_columns(width, 0),
                wrap,
            );
            &&& after.document == pin.document
            &&& after.interaction.viewport_width == width
            &&& after.interaction.viewport_height == height
            &&& after.interaction.search == pin.interaction.search
            &&& after.interaction.vertical_scroll <= pin.interaction.vertical_scroll
            &&& pin.interaction.vertical_scroll + height <= rows
                ==> after.interaction.vertical_scroll == pin.interaction.vertical_scroll
            &&& wrap ==> after.interaction.horizontal_scroll == 0
        }),
{
    clamping_keeps_what_fits(
        InteractionView { viewport_width: width, viewport_height: height, ..pin.interaction },
        text_line_widths(pin.document.content),
        pin.document.presentation.spec_wrap(),
        0,
    );
}

/// A projection of the pin shows exactly the pin: its frozen content, notices, wrap and inset
/// settings and origin; the pin's own offsets; its search hits with the same current hit; no
/// transient flash, title or rendering state; and at least one row per content line (exactly one
/// per line when unwrapped).
pub proof fn projection_shows_the_pin(projection: PreviewProjection, pin: PinnedView)
    requires
        projects_pin(projection, pin),
    ensures
        projection.content == pin.document.content,
        projection.notices@ == pin.document.notices,
        projection.wrap == pin.document.presentation.spec_wrap(),
        projection.pad_left == pin.document.presentation.spec_pad_left(),
        projection.origin == Some(pin.document.origin),
        projection.scroll == pin.interaction.vertical_scroll,
        projection.hscroll == pin.interaction.horizontal_scroll,
        projection.flash is None,
        projection.title is None,
        !projection.rendering,
        projection.search is Some <==> pin.interaction.search is Some,
        projection.search is Some ==> projection.search->0.matches@
            == pin.interaction.search->0.matches && projection.search->0.current
            == pin.interaction.search->0.current,
        text_line_widths(pin.document.content).len() < usize::MAX ==> projection.rows
            >= text_line_widths(pin.document.content).len(),
        !pin.document.presentation.spec_wrap() && text_line_widths(pin.document.content).len()
            < usize::MAX ==> projection.rows == text_line_widths(pin.document.content).len(),
{
    every_line_takes_a_row(
        text_line_widths(pin.document.content),
        usable_columns(pin.interaction.viewport_width, 0),
        pin.document.presentation.spec_wrap(),
    );
}

impl Controller {
    /// Create, replace, remove, or reject the one in-memory pinned snapshot.
    ///
    /// It never starts a render because a pin is a clone of the already-applied document.
    pub fn pin_active_preview(&mut self) -> (effects: Effects)
        ensures
            effects.redraw,
            final(self)@ == pinned_after(old(self)@),
            final(self)@.focus_consistent(),
    {
        proof {
            use_type_invariant(&*self);
        }
        let document = match &self.active_display {
            ActiveDisplay::Document(document) => document.clone(),
            ActiveDisplay::Loading { .. } => {
                self.action_notice = Some("Cannot pin while preview is rendering".to_owned());
                return Effects::redraw();
            },
            ActiveDisplay::Directory { .. } => {
                self.action_notice = Some("Cannot pin a directory".to_owned());
                return Effects::redraw();
            },
            ActiveDisplay::EmptyTree(_) => {
                self.action_notice = Some("Cannot pin: no file is selected".to_owned());
                return Effects::redraw();
            },
        };
        self.action_notice = None;
        let same_file = match &self.pinned_snapshot {
            Some(pin) => pin.document.origin().identity() == document.origin().identity(),
            None => false,
        };
        if same_file {
            if self.focus == Focus::Pinned {
                self.focus = Focus::Content;
            }
            self.pinned_snapshot = None;
        } else {
            self.pinned_snapshot = Some(
                PinnedSnapshot { document, interaction: self.active_interaction.clone() },
            );
        }
        Effects::redraw()
    }
}

/// The pin after its viewport is measured at `width` by `height`: the document unchanged, the
/// interaction taking the new viewport and its offsets held within what it allows.
pub open spec fn measured_pin(pin: PinnedView, width: u16, height: u16) -> PinnedView {
    PinnedView {
        document: pin.document,
        interaction: clamped(
            InteractionView { viewport_width: width, viewport_height: height, ..pin.interaction },
            text_line_widths(pin.document.content),
            pin.document.presentation.spec_wrap(),
            0,
        ),
    }
}

/// `projection` draws the pin: its frozen content, notices, presentation and origin, and the
/// pin's own offsets, search and row count, with nothing transient.
pub open spec fn projects_pin(projection: PreviewProjection, pin: PinnedView) -> bool {
    &&& projection.content == pin.document.content
    &&& projection.notices@ == pin.document.notices
    &&& projection.flash is None
    &&& projection.title is None
    &&& !projection.rendering
    &&& projection.scroll == pin.interaction.vertical_scroll
    &&& projection.hscroll == pin.interaction.horizontal_scroll
    &&& projection.rows == saturated(
        displayed_rows(
            pin.interaction,
            text_line_widths(pin.document.content),
            pin.document.presentation.spec_wrap(),
            0,
        ),
    )
    &&& projection.wrap == pin.document.presentation.spec_wrap()
    &&& projection.pad_left == pin.document.presentation.spec_pad_left()
    &&& match (projection.search, pin.interaction.search) {
        (Some(shown), Some(search)) => shown.matches@ == search.matches && shown.current
            == search.current,
        (None, None) => true,
        _ => false,
    }
    &&& projection.origin == Some(pin.document.origin)
}

impl Controller {
    /// The pinned preview's interaction state, while a pin exists.
    pub fn pinned_interaction(&self) -> (interaction: Option<&PreviewInteractionState>)
        ensures
            match interaction {
                Some(interaction) => self@.pinned matches Some(pin) && pin.interaction
                    == interaction@,
                None => self@.pinned is None,
            },
    {
        match &self.pinned_snapshot {
            Some(pin) => Some(&pin.interaction),
            None => None,
        }
    }

    /// The pinned preview's interaction state, for changing in place, while a pin exists; the
    /// frozen document and everything outside the pin stay as they are.
    pub fn pinned_interaction_mut(&mut self) -> (interaction: Option<&mut PreviewInteractionState>)
        ensures
            match interaction {
                Some(interaction) => old(self)@.pinned matches Some(pin) && interaction@
                    == pin.interaction && final(self)@ == (ControllerView {
                    pinned: Some(
                        PinnedView { document: pin.document, interaction: final(interaction)@ },
                    ),
                    ..old(self)@
                }),
                None => old(self)@.pinned is None && final(self)@ == old(self)@,
            },
    {
        proof {
            use_type_invariant(&*self);
        }
        PinnedSnapshot::interaction_of(&mut self.pinned_snapshot)
    }

    /// The pinned preview's frozen document, while a pin exists.
    pub fn pinned_document(&self) -> (document: Option<&PreviewDocument>)
        ensures
            match document {
                Some(document) => self@.pinned matches Some(pin) && pin.document == document@,
                None => self@.pinned is None,
            },
    {
        match &self.pinned_snapshot {
            Some(pin) => Some(&pin.document),
            None => None,
        }
    }

    /// Project the frozen snapshot for the shared presenter path.
    pub fn pinned_projection(&self) -> (projection: Option<PreviewProjection>)
        ensures
            match projection {
                Some(projection) => self@.pinned matches Some(pin) && projects_pin(
                    projection,
                    pin,
                ),
                None => self@.pinned is None,
            },
    {
        let pin = match &self.pinned_snapshot {
            Some(pin) => pin,
            None => return None,
        };
        let presentation = pin.document.presentation();
        let shown = pin.document.notices();
        let mut notices: Vec<String> = Vec::new();
        let mut index: usize = 0;
        while index < shown.len()
            invariant
                index <= shown@.len(),
                notices@ == shown@.take(index as int),
            decreases shown@.len() - index,
        {
            notices.push(shown[index].clone());
            assert(shown@.take(index + 1) =~= shown@.take(index as int).push(shown@[index as int]));
            index = index + 1;
        }
        assert(shown@.take(shown@.len() as int) =~= shown@);
        let search = match &pin.interaction.search {
            Some(search) => {
                let matches = search.matches.clone();
                assert(matches@ =~= search.matches@);
                Some(ContentSearch { matches, current: search.current })
            },
            None => None,
        };
        Some(
            PreviewProjection {
                content: pin.document.content().clone(),
                notices,
                flash: None,
                title: None,
                rendering: false,
                scroll: pin.interaction.vertical_scroll,
                hscroll: pin.interaction.horizontal_scroll,
                rows: rendered_rows(
                    &pin.interaction,
                    pin.document.content(),
                    presentation.wrap(),
                    0,
                ),
                wrap: presentation.wrap(),
                pad_left: presentation.pad_left(),
                search,
                origin: Some(pin.document.origin().clone()),
            },
        )
    }

    /// Record the pinned preview's independently measured viewport without triggering work.
    pub fn set_pinned_viewport(&mut self, viewport: Option<(u16, u16)>)
        ensures
            final(self)@ == (match (viewport, old(self)@.pinned) {
                (Some((width, height)), Some(pin)) => ControllerView {
                    pinned: Some(measured_pin(pin, width, height)),
                    ..old(self)@
                },
                _ => old(self)@,
            }),
            final(self)@.focus_consistent(),
    {
        proof {
            use_type_invariant(&*self);
        }
        let (width, height) = match viewport {
            Some(measured) => measured,
            None => return ,
        };
        PinnedSnapshot::measure(&mut self.pinned_snapshot, width, height);
    }
}

} // verus!
