use herdr_file_viewer::controller::{ActiveDisplay, Controller};
use herdr_file_viewer::infile::SearchState;
use herdr_file_viewer::presenter::Focus;
use herdr_file_viewer::preview::{
    BranchState, PreviewDocument, PreviewInteractionState, PreviewOrigin, PreviewPresentation,
};
use herdr_file_viewer::search::Match;
use herdr_file_viewer::view_policy::ViewMode;
use ratatui::text::Text;

fn twenty_lines() -> Text<'static> {
    Text::raw(
        (1..=20)
            .map(|n| format!("line {n} needle"))
            .collect::<Vec<_>>()
            .join("\n"),
    )
}

fn file_origin(root: &str, relative: &str) -> PreviewOrigin {
    PreviewOrigin::new(
        root.to_string(),
        BranchState::Named("main".into()),
        format!("{root}/{relative}"),
        relative.to_string(),
    )
}

fn document_for(relative: &str, content: Text<'static>, wrap: bool) -> PreviewDocument {
    PreviewDocument::new(
        content,
        vec!["renderer fallback: plain text".into()],
        None,
        PreviewPresentation::new(ViewMode::SyntaxContent, wrap, true),
        file_origin("/repo", relative),
    )
}

fn settled(relative: &str) -> Controller {
    Controller::new(ActiveDisplay::Document(document_for(relative, twenty_lines(), false)))
}

fn needle_search() -> SearchState {
    SearchState {
        query: "needle".into(),
        matches: vec![Match {
            line: 4,
            start: 7,
            end: 13,
        }],
        current: 0,
    }
}

#[test]
fn pinning_clones_the_settled_preview_then_the_same_identity_unpins() {
    let mut ctrl = settled("preview.rs");
    let interaction = ctrl.active_interaction_mut();
    interaction.vertical_scroll = 7;
    interaction.horizontal_scroll = 3;
    interaction.search = Some(needle_search());

    assert!(ctrl.pin_active_preview().redraw);
    assert_eq!(ctrl.action_notice(), None);
    let pinned = ctrl.pinned_document().expect("settled file is pinned");
    assert_eq!(Some(pinned), ctrl.active_document());
    assert_eq!(ctrl.pinned_interaction(), Some(ctrl.active_interaction()));
    let projection = ctrl.pinned_projection().expect("a pin projects");
    assert_eq!(projection.content, twenty_lines());
    assert_eq!(projection.scroll, 7);
    assert_eq!(projection.hscroll, 3);
    assert_eq!(projection.search.expect("copied search").matches.len(), 1);

    assert!(ctrl.pin_active_preview().redraw);
    assert!(ctrl.pinned_document().is_none(), "same identity removes the pin");
    assert!(ctrl.pinned_projection().is_none());

    assert!(ctrl.pin_active_preview().redraw);
    assert!(ctrl.pinned_document().is_some());
}

#[test]
fn rejected_pin_attempts_are_explained_and_leave_no_pin() {
    let cases = [
        (
            ActiveDisplay::Loading {
                path: "/repo/a.rs".into(),
            },
            "Cannot pin while preview is rendering",
        ),
        (
            ActiveDisplay::Directory {
                path: "/repo/child".into(),
            },
            "Cannot pin a directory",
        ),
        (
            ActiveDisplay::EmptyTree("no files".into()),
            "Cannot pin: no file is selected",
        ),
    ];
    for (display, notice) in cases {
        let mut ctrl = Controller::new(display);
        assert!(ctrl.active_document().is_none());
        assert!(ctrl.pin_active_preview().redraw);
        assert!(ctrl.pinned_document().is_none());
        assert_eq!(ctrl.action_notice(), Some(notice));
        assert_eq!(ctrl.focus(), Focus::Tree);
    }
}

#[test]
fn a_rejected_attempt_keeps_an_existing_pin() {
    let mut ctrl = settled("a.rs");
    ctrl.pin_active_preview();
    ctrl.set_active_display(ActiveDisplay::Loading {
        path: "/repo/b.rs".into(),
    });
    ctrl.pin_active_preview();
    assert_eq!(
        ctrl.action_notice(),
        Some("Cannot pin while preview is rendering")
    );
    let pinned = ctrl.pinned_document().expect("the earlier pin stays");
    assert_eq!(pinned.origin().root_relative_path(), "a.rs");

    ctrl.set_active_display(ActiveDisplay::Document(document_for(
        "a.rs",
        twenty_lines(),
        false,
    )));
    ctrl.pin_active_preview();
    assert_eq!(ctrl.action_notice(), None, "a settled pin request clears the notice");
    assert!(ctrl.pinned_document().is_none());
}

#[test]
fn pinning_a_different_file_replaces_the_one_frozen_snapshot() {
    let mut ctrl = settled("a.rs");
    ctrl.pin_active_preview();
    let first = ctrl.pinned_document().unwrap().origin().clone();

    ctrl.set_active_display(ActiveDisplay::Document(document_for(
        "b.rs",
        Text::raw("b"),
        false,
    )));
    let frozen = ctrl.pinned_projection().expect("navigation keeps the pin");
    assert_eq!(frozen.origin.as_ref(), Some(&first));
    assert_eq!(frozen.content, twenty_lines());

    ctrl.pin_active_preview();
    let replacement = ctrl.pinned_projection().expect("different file replaces");
    assert_ne!(replacement.origin.as_ref(), Some(&first));
    assert_eq!(replacement.content, Text::raw("b"));
}

#[test]
fn removing_a_focused_pin_returns_focus_to_the_active_preview() {
    let mut ctrl = settled("preview.rs");
    assert!(!ctrl.set_focus(Focus::Pinned), "no pin to focus yet");
    assert_eq!(ctrl.focus(), Focus::Tree);

    ctrl.pin_active_preview();
    assert!(ctrl.set_focus(Focus::Pinned));
    assert_eq!(ctrl.focus(), Focus::Pinned);

    ctrl.pin_active_preview();
    assert!(ctrl.pinned_document().is_none());
    assert_eq!(ctrl.focus(), Focus::Content);
}

#[test]
fn unpinning_keeps_tree_focus() {
    let mut ctrl = settled("preview.rs");
    ctrl.pin_active_preview();
    ctrl.pin_active_preview();
    assert_eq!(ctrl.focus(), Focus::Tree);
}

#[test]
fn active_changes_after_pinning_do_not_reach_the_pin() {
    let mut ctrl = settled("preview.md");
    ctrl.active_interaction_mut().search = Some(needle_search());
    ctrl.pin_active_preview();
    let before = ctrl.pinned_projection().unwrap();

    let interaction = ctrl.active_interaction_mut();
    interaction.vertical_scroll = 11;
    interaction.horizontal_scroll = 9;
    interaction.search.as_mut().unwrap().query = "changed".into();
    ctrl.set_active_display(ActiveDisplay::Document(document_for(
        "preview.md",
        Text::raw("after refresh"),
        false,
    )));

    let after = ctrl.pinned_projection().expect("pin survives active refresh");
    assert_eq!(after, before);
    assert_eq!(
        ctrl.pinned_interaction().unwrap().search.as_ref().unwrap().query,
        "needle"
    );
}

#[test]
fn pinned_interaction_changes_do_not_reach_the_active_preview() {
    let mut ctrl = settled("preview.rs");
    ctrl.pin_active_preview();
    let pinned = ctrl.pinned_interaction_mut().expect("a pin exists");
    pinned.vertical_scroll = 5;
    pinned.search = Some(needle_search());

    assert_eq!(ctrl.active_interaction(), &PreviewInteractionState::default());
    assert_eq!(ctrl.pinned_projection().unwrap().scroll, 5);
    assert!(ctrl.pinned_projection().unwrap().search.is_some());

    let mut unpinned = settled("preview.rs");
    assert!(unpinned.pinned_interaction_mut().is_none());
    assert!(unpinned.pinned_interaction().is_none());
}

#[test]
fn pinned_viewport_measurement_clamps_the_pinned_offsets_only() {
    let mut ctrl = settled("preview.rs");
    let active = ctrl.active_interaction_mut();
    active.vertical_scroll = 30;
    active.horizontal_scroll = 20;
    ctrl.pin_active_preview();

    ctrl.set_pinned_viewport(Some((8, 4)));
    let pinned = ctrl.pinned_interaction().unwrap();
    assert_eq!(pinned.viewport_width, 8);
    assert_eq!(pinned.viewport_height, 4);
    // Twenty one-row lines in a four-row viewport scroll at most sixteen rows; the widest
    // line, "line 20 needle", overhangs eight columns by six.
    assert_eq!(pinned.vertical_scroll, 16);
    assert_eq!(pinned.horizontal_scroll, 6);
    assert_eq!(ctrl.active_interaction().vertical_scroll, 30);
    assert_eq!(ctrl.active_interaction().horizontal_scroll, 20);
    assert_eq!(ctrl.active_interaction().viewport_width, 0);

    let once = ctrl.pinned_interaction().unwrap().clone();
    ctrl.set_pinned_viewport(Some((8, 4)));
    assert_eq!(ctrl.pinned_interaction().unwrap(), &once, "measuring again is stable");

    ctrl.set_pinned_viewport(None);
    assert_eq!(ctrl.pinned_interaction().unwrap(), &once);

    ctrl.set_pinned_viewport(Some((80, 40)));
    let roomy = ctrl.pinned_interaction().unwrap();
    assert_eq!(roomy.vertical_scroll, 0);
    assert_eq!(roomy.horizontal_scroll, 0);
}

#[test]
fn measuring_without_a_pin_changes_nothing() {
    let mut ctrl = settled("preview.rs");
    ctrl.set_pinned_viewport(Some((8, 4)));
    assert!(ctrl.pinned_interaction().is_none());
    assert_eq!(ctrl.active_interaction(), &PreviewInteractionState::default());
}

#[test]
fn pinned_projection_counts_wrapped_rows_and_carries_presentation() {
    // Widths 10 and 3: at four columns the wrapped lines take 3 and 1 rows.
    let content = Text::raw("0123456789\nabc");
    let mut ctrl = Controller::new(ActiveDisplay::Document(document_for(
        "wrapped.rs",
        content.clone(),
        true,
    )));
    ctrl.pin_active_preview();
    ctrl.set_pinned_viewport(Some((4, 2)));
    let projection = ctrl.pinned_projection().unwrap();
    assert_eq!(content.lines.len(), 2);
    assert_eq!(projection.rows, 4);
    assert!(projection.wrap);
    assert!(projection.pad_left);
    assert!(!projection.rendering);
    assert!(projection.flash.is_none());
    assert!(projection.title.is_none());
    assert_eq!(projection.notices, vec!["renderer fallback: plain text".to_string()]);
    assert_eq!(
        projection.origin.unwrap().root_relative_path(),
        "wrapped.rs"
    );
    assert_eq!(projection.hscroll, 0);
}

#[test]
fn unwrapped_projection_takes_one_row_per_line() {
    let mut ctrl = settled("preview.rs");
    ctrl.pin_active_preview();
    ctrl.set_pinned_viewport(Some((4, 2)));
    assert_eq!(ctrl.pinned_projection().unwrap().rows, 20);
}

#[test]
fn a_new_controller_has_no_pin_notice_or_pinned_focus() {
    let ctrl = settled("preview.rs");
    assert_eq!(ctrl.focus(), Focus::Tree);
    assert!(ctrl.action_notice().is_none());
    assert!(ctrl.pinned_document().is_none());
    assert!(ctrl.active_document().is_some());
    assert_eq!(ctrl.active_interaction(), &PreviewInteractionState::default());
}
