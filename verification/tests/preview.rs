use std::hash::{Hash, Hasher};
use herdr_file_viewer::infile::SearchState;
use herdr_file_viewer::preview::{
    BranchState, PreviewDocument, PreviewIdentity, PreviewInteractionState, PreviewOrigin,
    PreviewPresentation,
};
use herdr_file_viewer::search::Match;
use herdr_file_viewer::view_policy::ViewMode;
use ratatui::style::{Color, Modifier, Style};
use ratatui::text::{Line, Span, Text};

fn origin(root: &str) -> PreviewOrigin {
    PreviewOrigin::new(
        root.to_string(),
        BranchState::Named("feature/pin".into()),
        format!("{root}/src/lib.rs"),
        "src/lib.rs".to_string(),
    )
}

fn origin_with(root: &str, branch: BranchState, absolute: &str, relative: &str) -> PreviewOrigin {
    PreviewOrigin::new(root.to_string(), branch, absolute.to_string(), relative.to_string())
}

fn styled(color: Color) -> Text<'static> {
    Text::from(Line::from(Span::styled(
        "pub fn run() {}",
        Style::new().fg(color).add_modifier(Modifier::BOLD),
    )))
}

fn syntax() -> PreviewPresentation {
    PreviewPresentation::new(ViewMode::SyntaxContent, false, false)
}

fn document_with(
    content: Text<'static>,
    notices: Vec<String>,
    source: Option<Vec<String>>,
    presentation: PreviewPresentation,
    origin: PreviewOrigin,
) -> PreviewDocument {
    PreviewDocument::new(content, notices, source, presentation, origin)
}

fn document() -> PreviewDocument {
    document_with(
        styled(Color::Cyan),
        vec!["renderer fallback: plain text".into()],
        Some(vec!["pub fn run() {}".into()]),
        syntax(),
        origin("/worktrees/feature"),
    )
}

#[test]
fn preview_document_equality_covers_every_captured_value() {
    let document = document();
    assert_eq!(document.clone(), document);

    assert_ne!(
        document,
        document_with(
            styled(Color::Green),
            vec!["renderer fallback: plain text".into()],
            Some(vec!["pub fn run() {}".into()]),
            syntax(),
            origin("/worktrees/feature"),
        ),
        "styled display content is part of a frozen document"
    );
    assert_ne!(
        document,
        document_with(
            styled(Color::Cyan),
            vec!["truncated preview".into()],
            Some(vec!["pub fn run() {}".into()]),
            syntax(),
            origin("/worktrees/feature"),
        ),
        "content-specific notices are part of a frozen document"
    );
    assert_ne!(
        document,
        document_with(
            styled(Color::Cyan),
            vec!["renderer fallback: plain text".into()],
            None,
            syntax(),
            origin("/worktrees/feature"),
        ),
        "retained source metadata is part of a frozen document"
    );
    assert_ne!(
        document,
        document_with(
            styled(Color::Cyan),
            vec!["renderer fallback: plain text".into()],
            Some(vec!["pub fn run() {}".into()]),
            PreviewPresentation::new(ViewMode::RenderedMarkdown, true, true),
            origin("/worktrees/feature"),
        ),
        "presentation metadata is part of a frozen document"
    );
    let with_origin = |origin: PreviewOrigin| {
        document_with(
            styled(Color::Cyan),
            vec!["renderer fallback: plain text".into()],
            Some(vec!["pub fn run() {}".into()]),
            syntax(),
            origin,
        )
    };
    let named = || BranchState::Named("feature/pin".into());
    assert_ne!(
        document,
        with_origin(origin_with(
            "/worktrees/feature",
            named(),
            "/worktrees/feature/src/main.rs",
            "src/lib.rs",
        )),
        "the absolute path is part of a frozen document"
    );
    assert_ne!(
        document,
        with_origin(origin_with(
            "/worktrees/feature",
            named(),
            "/worktrees/feature/src/lib.rs",
            "src/main.rs",
        )),
        "the root-relative path is part of a frozen document"
    );
    assert_ne!(
        document,
        with_origin(origin_with(
            "/worktrees/other",
            named(),
            "/worktrees/feature/src/lib.rs",
            "src/lib.rs",
        )),
        "the root identity is part of a frozen document"
    );
    assert_ne!(
        document,
        with_origin(origin_with(
            "/worktrees/feature",
            BranchState::Detached,
            "/worktrees/feature/src/lib.rs",
            "src/lib.rs",
        )),
        "the branch identity is part of a frozen document"
    );
}

#[test]
fn preview_identity_is_the_root_identity_and_root_relative_path_pair() {
    let original = origin("/worktrees/feature");
    let same_file = origin("/worktrees/feature");
    let another_file = origin_with(
        "/worktrees/feature",
        BranchState::Named("feature/pin".into()),
        "/worktrees/feature/src/main.rs",
        "src/main.rs",
    );

    assert_eq!(original.identity(), same_file.identity());
    let same_file_with_a_different_absolute_path = origin_with(
        "/worktrees/feature",
        BranchState::Named("feature/pin".into()),
        "/copied-preview/src/lib.rs",
        "src/lib.rs",
    );
    assert_eq!(
        original.identity(),
        same_file_with_a_different_absolute_path.identity(),
        "absolute paths are retained for copying, not preview identity"
    );
    assert_ne!(original.identity(), another_file.identity());

    let detached = origin_with(
        "/worktrees/feature",
        BranchState::Detached,
        "/worktrees/feature/src/lib.rs",
        "src/lib.rs",
    );
    assert_ne!(original.identity(), detached.identity());
}

#[test]
fn the_same_relative_path_in_two_roots_has_a_different_preview_identity() {
    assert_ne!(
        origin("/worktrees/feature-a").identity(),
        origin("/worktrees/feature-b").identity()
    );
}

#[test]
fn cloned_preview_interaction_state_is_equal_then_mutates_independently() {
    let interaction = PreviewInteractionState {
        vertical_scroll: 12,
        horizontal_scroll: 3,
        viewport_width: 80,
        viewport_height: 22,
        search: Some(SearchState {
            query: "needle".into(),
            matches: vec![Match {
                line: 4,
                start: 2,
                end: 8,
            }],
            current: 0,
        }),
    };
    let mut copied = interaction.clone();

    assert_eq!(copied, interaction);

    copied.vertical_scroll = 19;
    copied.search.as_mut().unwrap().query = "changed".into();

    assert_eq!(interaction.vertical_scroll, 12);
    assert_eq!(interaction.search.as_ref().unwrap().query, "needle");
    assert_ne!(copied, interaction);
}

#[test]
fn origin_accessors_return_the_captured_values() {
    let origin = origin("/worktrees/feature");
    assert_eq!(origin.root(), "/worktrees/feature");
    assert_eq!(origin.branch(), &BranchState::Named("feature/pin".into()));
    assert_eq!(origin.absolute_path(), "/worktrees/feature/src/lib.rs");
    assert_eq!(origin.root_relative_path(), "src/lib.rs");
    assert_eq!(
        origin.identity(),
        PreviewIdentity {
            root: "/worktrees/feature".into(),
            branch: BranchState::Named("feature/pin".into()),
            root_relative_path: "src/lib.rs".into(),
        }
    );
}

#[test]
fn identity_compares_paths_by_their_components() {
    let spelled = origin_with(
        "/worktrees//feature",
        BranchState::Detached,
        "/worktrees/feature/src/lib.rs",
        "src/./lib.rs",
    );
    let plain = origin_with(
        "/worktrees/feature",
        BranchState::Detached,
        "/elsewhere/src/lib.rs",
        "src/lib.rs",
    );
    assert_eq!(spelled.identity(), plain.identity());
    assert_ne!(spelled, plain, "the absolute paths differ");
    assert_ne!(
        origin_with("/worktrees/feature", BranchState::Detached, "/a", "src/lib.rs").identity(),
        origin_with("/worktrees/feature", BranchState::Detached, "/a", "src/lib.rs/x").identity()
    );
}

#[test]
fn branch_states_compare_by_name() {
    assert_eq!(BranchState::Named("main".into()), BranchState::Named("main".into()));
    assert_ne!(BranchState::Named("main".into()), BranchState::Named("dev".into()));
    assert_ne!(BranchState::Named("main".into()), BranchState::Detached);
    assert_eq!(BranchState::Detached, BranchState::Detached);
    assert_eq!(BranchState::Named("x".into()).clone(), BranchState::Named("x".into()));
}

#[test]
fn presentation_and_document_accessors_return_the_captured_values() {
    let presentation = PreviewPresentation::new(ViewMode::RenderedMarkdown, true, false);
    assert_eq!(presentation.view_mode(), ViewMode::RenderedMarkdown);
    assert!(presentation.wrap());
    assert!(!presentation.pad_left());

    let document = document();
    assert_eq!(document.content(), &styled(Color::Cyan));
    assert_eq!(document.notices(), ["renderer fallback: plain text".to_string()]);
    assert_eq!(document.source(), Some(&["pub fn run() {}".to_string()][..]));
    assert_eq!(*document.presentation(), syntax());
    assert_eq!(document.origin(), &origin("/worktrees/feature"));

    let transformed = document_with(
        styled(Color::Cyan),
        Vec::new(),
        None,
        syntax(),
        origin("/r"),
    );
    assert_eq!(transformed.source(), None);
    assert!(transformed.notices().is_empty());
}

#[test]
fn default_interaction_state_is_unscrolled_and_unmeasured() {
    let state = PreviewInteractionState::default();
    assert_eq!(state.vertical_scroll, 0);
    assert_eq!(state.horizontal_scroll, 0);
    assert_eq!(state.viewport_width, 0);
    assert_eq!(state.viewport_height, 0);
    assert!(state.search.is_none());
}

fn hash_of(identity: &PreviewIdentity) -> u64 {
    let mut hasher = std::collections::hash_map::DefaultHasher::new();
    identity.hash(&mut hasher);
    hasher.finish()
}

#[test]
fn equal_identities_hash_alike() {
    let spelled = PreviewIdentity {
        root: "/worktrees//feature/".into(),
        branch: BranchState::Named("main".into()),
        root_relative_path: "src/./lib.rs".into(),
    };
    let plain = PreviewIdentity {
        root: "/worktrees/feature".into(),
        branch: BranchState::Named("main".into()),
        root_relative_path: "src/lib.rs".into(),
    };
    assert_eq!(spelled, plain);
    assert_eq!(hash_of(&spelled), hash_of(&plain));
    let set: std::collections::HashSet<PreviewIdentity> = [spelled, plain].into_iter().collect();
    assert_eq!(set.len(), 1);
}

#[test]
fn presentations_are_equal_exactly_when_their_values_are() {
    let base = PreviewPresentation::new(ViewMode::SyntaxContent, true, false);
    assert_eq!(base, PreviewPresentation::new(ViewMode::SyntaxContent, true, false));
    assert_ne!(base, PreviewPresentation::new(ViewMode::RenderedMarkdown, true, false));
    assert_ne!(base, PreviewPresentation::new(ViewMode::SyntaxContent, false, false));
    assert_ne!(base, PreviewPresentation::new(ViewMode::SyntaxContent, true, true));
}
