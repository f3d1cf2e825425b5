//! Preview values shared by the active and pinned preview surfaces.

use crate::infile::{SearchState, SearchView};
use crate::paths::{path_eq, plain_path, same_location};
use crate::view_policy::ViewMode;
use ratatui::text::Text;
use vstd::prelude::*;

verus! {

/// The branch state captured with a preview origin.
#[derive(Debug, Eq, Hash)]
pub enum BranchState {
    /// The branch checked out when the preview was rendered.
    Named(String),
    /// The preview came from a detached HEAD (or another branchless root).
    Detached,
}

impl View for BranchState {
    /// The branch name, or `None` for a detached root.
    type V = Option<Seq<char>>;

    open spec fn view(&self) -> Option<Seq<char>> {
        match self {
            BranchState::Named(name) => Some(name@),
            BranchState::Detached => None,
        }
    }
}

impl PartialEq for BranchState {
    fn eq(&self, other: &Self) -> (equal: bool) {
        match (self, other) {
            (BranchState::Named(a), BranchState::Named(b)) => *a == *b,
            (BranchState::Detached, BranchState::Detached) => true,
            _ => false,
        }
    }
}

impl vstd::std_specs::cmp::PartialEqSpecImpl for BranchState {
    open spec fn obeys_eq_spec() -> bool {
        true
    }

    open spec fn eq_spec(&self, other: &Self) -> bool {
        self@ == other@
    }
}

impl Clone for BranchState {
    fn clone(&self) -> (copy: Self)
        ensures
            copy == *self,
    {
        match self {
            BranchState::Named(name) => BranchState::Named(name.clone()),
            BranchState::Detached => BranchState::Detached,
        }
    }
}

/// The identity used to determine whether two previews represent the same file.
///
/// A root identity captures both its root/worktree and branch state. A preview is the same file
/// only when that root identity and its root-relative path match. The absolute path is retained
/// for copying, but does not participate in pin replacement/removal decisions.
#[derive(Debug, Eq)]
pub struct PreviewIdentity {
    pub root: String,
    pub branch: BranchState,
    pub root_relative_path: String,
}

impl PreviewIdentity {
    /// Two identities name the same file: the same root, branch state and root-relative path.
    pub open spec fn same_file(&self, other: &PreviewIdentity) -> bool {
        &&& same_location(self.root@, other.root@)
        &&& self.branch@ == other.branch@
        &&& same_location(self.root_relative_path@, other.root_relative_path@)
    }
}

impl PartialEq for PreviewIdentity {
    fn eq(&self, other: &Self) -> (equal: bool) {
        path_eq(self.root.as_str(), other.root.as_str()) && self.branch == other.branch
            && path_eq(self.root_relative_path.as_str(), other.root_relative_path.as_str())
    }
}

impl core::hash::Hash for PreviewIdentity {
    /// Hashes the root and the root-relative path as `std::path::Path` values (component by
    /// component, as `Path` equality compares them) together with the branch state, by calling
    /// `Hash::hash` on that tuple; nothing is claimed of the hash.
    #[verifier::external_body]
    fn hash<H: core::hash::Hasher>(&self, state: &mut H) {
        (
            std::path::Path::new(&self.root),
            &self.branch,
            std::path::Path::new(&self.root_relative_path),
        ).hash(state)
    }
}

impl Clone for PreviewIdentity {
    fn clone(&self) -> (copy: Self)
        ensures
            copy == *self,
    {
        PreviewIdentity {
            root: self.root.clone(),
            branch: self.branch.clone(),
            root_relative_path: self.root_relative_path.clone(),
        }
    }
}

impl vstd::std_specs::cmp::PartialEqSpecImpl for PreviewIdentity {
    open spec fn obeys_eq_spec() -> bool {
        true
    }

    open spec fn eq_spec(&self, other: &Self) -> bool {
        self.same_file(other)
    }
}

/// The captured location and branch metadata for a display-ready preview.
///
/// This value is purely descriptive. It does not keep the root alive or access the filesystem
/// after capture, allowing a pinned preview to survive a worktree switch or removal.
#[derive(Debug, Eq)]
pub struct PreviewOrigin {
    /// The root/worktree that produced the preview.
    root: String,
    /// The branch state captured from that root.
    branch: BranchState,
    /// The fully-qualified path captured for an absolute-path copy request.
    absolute_path: String,
    /// The path below the root, captured for display and relative-path copying.
    root_relative_path: String,
}

impl PreviewOrigin {
    /// The root/worktree that produced the preview.
    pub closed spec fn spec_root(&self) -> String {
        self.root
    }

    /// The branch state captured from that root.
    pub closed spec fn spec_branch(&self) -> BranchState {
        self.branch
    }

    /// The fully-qualified path captured for absolute-path copying.
    pub closed spec fn spec_absolute_path(&self) -> String {
        self.absolute_path
    }

    /// The path below the root.
    pub closed spec fn spec_root_relative_path(&self) -> String {
        self.root_relative_path
    }

    /// The identity that [`PreviewOrigin::identity`] returns.
    pub open spec fn spec_identity(&self) -> PreviewIdentity {
        PreviewIdentity {
            root: self.spec_root(),
            branch: self.spec_branch(),
            root_relative_path: self.spec_root_relative_path(),
        }
    }

    /// Capture the location and branch metadata for a preview.
    pub fn new(
        root: String,
        branch: BranchState,
        absolute_path: String,
        root_relative_path: String,
    ) -> (origin: Self)
        ensures
            origin.spec_root() == root,
            origin.spec_branch() == branch,
            origin.spec_absolute_path() == absolute_path,
            origin.spec_root_relative_path() == root_relative_path,
    {
        PreviewOrigin { root, branch, absolute_path, root_relative_path }
    }

    /// Return the root/worktree that produced the preview.
    pub fn root(&self) -> (root: &str)
        ensures
            root@ == self.spec_root()@,
    {
        self.root.as_str()
    }

    /// Return the branch state captured from that root.
    pub fn branch(&self) -> (branch: &BranchState)
        ensures
            *branch == self.spec_branch(),
    {
        &self.branch
    }

    /// Return the fully-qualified path retained for absolute-path copy requests.
    pub fn absolute_path(&self) -> (path: &str)
        ensures
            path@ == self.spec_absolute_path()@,
    {
        self.absolute_path.as_str()
    }

    /// Return the root-relative path retained for display and relative-path copy requests.
    pub fn root_relative_path(&self) -> (path: &str)
        ensures
            path@ == self.spec_root_relative_path()@,
    {
        self.root_relative_path.as_str()
    }

    /// Return the stable file identity used by the pin lifecycle.
    pub fn identity(&self) -> (identity: PreviewIdentity)
        ensures
            identity == self.spec_identity(),
    {
        PreviewIdentity {
            root: self.root.clone(),
            branch: self.branch.clone(),
            root_relative_path: self.root_relative_path.clone(),
        }
    }
}

/// Two origins captured from the same root and branch for the same root-relative path have the
/// same file identity, whatever absolute paths they retain for copying.
pub proof fn identity_ignores_absolute_path(first: PreviewOrigin, second: PreviewOrigin)
    requires
        first.spec_root() == second.spec_root(),
        first.spec_branch() == second.spec_branch(),
        first.spec_root_relative_path() == second.spec_root_relative_path(),
    ensures
        first.spec_identity().same_file(&second.spec_identity()),
{
}

/// Identities whose roots are different plain path texts name different files, as do
/// identities whose root-relative paths are different plain path texts, or whose branch states
/// differ.
pub proof fn identities_with_distinct_plain_paths_differ(
    first: PreviewIdentity,
    second: PreviewIdentity,
)
    requires
        plain_path(first.root@),
        plain_path(second.root@),
        plain_path(first.root_relative_path@),
        plain_path(second.root_relative_path@),
        first.root@ != second.root@ || first.branch@ != second.branch@
            || first.root_relative_path@ != second.root_relative_path@,
    ensures
        !first.same_file(&second),
{
}

/// Every identity names the same file as itself.
pub proof fn identity_is_reflexive(identity: PreviewIdentity)
    ensures
        identity.same_file(&identity),
{
}

impl PartialEq for PreviewOrigin {
    fn eq(&self, other: &Self) -> (equal: bool) {
        path_eq(self.root.as_str(), other.root.as_str()) && self.branch == other.branch
            && path_eq(self.absolute_path.as_str(), other.absolute_path.as_str())
            && path_eq(self.root_relative_path.as_str(), other.root_relative_path.as_str())
    }
}

impl vstd::std_specs::cmp::PartialEqSpecImpl for PreviewOrigin {
    open spec fn obeys_eq_spec() -> bool {
        true
    }

    open spec fn eq_spec(&self, other: &Self) -> bool {
        &&& self.spec_identity().same_file(&other.spec_identity())
        &&& same_location(self.spec_absolute_path()@, other.spec_absolute_path()@)
    }
}

impl Clone for PreviewOrigin {
    fn clone(&self) -> (copy: Self)
        ensures
            copy == *self,
    {
        PreviewOrigin {
            root: self.root.clone(),
            branch: self.branch.clone(),
            absolute_path: self.absolute_path.clone(),
            root_relative_path: self.root_relative_path.clone(),
        }
    }
}

/// Presentation facts that determine how already-rendered preview content is projected.
#[derive(Debug, Clone, Copy, PartialEq, Eq, Structural)]
pub struct PreviewPresentation {
    /// The view that produced the captured display content.
    view_mode: ViewMode,
    /// Whether the captured preview is displayed with line wrapping.
    wrap: bool,
    /// Whether transformed content needs a left inset inside its border.
    pad_left: bool,
}

impl PreviewPresentation {
    /// The view that produced the captured display content.
    pub closed spec fn spec_view_mode(&self) -> ViewMode {
        self.view_mode
    }

    /// Whether the captured preview is displayed with line wrapping.
    pub closed spec fn spec_wrap(&self) -> bool {
        self.wrap
    }

    /// Whether transformed content needs a left inset inside its border.
    pub closed spec fn spec_pad_left(&self) -> bool {
        self.pad_left
    }

    /// Capture the projection facts applied to preview content.
    pub fn new(view_mode: ViewMode, wrap: bool, pad_left: bool) -> (presentation: Self)
        ensures
            presentation.spec_view_mode() == view_mode,
            presentation.spec_wrap() == wrap,
            presentation.spec_pad_left() == pad_left,
    {
        PreviewPresentation { view_mode, wrap, pad_left }
    }

    /// Return the view that produced the captured display content.
    pub fn view_mode(&self) -> (view_mode: ViewMode)
        ensures
            view_mode == self.spec_view_mode(),
    {
        self.view_mode
    }

    /// Return whether the captured preview is displayed with line wrapping.
    pub fn wrap(&self) -> (wrap: bool)
        ensures
            wrap == self.spec_wrap(),
        no_unwind
    {
        self.wrap
    }

    /// Return whether transformed content needs a left inset inside its border.
    pub fn pad_left(&self) -> (pad_left: bool)
        ensures
            pad_left == self.spec_pad_left(),
    {
        self.pad_left
    }
}

/// Two presentations are equal exactly when they hold the same view mode, wrap and left inset.
pub proof fn presentation_equality(first: PreviewPresentation, second: PreviewPresentation)
    ensures
        (first == second) <==> (first.spec_view_mode() == second.spec_view_mode()
            && first.spec_wrap() == second.spec_wrap() && first.spec_pad_left()
            == second.spec_pad_left()),
{
}

/// An immutable, display-ready file preview.
///
/// This value contains only applied file-preview data. Loading placeholders, selection state,
/// action notices, and render lifecycle flags remain session-controller concerns so a cloned
/// document is safe to freeze as a pin.
#[derive(Debug, PartialEq, Eq)]
pub struct PreviewDocument {
    /// Bounded, sanitized display content, including its renderer-provided styling.
    content: Text<'static>,
    /// Notices specific to this rendered content, such as truncation or a renderer fallback.
    notices: Vec<String>,
    /// Source lines retained for source-mapped views; absent for transformed views.
    source: Option<Vec<String>>,
    /// The display mode and projection details captured with the content.
    presentation: PreviewPresentation,
    /// The original file location and branch metadata.
    origin: PreviewOrigin,
}

/// The value a [`PreviewDocument`] holds.
pub struct DocumentView {
    pub content: Text<'static>,
    pub notices: Seq<String>,
    pub source: Option<Seq<String>>,
    pub presentation: PreviewPresentation,
    pub origin: PreviewOrigin,
}

impl View for PreviewDocument {
    type V = DocumentView;

    closed spec fn view(&self) -> DocumentView {
        DocumentView {
            content: self.content,
            notices: self.notices@,
            source: match self.source {
                Some(lines) => Some(lines@),
                None => None,
            },
            presentation: self.presentation,
            origin: self.origin,
        }
    }
}

impl PreviewDocument {
    /// Capture a complete, display-ready preview.
    pub fn new(
        content: Text<'static>,
        notices: Vec<String>,
        source: Option<Vec<String>>,
        presentation: PreviewPresentation,
        origin: PreviewOrigin,
    ) -> (document: Self)
        ensures
            document@.content == content,
            document@.notices == notices@,
            document@.source == (match source {
                Some(lines) => Some(lines@),
                None => None::<Seq<String>>,
            }),
            document@.presentation == presentation,
            document@.origin == origin,
    {
        PreviewDocument { content, notices, source, presentation, origin }
    }

    /// Return the bounded, sanitized display content.
    pub fn content(&self) -> (content: &Text<'static>)
        ensures
            *content == self@.content,
        no_unwind
    {
        &self.content
    }

    /// Return notices specific to this rendered content.
    pub fn notices(&self) -> (notices: &[String])
        ensures
            notices@ == self@.notices,
    {
        self.notices.as_slice()
    }

    /// Return source lines for source-mapped views, when retained.
    pub fn source(&self) -> (source: Option<&[String]>)
        ensures
            match source {
                Some(lines) => self@.source == Some(lines@),
                None => self@.source is None,
            },
    {
        match &self.source {
            Some(lines) => Some(lines.as_slice()),
            None => None,
        }
    }

    /// Return the display mode and projection details captured with the content.
    pub fn presentation(&self) -> (presentation: &PreviewPresentation)
        ensures
            *presentation == self@.presentation,
        no_unwind
    {
        &self.presentation
    }

    /// Return the original file location and branch metadata.
    pub fn origin(&self) -> (origin: &PreviewOrigin)
        ensures
            *origin == self@.origin,
    {
        &self.origin
    }
}

impl Clone for PreviewDocument {
    /// Copy every captured value into a document of its own.
    fn clone(&self) -> (copy: Self)
        ensures
            copy@ == self@,
    {
        let notices = self.notices.clone();
        assert(notices@ =~= self.notices@);
        let source = match &self.source {
            Some(lines) => {
                let copied = lines.clone();
                assert(copied@ =~= lines@);
                Some(copied)
            },
            None => None,
        };
        PreviewDocument {
            content: self.content.clone(),
            notices,
            source,
            presentation: self.presentation,
            origin: self.origin.clone(),
        }
    }
}

/// Mutable, session-only interactions for one preview document.
///
/// Active and pinned previews receive separate instances so their viewport and search state never
/// share mutations.
#[derive(Debug, PartialEq, Eq)]
pub struct PreviewInteractionState {
    /// Vertical viewport offset in displayed rows.
    pub vertical_scroll: u16,
    /// Horizontal viewport offset in display columns.
    pub horizontal_scroll: u16,
    /// The last measured drawable width for this preview.
    pub viewport_width: u16,
    /// The last measured drawable height for this preview.
    pub viewport_height: u16,
    /// The preview-local in-file search state, when a search has begun.
    pub search: Option<SearchState>,
}

/// The value a [`PreviewInteractionState`] holds.
pub struct InteractionView {
    pub vertical_scroll: u16,
    pub horizontal_scroll: u16,
    pub viewport_width: u16,
    pub viewport_height: u16,
    pub search: Option<SearchView>,
}

impl View for PreviewInteractionState {
    type V = InteractionView;

    open spec fn view(&self) -> InteractionView {
        InteractionView {
            vertical_scroll: self.vertical_scroll,
            horizontal_scroll: self.horizontal_scroll,
            viewport_width: self.viewport_width,
            viewport_height: self.viewport_height,
            search: match self.search {
                Some(search) => Some(search@),
                None => None,
            },
        }
    }
}

impl Clone for PreviewInteractionState {
    /// Copy the offsets, viewport and search into a state of its own.
    fn clone(&self) -> (copy: Self)
        ensures
            copy@ == self@,
    {
        let search = match &self.search {
            Some(search) => Some(search.clone()),
            None => None,
        };
        PreviewInteractionState {
            vertical_scroll: self.vertical_scroll,
            horizontal_scroll: self.horizontal_scroll,
            viewport_width: self.viewport_width,
            viewport_height: self.viewport_height,
            search,
        }
    }
}

impl Default for PreviewInteractionState {
    /// No scroll, no measured viewport, no search.
    fn default() -> (state: Self)
        ensures
            state@ == (InteractionView {
                vertical_scroll: 0,
                horizontal_scroll: 0,
                viewport_width: 0,
                viewport_height: 0,
                search: None,
            }),
    {
        PreviewInteractionState {
            vertical_scroll: 0,
            horizontal_scroll: 0,
            viewport_width: 0,
            viewport_height: 0,
            search: None,
        }
    }
}

} // verus!
