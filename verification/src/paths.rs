//! Path identity as `std::path::Path` decides it.
//!
//! Captured paths are held as text. Two path texts name the same path when `Path`'s equality,
//! which compares parsed components (so `a//b` and `a/b` agree), says so.

use vstd::prelude::*;

verus! {

/// Whether `Path`'s component-wise equality holds between the paths spelled `a` and `b`.
pub uninterp spec fn same_path(a: Seq<char>, b: Seq<char>) -> bool;

/// A path text that `Path` parses without normalising anything away, on every platform: no `\`
/// and no `:` (no Windows separator or prefix), no empty component (`//`), no `.` component, and
/// no trailing separator except for the lone root `/`. Its components, joined by `/` after an
/// optional leading root, give the text back.
pub open spec fn plain_path(path: Seq<char>) -> bool {
    &&& forall|i: int| 0 <= i < path.len() ==> #[trigger] path[i] != '\\' && path[i] != ':'
    &&& forall|i: int|
        0 <= i < path.len() - 1 ==> !(#[trigger] path[i] == '/' && path[i + 1] == '/')
    &&& path.len() > 1 ==> path.last() != '/'
    &&& !(path.len() == 1 && path[0] == '.')
    &&& !(path.len() >= 2 && path[0] == '.' && path[1] == '/')
    &&& !(path.len() >= 2 && path[path.len() - 2] == '/' && path.last() == '.')
    &&& forall|i: int|
        0 <= i < path.len() - 2 ==> !(#[trigger] path[i] == '/' && path[i + 1] == '.' && path[i
            + 2] == '/')
}

/// Two captured path texts name one location. Plain texts do so exactly when they are the same
/// text; any other pair when they are the same text or `Path` equality holds.
pub open spec fn same_location(a: Seq<char>, b: Seq<char>) -> bool {
    if plain_path(a) && plain_path(b) {
        a == b
    } else {
        a == b || same_path(a, b)
    }
}

/// Calls `PartialEq::eq` on `Path::new(a)` and `Path::new(b)`. Its result is named
/// [`same_path`]. `Path` equality compares components: identical texts compare equal, and since
/// component parsing only drops repeated separators, interior `.` components and trailing
/// separators ("no other normalization takes place"), two plain texts compare equal only when
/// they are the same text.
#[verifier::external_body]
pub(crate) fn path_eq(a: &str, b: &str) -> (equal: bool)
    ensures
        equal == same_path(a@, b@),
        a@ == b@ ==> equal,
        plain_path(a@) && plain_path(b@) ==> (equal <==> a@ == b@),
{
    std::path::Path::new(a) == std::path::Path::new(b)
}

} // verus!
