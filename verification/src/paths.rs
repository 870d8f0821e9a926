//! Path arithmetic. Paths are taken apart and compared by `std::path`,
//! under the rules of the platform the crate is built for. What it returns
//! is named here and never restated.
//!
//! `std::path` compares paths component by component and keeps `..` as a
//! component, so a path can start with a directory and still lead out of
//! it. Whether a path steps upward is therefore read off its text here.

use vstd::prelude::*;
use crate::text::chars_of;

verus! {

/// What `std::path::Path::parent` returns for `path`: the path without its
/// final component, if there is one.
pub uninterp spec fn parent_of(path: Seq<char>) -> Option<Seq<char>>;

/// What `std::path::Path::starts_with` returns: whether `base` is a prefix
/// of `path`, taken component by component.
pub uninterp spec fn path_starts_with(path: Seq<char>, base: Seq<char>) -> bool;

/// What `==` on two `std::path::Path` values returns: whether the two
/// paths have the same components.
pub uninterp spec fn paths_equal(a: Seq<char>, b: Seq<char>) -> bool;

/// The contents of an optional string.
pub open spec fn opt_text(s: Option<String>) -> Option<Seq<char>> {
    match s {
        Some(t) => Some(t@),
        None => None,
    }
}

/// `dir` lies below `root` and is not `root` itself, by the comparisons of
/// `std::path`.
pub open spec fn strictly_inside(dir: Seq<char>, root: Seq<char>) -> bool {
    !paths_equal(dir, root) && path_starts_with(dir, root)
}

/// A character at which a component of a path can begin or end on some
/// platform: the two separators and the colon of a drive prefix.
pub open spec fn is_boundary(c: char) -> bool {
    c == '/' || c == '\\' || c == ':'
}

/// The text holds `..` at `i`, with a boundary or an end of the text on
/// either side.
pub open spec fn parent_segment_at(path: Seq<char>, i: int) -> bool {
    &&& 0 <= i
    &&& i + 2 <= path.len()
    &&& path[i] == '.'
    &&& path[i + 1] == '.'
    &&& (i == 0 || is_boundary(path[i - 1]))
    &&& (i + 2 == path.len() || is_boundary(path[i + 2]))
}

/// The path steps upward somewhere: its text holds a `..` segment. Every
/// path in which `std::path` finds a `..` component has such a segment; a
/// name that holds a backslash or a colon can have one without.
pub open spec fn steps_upward(path: Seq<char>) -> bool {
    exists|i: int| parent_segment_at(path, i)
}

/// The number of `..` segments that begin before position `n`.
pub open spec fn upward_steps_before(path: Seq<char>, n: int) -> nat
    decreases n,
{
    if n <= 0 {
        0
    } else if parent_segment_at(path, n - 1) {
        upward_steps_before(path, n - 1) + 1
    } else {
        upward_steps_before(path, n - 1)
    }
}

/// The number of `..` segments in the path's text.
pub open spec fn upward_steps(path: Seq<char>) -> nat {
    upward_steps_before(path, path.len() as int)
}

/// `dir` does not lead out of `root`: it lies below the root, is not the
/// root itself, and steps upward no more often than the root does. A path
/// that starts with the root has the root's components first; where it
/// holds no more `..` than they do, none follows them.
pub open spec fn stays_below(dir: Seq<char>, root: Seq<char>) -> bool {
    strictly_inside(dir, root) && upward_steps(dir) == upward_steps(root)
}

/// There are no `..` segments before `n` exactly when none begins there,
/// and never more segments than positions.
pub proof fn lemma_upward_steps_before(path: Seq<char>, n: int)
    requires
        0 <= n,
    ensures
        upward_steps_before(path, n) <= n,
        upward_steps_before(path, n) == 0 <==> forall|i: int|
            0 <= i < n ==> !parent_segment_at(path, i),
    decreases n,
{
    if n > 0 {
        lemma_upward_steps_before(path, n - 1);
    }
}

/// A path has no `..` segments exactly when it steps upward nowhere.
pub proof fn lemma_upward_steps(path: Seq<char>)
    ensures
        upward_steps(path) == 0 <==> !steps_upward(path),
        upward_steps(path) <= path.len(),
{
    lemma_upward_steps_before(path, path.len() as int);
    if steps_upward(path) {
        let i = choose|i: int| parent_segment_at(path, i);
        assert(0 <= i < path.len());
    }
}

/// Whether a character is a boundary.
pub fn at_boundary(c: char) -> (r: bool)
    ensures
        r == is_boundary(c),
{
    c == '/' || c == '\\' || c == ':'
}

/// Counts the `..` segments in the path's text.
pub fn count_upward_steps(path: &str) -> (count: usize)
    ensures
        count == upward_steps(path@),
{
    let text = chars_of(path);
    let n: usize = text.len();
    let mut count: usize = 0;
    let mut i: usize = 0;
    while i < n
        invariant
            n == text.len(),
            text@ == path@,
            i <= n,
            count == upward_steps_before(text@, i as int),
            count <= i,
        decreases n - i,
    {
        if text[i] == '.' && i + 1 < n && text[i + 1] == '.' && (i == 0 || at_boundary(
            text[i - 1],
        )) && (i + 2 == n || at_boundary(text[i + 2])) {
            assert(parent_segment_at(text@, i as int));
            count += 1;
        } else {
            assert(!parent_segment_at(text@, i as int));
        }
        i += 1;
    }
    count
}

/// The parent of `path`.
///
/// Calls `std::path::Path::parent`, which returns the path without its
/// final component, if there is one. The contract names the result; it is
/// a function of the path's text alone. Since a component is taken away,
/// the parent is shorter than the path. The parent of a path that is valid
/// UTF-8 is a part of that path, so turning it back into a string loses
/// nothing.
#[verifier::external_body]
pub(crate) fn parent(path: &str) -> (r: Option<String>)
    ensures
        opt_text(r) == parent_of(path@),
        r matches Some(p) ==> p@.len() < path@.len(),
{
    match std::path::Path::new(path).parent() {
        Some(p) => Some(p.to_string_lossy().into_owned()),
        None => None,
    }
}

/// Whether `path` starts with `base`.
///
/// Calls `std::path::Path::starts_with`, which compares whole components.
/// The contract names the result.
#[verifier::external_body]
pub(crate) fn starts_with(path: &str, base: &str) -> (r: bool)
    ensures
        r == path_starts_with(path@, base@),
{
    std::path::Path::new(path).starts_with(std::path::Path::new(base))
}

/// Whether two paths are the same path.
///
/// Calls `==` of `std::path::Path`, which compares the two paths'
/// components. The contract names the result.
#[verifier::external_body]
pub(crate) fn same_path(a: &str, b: &str) -> (r: bool)
    ensures
        r == paths_equal(a@, b@),
{
    std::path::Path::new(a) == std::path::Path::new(b)
}

} // verus!
