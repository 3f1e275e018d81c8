//! Paths, as `std::path` joins and shortens them.

use vstd::prelude::*;

verus! {

/// The path that `std::path::Path::join` makes of `base` and `part`.
pub uninterp spec fn joined_path(base: Seq<char>, part: Seq<char>) -> Seq<char>;

/// The parent that `std::path::Path::parent` gives of `path`, if it has one.
pub uninterp spec fn parent_path(path: Seq<char>) -> Option<Seq<char>>;

/// The number of components that `std::path::Path::components` yields for
/// `path`.
pub uninterp spec fn component_count(path: Seq<char>) -> nat;

/// A single path component that is relative on every platform and names
/// neither the current nor the parent directory: not empty, not `.` or `..`,
/// and free of `/`, `\` and `:`.
pub open spec fn plain_component(part: Seq<char>) -> bool {
    &&& part.len() > 0
    &&& part != seq!['.']
    &&& part != seq!['.', '.']
    &&& forall|k: int| 0 <= k < part.len() ==> part[k] != '/' && part[k] != '\\' && part[k] != ':'
}

/// A path with a Windows verbatim prefix, `\\?\`, which a join normalizes.
pub open spec fn verbatim(path: Seq<char>) -> bool {
    path.len() >= 4 && path.subrange(0, 4) == seq!['\\', '\\', '?', '\\']
}

/// Calls `std::path::Path::join`: the result is taken to be `joined_path` of
/// the two arguments. Where `part` is a plain relative component and `base`
/// has no verbatim prefix (after which a join normalizes the whole path), the
/// join adjoins `part` to `base`: the result starts with `base` and ends with
/// `part`. Whether a separator stands between them, and what happens to
/// other parts, depends on the platform's path syntax and is not said. Both
/// arguments are text, so the joined path is text too and its conversion
/// loses nothing.
#[verifier::external_body]
pub(crate) fn join_path(base: &str, part: &str) -> (r: String)
    ensures
        r@ == joined_path(base@, part@),
        plain_component(part@) && !verbatim(base@) ==> base@.len() + part@.len() <= r@.len() && r@.subrange(
            0,
            base@.len() as int,
        ) == base@ && r@.subrange(r@.len() - part@.len(), r@.len() as int) == part@,
{
    std::path::Path::new(base).join(part).to_string_lossy().into_owned()
}

/// Calls `std::path::Path::parent`, which gives the path without its final
/// component, or nothing for a root, a prefix or the empty path: the result is
/// taken to be `parent_path` of the argument, and, being the path without its
/// final component, a proper prefix of it with one component fewer. The
/// parent is a part of the given text, so its conversion loses nothing.
#[verifier::external_body]
pub(crate) fn parent_dir(path: &str) -> (r: Option<String>)
    ensures
        match r {
            Some(p) => parent_path(path@) == Some(p@),
            None => parent_path(path@) is None,
        },
        r matches Some(p) ==> p@.len() < path@.len() && p@ == path@.subrange(0, p@.len() as int),
        r matches Some(p) ==> component_count(p@) + 1 == component_count(path@),
{
    match std::path::Path::new(path).parent() {
        Some(p) => Some(p.to_string_lossy().into_owned()),
        None => None,
    }
}

/// Calls `std::path::Path::components` and counts what it yields: the result
/// is `component_count` of the argument.
#[verifier::external_body]
pub(crate) fn count_components(path: &str) -> (r: usize)
    ensures
        r as nat == component_count(path@),
{
    std::path::Path::new(path).components().count()
}

} // verus!
