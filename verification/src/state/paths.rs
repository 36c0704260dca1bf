//! File-system path questions answered by std's `Path`.
use vstd::prelude::*;

verus! {

/// What `Path::new(p).file_name()` yields for the path text `p`: its final
/// component, or `None` when the path ends in `..` or has no components.
pub uninterp spec fn path_file_name(path: Seq<char>) -> Option<Seq<char>>;

/// The position of the last '.' in a text, if it has one.
pub open spec fn last_dot(s: Seq<char>) -> Option<nat>
    decreases s.len(),
{
    if s.len() == 0 {
        None
    } else if s.last() == '.' {
        Some((s.len() - 1) as nat)
    } else {
        last_dot(s.drop_last())
    }
}

/// What `Path::new(p).extension()` yields for the path text `p`, as std
/// documents it: nothing without a file name, nothing when the file name
/// has no '.' or only a leading one, otherwise the part of the file name
/// after its last '.'.
pub open spec fn path_extension(path: Seq<char>) -> Option<Seq<char>> {
    match path_file_name(path) {
        None => None,
        Some(n) => match last_dot(n) {
            Some(d) => if d > 0 { Some(n.subrange(d as int + 1, n.len() as int)) } else { None },
            None => None,
        },
    }
}

/// What `Path::new(p).parent()` yields for the path text `p`: the path
/// without its final component, or `None` for a root or an empty path.
pub uninterp spec fn path_parent(path: Seq<char>) -> Option<Seq<char>>;

/// The final component of a path (std `Path::file_name`, made into a
/// `String`). The contract only names the result; what it is for a given
/// path is std's component parsing, which is not restated here.
#[verifier::external_body]
pub(crate) fn file_name_of(path: &str) -> (r: Option<String>)
    ensures
        match r {
            Some(n) => path_file_name(path@) == Some(n@),
            None => path_file_name(path@) is None,
        },
{
    match std::path::Path::new(path).file_name() {
        Some(n) => Some(n.to_string_lossy().into_owned()),
        None => None,
    }
}

/// The extension of a path (std `Path::extension`, made into a `String`).
/// The contract only names the result.
#[verifier::external_body]
pub(crate) fn extension_of(path: &str) -> (r: Option<String>)
    ensures
        match r {
            Some(e) => path_extension(path@) == Some(e@),
            None => path_extension(path@) is None,
        },
{
    match std::path::Path::new(path).extension() {
        Some(e) => Some(e.to_string_lossy().into_owned()),
        None => None,
    }
}

/// The parent of a path (std `Path::parent`, made into a `String`).
/// The contract only names the result.
#[verifier::external_body]
pub(crate) fn parent_of(path: &str) -> (r: Option<String>)
    ensures
        match r {
            Some(p) => path_parent(path@) == Some(p@),
            None => path_parent(path@) is None,
        },
{
    match std::path::Path::new(path).parent() {
        Some(p) => Some(p.to_string_lossy().into_owned()),
        None => None,
    }
}

/// What `Path::new(p).with_extension(e)` yields for the path text `p` and the
/// extension `e`: the path with the extension of its file name replaced (or
/// added).
pub uninterp spec fn path_with_extension(path: Seq<char>, ext: Seq<char>) -> Seq<char>;

/// What `Path::new(base).join(name)` yields: `name` appended to `base` as a
/// new component (or `name` alone when it is absolute).
pub uninterp spec fn path_join(base: Seq<char>, name: Seq<char>) -> Seq<char>;

/// The path with its extension replaced (std `Path::with_extension`, made
/// into a `String`). The contract only names the result. std panics on an
/// extension that holds a path separator, so `requires` leaves those out.
#[verifier::external_body]
pub(crate) fn with_extension_of(path: &str, ext: &str) -> (r: String)
    requires
        forall|i: int| 0 <= i < ext@.len() ==> ext@[i] != '/',
    ensures
        r@ == path_with_extension(path@, ext@),
{
    std::path::Path::new(path).with_extension(ext).to_string_lossy().into_owned()
}

/// A path extended by one component (std `Path::join`, made into a
/// `String`). The contract only names the result.
#[verifier::external_body]
pub(crate) fn join_path(base: &str, name: &str) -> (r: String)
    ensures
        r@ == path_join(base@, name@),
{
    std::path::Path::new(base).join(name).to_string_lossy().into_owned()
}

/// What `Path::new(p).file_stem()` yields: the file name without its
/// What `Path::new(p).file_stem()` yields, as std documents it: nothing
/// without a file name, the whole file name when it has no '.' or only a
/// leading one, otherwise the part of the file name before its last '.'.
pub open spec fn path_file_stem(path: Seq<char>) -> Option<Seq<char>> {
    match path_file_name(path) {
        None => None,
        Some(n) => match last_dot(n) {
            Some(d) => if d > 0 { Some(n.subrange(0, d as int)) } else { Some(n) },
            None => Some(n),
        },
    }
}

/// What `Path::new(p).strip_prefix(base)` yields: the rest of `p` after the
/// leading components that equal `base`, or `None` when `base` is not a
/// prefix of `p`.
pub uninterp spec fn path_strip_prefix(path: Seq<char>, base: Seq<char>) -> Option<Seq<char>>;

/// The file name of a path without its extension (std `Path::file_stem`,
/// made into a `String`). The contract only names the result.
#[verifier::external_body]
pub(crate) fn file_stem_of(path: &str) -> (r: Option<String>)
    ensures
        match r {
            Some(n) => path_file_stem(path@) == Some(n@),
            None => path_file_stem(path@) is None,
        },
{
    match std::path::Path::new(path).file_stem() {
        Some(n) => Some(n.to_string_lossy().into_owned()),
        None => None,
    }
}

/// A path relative to a base (std `Path::strip_prefix`, made into a
/// `String`). The contract only names the result.
#[verifier::external_body]
pub(crate) fn strip_prefix_of(path: &str, base: &str) -> (r: Option<String>)
    ensures
        match r {
            Some(n) => path_strip_prefix(path@, base@) == Some(n@),
            None => path_strip_prefix(path@, base@) is None,
        },
{
    match std::path::Path::new(path).strip_prefix(base) {
        Ok(p) => Some(p.to_string_lossy().into_owned()),
        Err(_) => None,
    }
}

} // verus!
