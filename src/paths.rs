//! Path operations, done by camino.
use vstd::prelude::*;

verus! {

/// What `camino::Utf8Path::parent` gives for a path: the path without its
/// final component, or none where the path ends in a root or prefix.
pub uninterp spec fn path_parent(p: Seq<char>) -> Option<Seq<char>>;

/// What `camino::Utf8Path::join` gives: `part` adjoined to `base`.
pub uninterp spec fn path_join(base: Seq<char>, part: Seq<char>) -> Seq<char>;

/// Relies on `camino::Utf8Path::parent`, for the directory that holds a file.
#[verifier::external_body]
pub(crate) fn parent_dir(p: &str) -> (r: Option<String>)
    ensures
        match r {
            Some(d) => path_parent(p@) == Some(d@),
            None => path_parent(p@) is None,
        },
{
    match camino::Utf8Path::new(p).parent() {
        Some(d) => Some(d.as_str().to_owned()),
        None => None,
    }
}

/// Relies on `camino::Utf8Path::join`, for a path below a directory.
#[verifier::external_body]
pub(crate) fn join_path(base: &str, part: &str) -> (r: String)
    ensures
        r@ == path_join(base@, part@),
{
    camino::Utf8Path::new(base).join(part).into_string()
}

} // verus!
