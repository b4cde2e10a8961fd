//! Rebasing of paths against a root directory.
//!
//! Paths are held as text. What `std::path` makes of them is not spelled out
//! here: its results carry names, and the three functions at the bottom are
//! the only places where the standard library is asked.

use vstd::prelude::*;

verus! {

/// The path that `std::path::Path::join` builds from `base` and `rel`.
pub uninterp spec fn joined(base: Seq<char>, rel: Seq<char>) -> Seq<char>;

/// What `std::path::Path::strip_prefix` leaves of `path` once `base` is taken
/// from its front; `None` where `base` is no prefix of `path`.
pub uninterp spec fn stripped(path: Seq<char>, base: Seq<char>) -> Option<Seq<char>>;

/// Whether `std::path::Path` holds the two texts to be the same path.
pub uninterp spec fn same_path(a: Seq<char>, b: Seq<char>) -> bool;

/// `path` lies under `root`.
pub open spec fn is_under(path: Seq<char>, root: Seq<char>) -> bool {
    stripped(path, root) is Some
}

/// Rebases `path` to be relative to `root`; `None` where it does not lie
/// under `root`. Joining the result back onto `root` names `path` again.
pub fn relative_to(root: &str, path: &str) -> (r: Option<String>)
    ensures
        r is Some <==> is_under(path@, root@),
        r matches Some(rel) ==> stripped(path@, root@) == Some(rel@) && same_path(
            joined(root@, rel@),
            path@,
        ),
{
    path_strip_prefix(path, root)
}

/// The path that a stored relative text stands for under `root`.
pub fn absolute_from(root: &str, rel: &str) -> (r: String)
    ensures
        r@ == joined(root@, rel@),
{
    path_join(root, rel)
}

/// Whether two texts name the same path: separators that repeat and a
/// trailing separator make no difference.
pub fn same_location(a: &str, b: &str) -> (r: bool)
    ensures
        r == same_path(a@, b@),
{
    path_eq(a, b)
}

/// Calls `std::path::Path::join`. The contract only names the result. Both
/// texts are valid UTF-8, so the text of the joined path is too and turning it
/// back into a `String` loses nothing.
#[verifier::external_body]
fn path_join(base: &str, rel: &str) -> (r: String)
    ensures
        r@ == joined(base@, rel@),
{
    std::path::Path::new(base).join(rel).to_string_lossy().into_owned()
}

/// Calls `std::path::Path::strip_prefix`. Its documentation promises that the
/// returned path, joined onto `base`, yields the path it was taken from; the
/// second clause says that and no more. The remainder is a slice of `path`, so
/// its text is valid UTF-8.
#[verifier::external_body]
fn path_strip_prefix(path: &str, base: &str) -> (r: Option<String>)
    ensures
        r is Some <==> stripped(path@, base@) is Some,
        r matches Some(rel) ==> stripped(path@, base@) == Some(rel@) && same_path(
            joined(base@, rel@),
            path@,
        ),
{
    match std::path::Path::new(path).strip_prefix(base) {
        Ok(rel) => Some(rel.to_string_lossy().into_owned()),
        Err(_) => None,
    }
}

/// Calls `==` of `std::path::Path`. The contract only names the result.
#[verifier::external_body]
fn path_eq(a: &str, b: &str) -> (r: bool)
    ensures
        r == same_path(a@, b@),
{
    std::path::Path::new(a) == std::path::Path::new(b)
}

} // verus!
