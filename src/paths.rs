//! Path operations of the standard library, over paths held as text.

use vstd::prelude::*;

verus! {

/// The directory that holds `path`, as the path library reads it; `None`
/// for a root or an empty path.
pub uninterp spec fn parent_of(path: Seq<char>) -> Option<Seq<char>>;

/// Relies on `std::path::Path::parent`: the path without its last component,
/// or `None` for a root or an empty path. The path comes from a `String`, so
/// the text conversion loses nothing.
#[verifier::external_body]
pub(crate) fn parent_dir(path: &str) -> (r: Option<String>)
    ensures
        r is None <==> parent_of(path@) is None,
        r matches Some(p) ==> parent_of(path@) == Some(p@),
{
    std::path::Path::new(path).parent().map(|p| p.to_string_lossy().into_owned())
}

/// The last component of `path`, as the path library reads it; `None` when
/// the path ends in `..` or is a root.
pub uninterp spec fn file_name_of(path: Seq<char>) -> Option<Seq<char>>;

/// Relies on `std::path::Path::file_name`: the final component, or `None`
/// when the path ends in `..` or has no component.
#[verifier::external_body]
pub(crate) fn file_name(path: &str) -> (r: Option<String>)
    ensures
        r is None <==> file_name_of(path@) is None,
        r matches Some(n) ==> file_name_of(path@) == Some(n@),
{
    std::path::Path::new(path).file_name().map(|n| n.to_string_lossy().into_owned())
}

/// `name` joined under `dir` on Unix: an absolute `name` replaces `dir`;
/// otherwise a `/` goes between them unless `dir` is empty or already ends
/// with one.
pub open spec fn joined_path(dir: Seq<char>, name: Seq<char>) -> Seq<char> {
    if name.len() > 0 && name[0] == '/' {
        name
    } else if dir.len() > 0 && dir.last() != '/' {
        dir + seq!['/'] + name
    } else {
        dir + name
    }
}

/// Relies on `std::path::Path::join` (that is, `PathBuf::push`) on Unix: an
/// absolute path replaces the base; otherwise a separator is added if
/// needed. Both come from `String`s, so the text conversion loses nothing.
#[verifier::external_body]
pub(crate) fn join_path(dir: &str, name: &str) -> (r: String)
    ensures
        r@ == joined_path(dir@, name@),
{
    std::path::Path::new(dir).join(name).to_string_lossy().into_owned()
}

} // verus!
