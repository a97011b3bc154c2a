//! The extension of a file name, which the standard library finds.

use std::path::Path;

use vstd::prelude::*;

verus! {

/// Whether `extension` stands in `path` behind a dot that is not the first
/// character of the path, and holds no dot itself.
pub open spec fn follows_dot(path: Seq<char>, extension: Seq<char>) -> bool {
    &&& !extension.contains('.')
    &&& exists|dot: int|
        {
            &&& 0 < dot
            &&& dot + 1 + extension.len() <= path.len()
            &&& (#[trigger] path[dot]) == '.'
            &&& path.subrange(dot + 1, dot + 1 + extension.len()) == extension
        }
}

/// Asks `std::path::Path::extension` for the extension of `path`. Which part
/// of a path is its file name depends on the platform, so the contract says
/// only what holds on each: the extension is the piece of the file name
/// behind its last dot, and there is none where the name begins with its
/// only dot.
#[verifier::external_body]
pub(crate) fn path_extension(path: &str) -> (extension: Option<String>)
    ensures
        extension matches Some(text) ==> follows_dot(path@, text@),
{
    match Path::new(path).extension() {
        Some(extension) => match extension.to_str() {
            Some(text) => Some(text.to_owned()),
            None => None,
        },
        None => None,
    }
}

} // verus!
