//! Joining a directory and a file name, done by std's `PathBuf`.

use vstd::prelude::*;

verus! {

/// The path of the entry `name` under `directory`, as text, by the path
/// rules of the platform that the library is built for.
pub uninterp spec fn joined(directory: Seq<char>, name: Seq<char>) -> Seq<char>;

/// Calls `PathBuf::push` with `name` on the path made of `directory`. The
/// contract only gives the resulting text a name, `joined`, as a function of
/// the two texts.
#[verifier::external_body]
pub(crate) fn join(directory: &str, name: &str) -> (r: String)
    ensures
        r@ == joined(directory@, name@),
{
    let mut path = std::path::PathBuf::from(directory);
    path.push(name);
    path.to_string_lossy().into_owned()
}

} // verus!
