//! File-system path arithmetic, as std's `Path` does it.
use vstd::prelude::*;

verus! {

/// The path that std's `Path::join` makes of `base` and `name`.
pub uninterp spec fn path_join(base: Seq<char>, name: Seq<char>) -> Seq<char>;

/// The final component that std's `Path::file_name` finds in `p`, if any.
pub uninterp spec fn file_name_of(p: Seq<char>) -> Option<Seq<char>>;

/// Relies on std's `Path::join`: `name` placed under `base`. Both are UTF-8,
/// so the lossy conversion back to a string is exact.
#[verifier::external_body]
pub(crate) fn join_path(base: &str, name: &str) -> (r: String)
    ensures
        r@ == path_join(base@, name@),
{
    std::path::Path::new(base).join(name).to_string_lossy().into_owned()
}

/// Relies on std's `Path::file_name`: the last component of `p` when it is a
/// normal one (not `..`, not a root). The input is UTF-8, so the conversion
/// back to a string is exact.
#[verifier::external_body]
pub(crate) fn file_name(p: &str) -> (r: Option<String>)
    ensures
        r matches Some(n) ==> file_name_of(p@) == Some(n@),
        r is None ==> file_name_of(p@) is None,
{
    std::path::Path::new(p).file_name().map(|n| n.to_string_lossy().into_owned())
}

} // verus!
