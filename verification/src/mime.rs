//! MIME guessing, used to decide whether the entry under the cursor is
//! an archive worth extracting.

use vstd::prelude::*;

verus! {

/// The subtype of the first MIME guess for a path (`"zip"` for
/// `archive.zip`), or `None` when the extension maps to nothing.  The
/// guess is a function of the path alone.
pub uninterp spec fn mime_subtype_of(path: Seq<char>) -> Option<Seq<char>>;

/// Relies on `mime_guess::from_path` and `MimeGuess::first`: the guess
/// is a lookup of the path's extension in a fixed table compiled into
/// the crate, so it depends on the path alone.
#[verifier::external_body]
pub(crate) fn guess_mime_subtype(path: &str) -> (r: Option<String>)
    ensures
        r.deep_view() == mime_subtype_of(path@),
{
    mime_guess::from_path(path).first().map(|m| m.subtype().as_str().to_string())
}

} // verus!
