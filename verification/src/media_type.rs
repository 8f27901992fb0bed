//! The content type of an asset, guessed from the extension of its path.

use vstd::prelude::*;

verus! {

/// The media type that the extension table gives for `path`.
pub uninterp spec fn guessed_media_type(path: Seq<char>) -> Seq<char>;

/// The media type of data of unknown kind.
pub open spec fn octet_stream() -> Seq<char> {
    "application/octet-stream"@
}

/// Calls `mime_guess::MimeGuess::from_path` and then `first_or_octet_stream`
/// on the guess. The guess is looked up by the path's extension in a table
/// that is part of the library, without touching the disk, so that it is a
/// function of the path alone. A path without a `.` has no extension, and
/// for it the guess is empty and `application/octet-stream` is returned.
#[verifier::external_body]
pub(crate) fn guess_media_type(path: &str) -> (media_type: String)
    ensures
        media_type@ == guessed_media_type(path@),
        !path@.contains('.') ==> media_type@ == octet_stream(),
{
    mime_guess::MimeGuess::from_path(path).first_or_octet_stream().as_ref().to_string()
}

/// The content type that an asset with the path `path` is served with: the
/// type for data of unknown kind where the path has no `.`, and so no
/// extension; else what the extension table gives.
pub open spec fn media_type_for(path: Seq<char>) -> Seq<char> {
    if path.contains('.') {
        guessed_media_type(path)
    } else {
        octet_stream()
    }
}

/// The content type that an asset with the path `path` is served with.
pub fn media_type(path: &str) -> (media_type: String)
    ensures
        media_type@ == media_type_for(path@),
{
    guess_media_type(path)
}

} // verus!
