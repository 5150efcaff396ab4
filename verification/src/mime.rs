//! Media types of files, guessed from their extensions.

use crate::path::{extension, extension_of, text_of};
use vstd::prelude::*;

verus! {

/// The media type that the registry of `mime_guess` holds first for the
/// extension `ext`, as text, or `None` where it knows none.
pub uninterp spec fn registered_media_type(ext: Seq<char>) -> Option<Seq<char>>;

/// The media type of a file whose extension is unknown.
pub open spec fn default_media_type() -> Seq<char> {
    "application/octet-stream"@
}

/// The media type of a file called `file_name`: what the registry holds for
/// its extension, and the default where the name has no extension or the
/// registry does not know it.
pub open spec fn media_type_of(file_name: Seq<char>) -> Seq<char> {
    match extension_of(file_name) {
        Some(ext) => match registered_media_type(ext) {
            Some(media_type) => media_type,
            None => default_media_type(),
        },
        None => default_media_type(),
    }
}

/// Calls `mime_guess::from_ext(ext).first()` and renders the media type with
/// its `to_string`. Trusted: the result is a function of `ext` alone, which
/// `registered_media_type` names, and an empty extension has no media type.
#[verifier::external_body]
fn lookup_extension(ext: &str) -> (found: Option<String>)
    ensures
        text_of(found) == registered_media_type(ext@),
        ext@.len() == 0 ==> found is None,
{
    match mime_guess::from_ext(ext).first() {
        Some(media_type) => Some(media_type.to_string()),
        None => None,
    }
}

/// Replaces a failed lookup by the default media type.
pub fn media_type_or_default(found: Option<String>) -> (media_type: String)
    ensures
        media_type@ == match found {
            Some(text) => text@,
            None => default_media_type(),
        },
{
    match found {
        Some(text) => text,
        None => "application/octet-stream".to_owned(),
    }
}

/// Guesses the media type of the file called `file_name`.
pub fn guess_media_type(file_name: &str) -> (media_type: String)
    ensures
        media_type@ == media_type_of(file_name@),
{
    match extension(file_name) {
        Some(ext) => media_type_or_default(lookup_extension(ext.as_str())),
        None => media_type_or_default(None),
    }
}

} // verus!
