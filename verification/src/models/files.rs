//! Files that were uploaded to a workspace.

use crate::mime::{guess_media_type, media_type_of};
use vstd::prelude::*;

verus! {

/// A file of a workspace, as it is listed and as the watch stream announces it.
#[derive(Debug, Clone)]
pub struct UploadedFile {
    /// The workspace that holds the file.
    pub workspace: String,
    /// The name of the file inside the workspace directory.
    pub file_name: String,
    /// The media type guessed from the name.
    pub mime_type: String,
}

/// An [`UploadedFile`] with its texts as sequences of characters.
pub struct UploadedFileView {
    pub workspace: Seq<char>,
    pub file_name: Seq<char>,
    pub mime_type: Seq<char>,
}

impl View for UploadedFile {
    type V = UploadedFileView;

    open spec fn view(&self) -> UploadedFileView {
        UploadedFileView {
            workspace: self.workspace@,
            file_name: self.file_name@,
            mime_type: self.mime_type@,
        }
    }
}

/// The view of an optional file.
pub open spec fn file_view_of(file: Option<UploadedFile>) -> Option<UploadedFileView> {
    match file {
        Some(file) => Some(file@),
        None => None,
    }
}

/// The entry `file_name` of `workspace`, with the media type that its name
/// suggests.
pub open spec fn described(workspace: Seq<char>, file_name: Seq<char>) -> UploadedFileView {
    UploadedFileView { workspace, file_name, mime_type: media_type_of(file_name) }
}

impl UploadedFile {
    /// Describes the entry `file_name` of `workspace`.
    pub fn describe(workspace: &str, file_name: &str) -> (file: UploadedFile)
        ensures
            file@ == described(workspace@, file_name@),
    {
        UploadedFile {
            workspace: workspace.to_owned(),
            file_name: file_name.to_owned(),
            mime_type: guess_media_type(file_name),
        }
    }

    /// A copy of the file.
    pub fn duplicate(&self) -> (copy: UploadedFile)
        ensures
            copy@ == self@,
    {
        UploadedFile {
            workspace: self.workspace.clone(),
            file_name: self.file_name.clone(),
            mime_type: self.mime_type.clone(),
        }
    }
}

} // verus!
