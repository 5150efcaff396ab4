//! From raw file system events to the notifications that viewers receive.

use crate::models::files::{described, file_view_of, UploadedFile, UploadedFileView};
use crate::path::{
    file_name_in, file_name_of, final_segment, has_separator, lemma_final_segment, text_of,
};
use crate::store::WorkspaceId;
use vstd::prelude::*;

verus! {

/// The kind of a raw file system event.
#[derive(Debug, Clone, Copy, PartialEq, Eq, Structural)]
pub enum ChangeKind {
    /// The facility could not tell what happened.
    Any,
    /// A file was opened, read or closed.
    Access,
    /// A file or directory appeared.
    Create,
    /// The contents, name or metadata of a file changed.
    Modify,
    /// A file or directory disappeared.
    Remove,
    /// Something else happened.
    Other,
}

impl ChangeKind {
    /// The kinds that the watcher looks at: all others are passed over.
    pub open spec fn is_observed(self) -> bool {
        self is Create || self is Modify || self is Remove
    }

    /// The kinds that tell of a file that is now there.
    pub open spec fn is_appearance(self) -> bool {
        self is Create || self is Modify
    }
}

/// The notification that a raw event in the workspace `workspace` leads to: one
/// for the file that the last path of a create or modify event names, none
/// for any other event.
pub open spec fn notification(
    workspace: Seq<char>,
    kind: ChangeKind,
    paths: Seq<Seq<char>>,
) -> Option<UploadedFileView> {
    if kind.is_appearance() && paths.len() > 0 {
        match file_name_in(paths.last()) {
            Some(file_name) => Some(described(workspace, file_name)),
            None => None,
        }
    } else {
        None
    }
}

/// Whether the watcher looks at events of this kind.
pub fn observes(kind: ChangeKind) -> (observed: bool)
    ensures
        observed == kind.is_observed(),
{
    match kind {
        ChangeKind::Create | ChangeKind::Modify | ChangeKind::Remove => true,
        _ => false,
    }
}

/// Turns a raw event on the directory of `workspace` into the notification to
/// push to the viewers, if it calls for one.
pub fn notification_for(workspace: &WorkspaceId, kind: ChangeKind, paths: &Vec<String>) -> (file:
    Option<UploadedFile>)
    ensures
        file_view_of(file) == notification(workspace@, kind, paths.deep_view()),
{
    match kind {
        ChangeKind::Create | ChangeKind::Modify => {},
        _ => {
            return None;
        },
    }
    if paths.len() == 0 {
        return None;
    }
    let last = &paths[paths.len() - 1];
    assert(paths.deep_view().last() == last@);
    match file_name_of(last.as_str()) {
        Some(file_name) => Some(UploadedFile::describe(workspace.as_str(), file_name.as_str())),
        None => None,
    }
}

/// The JSON string literal that `serde_json` writes for `text`, quotes and
/// escapes included, or `None` where it writes none.
pub uninterp spec fn json_string(text: Seq<char>) -> Option<Seq<char>>;

/// Calls `serde_json::to_string` on `text`. Trusted: the result is a function
/// of `text` alone, which `json_string` names; a failure is handed on as
/// `None`.
#[verifier::external_body]
fn to_json_string(text: &str) -> (encoded: Option<String>)
    ensures
        text_of(encoded) == json_string(text@),
{
    match serde_json::to_string(text) {
        Ok(encoded) => Some(encoded),
        Err(_) => None,
    }
}

/// The JSON object with the members `workspace`, `file_name` and `mime_type`,
/// in this order and without white space, whose values are the given JSON
/// texts.
pub open spec fn framed_payload(
    workspace: Seq<char>,
    file_name: Seq<char>,
    mime_type: Seq<char>,
) -> Seq<char> {
    "{\"workspace\":"@ + workspace + ",\"file_name\":"@ + file_name + ",\"mime_type\":"@
        + mime_type + "}"@
}

/// The payload of the event that announces `file`: the JSON encoding of the
/// file, if each of its texts has one.
pub open spec fn payload_of(file: UploadedFileView) -> Option<Seq<char>> {
    match (json_string(file.workspace), json_string(file.file_name), json_string(file.mime_type)) {
        (Some(workspace), Some(file_name), Some(mime_type)) => Some(
            framed_payload(workspace, file_name, mime_type),
        ),
        _ => None,
    }
}

/// Puts three encoded values into the JSON object of an announced file.
pub fn frame_payload(workspace: &str, file_name: &str, mime_type: &str) -> (payload: String)
    ensures
        payload@ == framed_payload(workspace@, file_name@, mime_type@),
{
    let mut payload = "{\"workspace\":".to_owned();
    payload.append(workspace);
    payload.append(",\"file_name\":");
    payload.append(file_name);
    payload.append(",\"mime_type\":");
    payload.append(mime_type);
    payload.append("}");
    payload
}

/// The payload of the event that announces `file`.
pub fn event_payload(file: &UploadedFile) -> (payload: Option<String>)
    ensures
        text_of(payload) == payload_of(file@),
{
    let workspace = match to_json_string(file.workspace.as_str()) {
        Some(encoded) => encoded,
        None => {
            return None;
        },
    };
    let file_name = match to_json_string(file.file_name.as_str()) {
        Some(encoded) => encoded,
        None => {
            return None;
        },
    };
    let mime_type = match to_json_string(file.mime_type.as_str()) {
        Some(encoded) => encoded,
        None => {
            return None;
        },
    };
    Some(frame_payload(workspace.as_str(), file_name.as_str(), mime_type.as_str()))
}

/// Every notification is for a file of the watched workspace, under a name
/// without a separator that is the final segment of the last path of a create
/// or modify event, and with the media type that goes with that name.
pub proof fn lemma_notification_names_a_file(
    workspace: Seq<char>,
    kind: ChangeKind,
    paths: Seq<Seq<char>>,
)
    ensures
        match notification(workspace, kind, paths) {
            Some(file) => {
                &&& kind.is_appearance()
                &&& kind.is_observed()
                &&& paths.len() > 0
                &&& file == described(workspace, final_segment(paths.last()))
                &&& file.file_name.len() > 0
                &&& !has_separator(file.file_name)
            },
            None => true,
        },
{
    if paths.len() > 0 {
        lemma_final_segment(paths.last());
    }
}

} // verus!
