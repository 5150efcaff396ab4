//! The bookkeeping of one multipart upload into a workspace.
//!
//! The caller reads the request field by field and writes the files; the
//! session decides, for each thing that happens, what is to be done next.

use crate::error::{Error, ErrorView};
use crate::path::{
    child_path, file_name_in, is_valid_filename, join, lemma_child_lies_directly_in,
    lemma_child_path_names_the_file, lies_directly_in, path_is_valid, text_of,
};
use crate::store::{WorkspaceId, WorkspaceStore};
use vstd::prelude::*;

verus! {

/// Where an upload stands.
#[derive(Debug)]
pub enum UploadPhase {
    /// The workspace directory is being created.
    Preparing,
    /// Waiting for the next field of the request.
    Ready,
    /// The file of this name is being written.
    Writing(String),
    /// The upload was aborted.
    Failed,
    /// The request was read to its end.
    Finished,
}

/// One upload request in progress.
#[derive(Debug)]
pub struct UploadSession {
    dir: String,
    written: Vec<String>,
    phase: UploadPhase,
}

/// What happened to the request since the last step.
#[derive(Debug)]
pub enum UploadEvent {
    /// The workspace directory exists.
    DirectoryReady,
    /// The workspace directory could not be created.
    DirectoryFailed(String),
    /// A field arrived; it carries this file name, or none.
    Field(Option<String>),
    /// The file that was being written is complete.
    Written,
    /// Writing the file failed.
    WriteFailed(String),
    /// The request holds no further field.
    End,
}

/// What the caller is to do next.
#[derive(Debug)]
pub enum UploadAction {
    /// Read the next field.
    Continue,
    /// Stream the bytes of the field into a new file at this path.
    Write(String),
    /// Stop reading and answer with this error.
    Reject(Error),
    /// Answer with the number of files written.
    Finish(usize),
    /// The event has no place in this phase: nothing is to be done.
    Ignore,
}

pub enum UploadPhaseView {
    Preparing,
    Ready,
    Writing(Seq<char>),
    Failed,
    Finished,
}

/// The state of an upload: the workspace directory, the names of the files
/// written so far, in order, and the phase.
pub struct UploadView {
    pub dir: Seq<char>,
    pub written: Seq<Seq<char>>,
    pub phase: UploadPhaseView,
}

pub enum UploadEventView {
    DirectoryReady,
    DirectoryFailed(Seq<char>),
    Field(Option<Seq<char>>),
    Written,
    WriteFailed(Seq<char>),
    End,
}

pub enum UploadActionView {
    Continue,
    Write(Seq<char>),
    Reject(ErrorView),
    Finish(nat),
    Ignore,
}

impl View for UploadPhase {
    type V = UploadPhaseView;

    open spec fn view(&self) -> UploadPhaseView {
        match self {
            UploadPhase::Preparing => UploadPhaseView::Preparing,
            UploadPhase::Ready => UploadPhaseView::Ready,
            UploadPhase::Writing(name) => UploadPhaseView::Writing(name@),
            UploadPhase::Failed => UploadPhaseView::Failed,
            UploadPhase::Finished => UploadPhaseView::Finished,
        }
    }
}

impl View for UploadSession {
    type V = UploadView;

    closed spec fn view(&self) -> UploadView {
        UploadView { dir: self.dir@, written: self.written.deep_view(), phase: self.phase@ }
    }
}

impl View for UploadEvent {
    type V = UploadEventView;

    open spec fn view(&self) -> UploadEventView {
        match self {
            UploadEvent::DirectoryReady => UploadEventView::DirectoryReady,
            UploadEvent::DirectoryFailed(detail) => UploadEventView::DirectoryFailed(detail@),
            UploadEvent::Field(file_name) => UploadEventView::Field(text_of(*file_name)),
            UploadEvent::Written => UploadEventView::Written,
            UploadEvent::WriteFailed(detail) => UploadEventView::WriteFailed(detail@),
            UploadEvent::End => UploadEventView::End,
        }
    }
}

impl View for UploadAction {
    type V = UploadActionView;

    open spec fn view(&self) -> UploadActionView {
        match self {
            UploadAction::Continue => UploadActionView::Continue,
            UploadAction::Write(path) => UploadActionView::Write(path@),
            UploadAction::Reject(error) => UploadActionView::Reject(error@),
            UploadAction::Finish(count) => UploadActionView::Finish(*count as nat),
            UploadAction::Ignore => UploadActionView::Ignore,
        }
    }
}

/// The text that a rejected file name is reported with.
pub open spec fn invalid_path_message(file_name: Seq<char>) -> Seq<char> {
    "Invalid path: "@ + file_name
}

/// An upload into `dir` of which nothing has been read yet.
pub open spec fn upload_start(dir: Seq<char>) -> UploadView {
    UploadView { dir, written: Seq::empty(), phase: UploadPhaseView::Preparing }
}

/// The state that follows `state` once `event` has happened.
pub open spec fn upload_next(state: UploadView, event: UploadEventView) -> UploadView {
    match (state.phase, event) {
        (UploadPhaseView::Preparing, UploadEventView::DirectoryReady) => UploadView {
            phase: UploadPhaseView::Ready,
            ..state
        },
        (UploadPhaseView::Preparing, UploadEventView::DirectoryFailed(_)) => UploadView {
            phase: UploadPhaseView::Failed,
            ..state
        },
        (UploadPhaseView::Ready, UploadEventView::Field(Some(name))) => if is_valid_filename(
            name,
        ) {
            UploadView { phase: UploadPhaseView::Writing(name), ..state }
        } else {
            UploadView { phase: UploadPhaseView::Failed, ..state }
        },
        (UploadPhaseView::Ready, UploadEventView::End) => UploadView {
            phase: UploadPhaseView::Finished,
            ..state
        },
        (UploadPhaseView::Writing(name), UploadEventView::Written) => UploadView {
            phase: UploadPhaseView::Ready,
            written: state.written.push(name),
            ..state
        },
        (UploadPhaseView::Writing(_), UploadEventView::WriteFailed(_)) => UploadView {
            phase: UploadPhaseView::Failed,
            ..state
        },
        _ => state,
    }
}

/// What the caller is to do once `event` has happened in `state`.
pub open spec fn upload_action(state: UploadView, event: UploadEventView) -> UploadActionView {
    match (state.phase, event) {
        (UploadPhaseView::Preparing, UploadEventView::DirectoryReady) => UploadActionView::Continue,
        (UploadPhaseView::Preparing, UploadEventView::DirectoryFailed(detail)) => {
            UploadActionView::Reject(ErrorView::Io(detail))
        },
        (UploadPhaseView::Ready, UploadEventView::Field(None)) => UploadActionView::Continue,
        (UploadPhaseView::Ready, UploadEventView::Field(Some(name))) => if is_valid_filename(
            name,
        ) {
            UploadActionView::Write(child_path(state.dir, name))
        } else {
            UploadActionView::Reject(ErrorView::InvalidArgument(invalid_path_message(name)))
        },
        (UploadPhaseView::Ready, UploadEventView::End) => UploadActionView::Finish(
            state.written.len(),
        ),
        (UploadPhaseView::Writing(_), UploadEventView::Written) => UploadActionView::Continue,
        (UploadPhaseView::Writing(_), UploadEventView::WriteFailed(detail)) => {
            UploadActionView::Reject(ErrorView::Io(detail))
        },
        _ => UploadActionView::Ignore,
    }
}

impl UploadSession {
    /// Starts an upload into the workspace `id` of `store`. The caller
    /// creates the directory of the workspace, if it is not there, before
    /// anything else.
    pub fn new(store: &WorkspaceStore, id: &WorkspaceId) -> (session: UploadSession)
        ensures
            session@ == upload_start(store.directory_path(id@)),
    {
        let session = UploadSession {
            dir: store.directory(id),
            written: Vec::new(),
            phase: UploadPhase::Preparing,
        };
        assert(session.written.deep_view() =~= Seq::<Seq<char>>::empty());
        session
    }

    /// The workspace directory.
    pub fn directory(&self) -> (dir: &str)
        ensures
            dir@ == self@.dir,
    {
        self.dir.as_str()
    }

    /// The number of files written so far.
    pub fn count(&self) -> (count: usize)
        ensures
            count == self@.written.len(),
    {
        self.written.len()
    }

    /// The names of the files written so far, in the order of their fields.
    pub fn written(&self) -> (names: &Vec<String>)
        ensures
            names.deep_view() == self@.written,
    {
        &self.written
    }

    /// Takes note of `event` and says what is to be done next.
    pub fn step(self, event: UploadEvent) -> (next: (UploadSession, UploadAction))
        ensures
            next.0@ == upload_next(self@, event@),
            next.1@ == upload_action(self@, event@),
    {
        let UploadSession { dir, written, phase } = self;
        match (phase, event) {
            (UploadPhase::Preparing, UploadEvent::DirectoryReady) => (
                UploadSession { dir, written, phase: UploadPhase::Ready },
                UploadAction::Continue,
            ),
            (UploadPhase::Preparing, UploadEvent::DirectoryFailed(detail)) => (
                UploadSession { dir, written, phase: UploadPhase::Failed },
                UploadAction::Reject(Error::Io(detail)),
            ),
            (UploadPhase::Ready, UploadEvent::Field(None)) => (
                UploadSession { dir, written, phase: UploadPhase::Ready },
                UploadAction::Continue,
            ),
            (UploadPhase::Ready, UploadEvent::Field(Some(name))) => {
                if path_is_valid(name.as_str()) {
                    let path = join(dir.as_str(), name.as_str());
                    (
                        UploadSession { dir, written, phase: UploadPhase::Writing(name) },
                        UploadAction::Write(path),
                    )
                } else {
                    let message = "Invalid path: ".to_owned().concat(name.as_str());
                    (
                        UploadSession { dir, written, phase: UploadPhase::Failed },
                        UploadAction::Reject(Error::InvalidArgument(message)),
                    )
                }
            },
            (UploadPhase::Ready, UploadEvent::End) => {
                let count = written.len();
                (
                    UploadSession { dir, written, phase: UploadPhase::Finished },
                    UploadAction::Finish(count),
                )
            },
            (UploadPhase::Writing(name), UploadEvent::Written) => {
                let ghost before = written.deep_view();
                let mut written = written;
                written.push(name);
                assert(written.deep_view() =~= before.push(name@));
                (UploadSession { dir, written, phase: UploadPhase::Ready }, UploadAction::Continue)
            },
            (UploadPhase::Writing(_), UploadEvent::WriteFailed(detail)) => (
                UploadSession { dir, written, phase: UploadPhase::Failed },
                UploadAction::Reject(Error::Io(detail)),
            ),
            (phase, _) => (UploadSession { dir, written, phase }, UploadAction::Ignore),
        }
    }
}

/// The state after `events` have happened to `state`, one after another.
pub open spec fn upload_run(state: UploadView, events: Seq<UploadEventView>) -> UploadView
    decreases events.len(),
{
    if events.len() == 0 {
        state
    } else {
        upload_next(upload_run(state, events.drop_last()), events.last())
    }
}

/// The names of the fields that carry a file, in the order of the fields.
pub open spec fn named_fields(fields: Seq<Option<Seq<char>>>) -> Seq<Seq<char>>
    decreases fields.len(),
{
    if fields.len() == 0 {
        Seq::empty()
    } else {
        match fields.last() {
            Some(name) => named_fields(fields.drop_last()).push(name),
            None => named_fields(fields.drop_last()),
        }
    }
}

/// What happens during an upload in which nothing fails: the directory is
/// made ready, each field arrives, and each that carries a file is followed
/// by the completion of its file.
pub open spec fn unhindered_upload(fields: Seq<Option<Seq<char>>>) -> Seq<UploadEventView>
    decreases fields.len(),
{
    if fields.len() == 0 {
        seq![UploadEventView::DirectoryReady]
    } else {
        let before = unhindered_upload(fields.drop_last());
        match fields.last() {
            Some(name) => before.push(UploadEventView::Field(Some(name))).push(
                UploadEventView::Written,
            ),
            None => before.push(UploadEventView::Field(None)),
        }
    }
}

/// Every name in `names` is a valid file name.
pub open spec fn all_valid(names: Seq<Seq<char>>) -> bool {
    forall|i: int| 0 <= i < names.len() ==> is_valid_filename(#[trigger] names[i])
}

/// Running one more event is one more step.
pub proof fn lemma_upload_run_push(
    state: UploadView,
    events: Seq<UploadEventView>,
    event: UploadEventView,
)
    ensures
        upload_run(state, events.push(event)) == upload_next(upload_run(state, events), event),
{
    assert(events.push(event).drop_last() == events);
}

/// A file is only ever written under a valid name, at the path of that entry
/// of the workspace directory: no write leaves the directory.
pub proof fn lemma_writes_stay_in_the_directory(state: UploadView, event: UploadEventView)
    ensures
        match upload_action(state, event) {
            UploadActionView::Write(path) => {
                &&& file_name_in(path) is Some
                &&& is_valid_filename(file_name_in(path)->0)
                &&& path == child_path(state.dir, file_name_in(path)->0)
                &&& event == UploadEventView::Field(file_name_in(path))
                &&& upload_next(state, event).phase == UploadPhaseView::Writing(
                    file_name_in(path)->0,
                )
            },
            _ => true,
        },
{
    match (state.phase, event) {
        (UploadPhaseView::Ready, UploadEventView::Field(Some(name))) => {
            if is_valid_filename(name) {
                lemma_child_path_names_the_file(state.dir, name);
            }
        },
        _ => {},
    }
}

/// A field whose file name is not valid aborts the upload with
/// `InvalidArgument`: nothing is written for it.
pub proof fn lemma_invalid_name_aborts(state: UploadView, name: Seq<char>)
    requires
        state.phase is Ready,
        !is_valid_filename(name),
    ensures
        upload_action(state, UploadEventView::Field(Some(name))) == UploadActionView::Reject(
            ErrorView::InvalidArgument(invalid_path_message(name)),
        ),
        upload_next(state, UploadEventView::Field(Some(name))).phase is Failed,
        upload_next(state, UploadEventView::Field(Some(name))).written == state.written,
{
}

/// Once an upload has failed or finished, whatever happens changes nothing
/// and asks for nothing: no field after the failing one is processed.
pub proof fn lemma_upload_ends_for_good(state: UploadView, events: Seq<UploadEventView>)
    requires
        state.phase is Failed || state.phase is Finished,
    ensures
        upload_run(state, events) == state,
        forall|event: UploadEventView| #[trigger]
            upload_action(state, event) == UploadActionView::Ignore,
    decreases events.len(),
{
    if events.len() > 0 {
        lemma_upload_ends_for_good(state, events.drop_last());
    }
}

/// Whatever happens to an upload, the files counted as written are files
/// with valid names, and the directory stays the same.
pub proof fn lemma_written_files_are_valid(dir: Seq<char>, events: Seq<UploadEventView>)
    ensures
        upload_run(upload_start(dir), events).dir == dir,
        all_valid(upload_run(upload_start(dir), events).written),
        upload_run(upload_start(dir), events).phase matches UploadPhaseView::Writing(name)
            ==> is_valid_filename(name),
    decreases events.len(),
{
    if events.len() > 0 {
        lemma_written_files_are_valid(dir, events.drop_last());
    }
}

/// Whatever happens to an upload into a workspace, every file that it asks
/// to write lies directly in the directory of that workspace: nothing is
/// ever written outside it.
pub proof fn lemma_upload_stays_in_its_workspace(
    store: WorkspaceStore,
    id: Seq<char>,
    events: Seq<UploadEventView>,
    event: UploadEventView,
)
    requires
        is_valid_filename(id),
    ensures
        match upload_action(
            upload_run(upload_start(store.directory_path(id)), events),
            event,
        ) {
            UploadActionView::Write(path) => lies_directly_in(path, store.directory_path(id)),
            _ => true,
        },
{
    let dir = store.directory_path(id);
    let state = upload_run(upload_start(dir), events);
    lemma_written_files_are_valid(dir, events);
    lemma_writes_stay_in_the_directory(state, event);
    if let UploadActionView::Write(path) = upload_action(state, event) {
        lemma_child_lies_directly_in(store.root_path(), id, file_name_in(path)->0);
    }
}

/// The named fields of all but the last field are named fields of all, and
/// the name of the last field, if it has one, comes last.
pub proof fn lemma_named_fields_step(fields: Seq<Option<Seq<char>>>)
    requires
        fields.len() > 0,
        all_valid(named_fields(fields)),
    ensures
        all_valid(named_fields(fields.drop_last())),
        fields.last() matches Some(name) ==> is_valid_filename(name) && named_fields(fields)
            == named_fields(fields.drop_last()).push(name),
{
    let front = fields.drop_last();
    assert forall|i: int| 0 <= i < named_fields(front).len() implies is_valid_filename(
        #[trigger] named_fields(front)[i],
    ) by {
        assert(named_fields(fields)[i] == named_fields(front)[i]);
    }
    if let Some(name) = fields.last() {
        assert(named_fields(fields).last() == name);
    }
}

/// An upload of fields with valid file names, none of whose writes fails,
/// writes exactly the named files, in the order of their fields, ends ready
/// for the next field, and its count at the end of the request is the number
/// of those files.
pub proof fn lemma_unhindered_upload_writes_all(dir: Seq<char>, fields: Seq<Option<Seq<char>>>)
    requires
        all_valid(named_fields(fields)),
    ensures
        upload_run(upload_start(dir), unhindered_upload(fields)) == (UploadView {
            dir,
            written: named_fields(fields),
            phase: UploadPhaseView::Ready,
        }),
        upload_action(
            upload_run(upload_start(dir), unhindered_upload(fields)),
            UploadEventView::End,
        ) == UploadActionView::Finish(named_fields(fields).len()),
    decreases fields.len(),
{
    if fields.len() > 0 {
        let front = fields.drop_last();
        let before = unhindered_upload(front);
        lemma_named_fields_step(fields);
        lemma_unhindered_upload_writes_all(dir, front);
        let start = upload_start(dir);
        let ready = upload_run(start, before);
        match fields.last() {
            Some(name) => {
                let arrived = before.push(UploadEventView::Field(Some(name)));
                lemma_upload_run_push(start, before, UploadEventView::Field(Some(name)));
                lemma_upload_run_push(start, arrived, UploadEventView::Written);
            },
            None => {
                lemma_upload_run_push(start, before, UploadEventView::Field(None));
            },
        }
    } else {
        let first = Seq::<UploadEventView>::empty().push(UploadEventView::DirectoryReady);
        assert(unhindered_upload(fields) == first);
        lemma_upload_run_push(
            upload_start(dir),
            Seq::<UploadEventView>::empty(),
            UploadEventView::DirectoryReady,
        );
    }
}

} // verus!
