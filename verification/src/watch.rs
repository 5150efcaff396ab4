//! The life of one watch connection, from the request to its end.
//!
//! The caller checks the session, reads the directory, runs the watcher and
//! writes to the connection; the watch session decides, for each thing that
//! happens, what is to be done next.

use crate::error::{Error, ErrorView};
use crate::models::files::{described, UploadedFile, UploadedFileView};
use crate::notification::{notification, ChangeKind};
use crate::path::{child_path, is_valid_filename, lemma_child_path_names_the_file};
use crate::store::{
    file_views, files_of_listing, listed_files, DirListing, DirListingView, WorkspaceId,
    WorkspaceStore,
};
use vstd::prelude::*;

verus! {

/// How far the opening of a watch connection has come.
#[derive(Debug, Clone, Copy, PartialEq, Eq, Structural)]
pub enum OpeningStep {
    /// The request has not been authorized yet.
    Authorizing,
    /// The current files are being listed.
    Listing,
    /// The watcher is being started.
    Starting,
}

/// The state of a watch connection.
#[derive(Debug, Clone, Copy, PartialEq, Eq, Structural)]
pub enum WatchState {
    /// The connection is being set up.
    Opening(OpeningStep),
    /// Notifications are forwarded as they arrive.
    Streaming,
    /// The connection is over.
    Closed,
}

/// Why a watch connection ends.
#[derive(Debug, Clone, Copy, PartialEq, Eq, Structural)]
pub enum CloseReason {
    /// The client went away.
    Disconnected,
    /// Writing to the connection failed.
    WriteFailed,
    /// The server shuts down.
    Shutdown,
}

/// What happened to a watch connection since the last step.
#[derive(Debug)]
pub enum WatchEvent {
    /// The request was checked: it is authorized, or not.
    Authorization(bool),
    /// The workspace directory was read.
    Listed(DirListing),
    /// The workspace directory could not be read.
    ListFailed(String),
    /// The watcher runs.
    WatcherStarted,
    /// The watcher could not be started.
    WatcherFailed(String),
    /// The watcher announced a file.
    Notification(UploadedFile),
    /// A keep-alive interval went by without a notification.
    Idle,
    /// The connection ends.
    Close(CloseReason),
}

/// What the caller is to do next for a watch connection.
#[derive(Debug)]
pub enum WatchAction {
    /// Answer the request with this error; no stream is opened.
    Reject(Error),
    /// Read the directory at this path.
    ListDirectory(String),
    /// Start a watcher on the directory at this path.
    StartWatcher(String),
    /// Open the stream and send one event for each of these files.
    OpenStream(Vec<UploadedFile>),
    /// Send an event for this file.
    Send(UploadedFile),
    /// Send a keep-alive comment.
    KeepAlive,
    /// Stop the watcher and drop its channel.
    ReleaseWatcher,
    /// Give the request up: nothing was started for it.
    Abandon,
    /// The event has no place in this state: nothing is to be done.
    Ignore,
}

pub enum WatchEventView {
    Authorization(bool),
    Listed(DirListingView),
    ListFailed(Seq<char>),
    WatcherStarted,
    WatcherFailed(Seq<char>),
    Notification(UploadedFileView),
    Idle,
    Close(CloseReason),
}

pub enum WatchActionView {
    Reject(ErrorView),
    ListDirectory(Seq<char>),
    StartWatcher(Seq<char>),
    OpenStream(Seq<UploadedFileView>),
    Send(UploadedFileView),
    KeepAlive,
    ReleaseWatcher,
    Abandon,
    Ignore,
}

/// A watch connection: the workspace it observes, the directory of that
/// workspace, its state, and the files found when the directory was listed,
/// kept until the stream opens.
pub struct WatchView {
    pub workspace: Seq<char>,
    pub dir: Seq<char>,
    pub state: WatchState,
    pub found: Seq<UploadedFileView>,
}

impl View for WatchEvent {
    type V = WatchEventView;

    open spec fn view(&self) -> WatchEventView {
        match self {
            WatchEvent::Authorization(granted) => WatchEventView::Authorization(*granted),
            WatchEvent::Listed(listing) => WatchEventView::Listed(listing@),
            WatchEvent::ListFailed(detail) => WatchEventView::ListFailed(detail@),
            WatchEvent::WatcherStarted => WatchEventView::WatcherStarted,
            WatchEvent::WatcherFailed(detail) => WatchEventView::WatcherFailed(detail@),
            WatchEvent::Notification(file) => WatchEventView::Notification(file@),
            WatchEvent::Idle => WatchEventView::Idle,
            WatchEvent::Close(reason) => WatchEventView::Close(*reason),
        }
    }
}

impl View for WatchAction {
    type V = WatchActionView;

    open spec fn view(&self) -> WatchActionView {
        match self {
            WatchAction::Reject(error) => WatchActionView::Reject(error@),
            WatchAction::ListDirectory(dir) => WatchActionView::ListDirectory(dir@),
            WatchAction::StartWatcher(dir) => WatchActionView::StartWatcher(dir@),
            WatchAction::OpenStream(files) => WatchActionView::OpenStream(file_views(files@)),
            WatchAction::Send(file) => WatchActionView::Send(file@),
            WatchAction::KeepAlive => WatchActionView::KeepAlive,
            WatchAction::ReleaseWatcher => WatchActionView::ReleaseWatcher,
            WatchAction::Abandon => WatchActionView::Abandon,
            WatchAction::Ignore => WatchActionView::Ignore,
        }
    }
}

/// A connection on `workspace`, whose directory is `dir`, before anything
/// has happened.
pub open spec fn watch_start(workspace: Seq<char>, dir: Seq<char>) -> WatchView {
    WatchView {
        workspace,
        dir,
        state: WatchState::Opening(OpeningStep::Authorizing),
        found: Seq::empty(),
    }
}

/// The state that follows `session` once `event` has happened.
pub open spec fn watch_next(session: WatchView, event: WatchEventView) -> WatchView {
    match (session.state, event) {
        (WatchState::Closed, _) => session,
        (_, WatchEventView::Close(_)) => WatchView {
            state: WatchState::Closed,
            found: Seq::empty(),
            ..session
        },
        (
            WatchState::Opening(OpeningStep::Authorizing),
            WatchEventView::Authorization(granted),
        ) => if granted {
            WatchView { state: WatchState::Opening(OpeningStep::Listing), ..session }
        } else {
            WatchView { state: WatchState::Closed, ..session }
        },
        (WatchState::Opening(OpeningStep::Listing), WatchEventView::Listed(listing)) => WatchView {
            state: WatchState::Opening(OpeningStep::Starting),
            found: listed_files(session.workspace, listing),
            ..session
        },
        (WatchState::Opening(OpeningStep::Listing), WatchEventView::ListFailed(_)) => WatchView {
            state: WatchState::Closed,
            ..session
        },
        (WatchState::Opening(OpeningStep::Starting), WatchEventView::WatcherStarted) => WatchView {
            state: WatchState::Streaming,
            found: Seq::empty(),
            ..session
        },
        (WatchState::Opening(OpeningStep::Starting), WatchEventView::WatcherFailed(_)) => {
            WatchView { state: WatchState::Closed, found: Seq::empty(), ..session }
        },
        _ => session,
    }
}

/// What the caller is to do once `event` has happened to `session`.
pub open spec fn watch_action(session: WatchView, event: WatchEventView) -> WatchActionView {
    match (session.state, event) {
        (WatchState::Closed, _) => WatchActionView::Ignore,
        (WatchState::Streaming, WatchEventView::Close(_)) => WatchActionView::ReleaseWatcher,
        (WatchState::Opening(_), WatchEventView::Close(_)) => WatchActionView::Abandon,
        (
            WatchState::Opening(OpeningStep::Authorizing),
            WatchEventView::Authorization(granted),
        ) => if granted {
            WatchActionView::ListDirectory(session.dir)
        } else {
            WatchActionView::Reject(ErrorView::Unauthorized)
        },
        (WatchState::Opening(OpeningStep::Listing), WatchEventView::Listed(_)) => {
            WatchActionView::StartWatcher(session.dir)
        },
        (WatchState::Opening(OpeningStep::Listing), WatchEventView::ListFailed(detail)) => {
            WatchActionView::Reject(ErrorView::Io(detail))
        },
        (WatchState::Opening(OpeningStep::Starting), WatchEventView::WatcherStarted) => {
            WatchActionView::OpenStream(session.found)
        },
        (WatchState::Opening(OpeningStep::Starting), WatchEventView::WatcherFailed(detail)) => {
            WatchActionView::Reject(ErrorView::Watcher(detail))
        },
        (WatchState::Streaming, WatchEventView::Notification(file)) => WatchActionView::Send(file),
        (WatchState::Streaming, WatchEventView::Idle) => WatchActionView::KeepAlive,
        _ => WatchActionView::Ignore,
    }
}

/// The seconds without a notification after which a keep-alive is due.
pub const KEEP_ALIVE_SECONDS: u64 = 15;

/// The comment that a keep-alive carries.
pub const KEEP_ALIVE_TEXT: &'static str = "keep-alive-text";

/// One open watch connection.
#[derive(Debug)]
pub struct WatchSession {
    workspace: WorkspaceId,
    dir: String,
    state: WatchState,
    found: Vec<UploadedFile>,
}

impl View for WatchSession {
    type V = WatchView;

    closed spec fn view(&self) -> WatchView {
        WatchView {
            workspace: self.workspace@,
            dir: self.dir@,
            state: self.state,
            found: file_views(self.found@),
        }
    }
}

impl WatchSession {
    /// A connection that asks to watch the workspace `workspace` of `store`.
    pub fn new(store: &WorkspaceStore, workspace: WorkspaceId) -> (session: WatchSession)
        ensures
            session@ == watch_start(workspace@, store.directory_path(workspace@)),
    {
        let dir = store.directory(&workspace);
        let session = WatchSession {
            workspace,
            dir,
            state: WatchState::Opening(OpeningStep::Authorizing),
            found: Vec::new(),
        };
        assert(file_views(session.found@) =~= Seq::<UploadedFileView>::empty());
        session
    }

    /// The state of the connection.
    pub fn state(&self) -> (state: WatchState)
        ensures
            state == self@.state,
    {
        self.state
    }

    /// The workspace that the connection observes.
    pub fn workspace(&self) -> (workspace: &WorkspaceId)
        ensures
            workspace@ == self@.workspace,
    {
        &self.workspace
    }

    /// Takes note of `event` and says what is to be done next.
    pub fn step(self, event: WatchEvent) -> (next: (WatchSession, WatchAction))
        ensures
            next.0@ == watch_next(self@, event@),
            next.1@ == watch_action(self@, event@),
    {
        let WatchSession { workspace, dir, state, found } = self;
        match (state, event) {
            (WatchState::Closed, _) => (
                WatchSession { workspace, dir, state, found },
                WatchAction::Ignore,
            ),
            (WatchState::Streaming, WatchEvent::Close(_)) => {
                let closed = WatchSession {
                    workspace,
                    dir,
                    state: WatchState::Closed,
                    found: Vec::new(),
                };
                assert(file_views(closed.found@) =~= Seq::<UploadedFileView>::empty());
                (closed, WatchAction::ReleaseWatcher)
            },
            (WatchState::Opening(_), WatchEvent::Close(_)) => {
                let closed = WatchSession {
                    workspace,
                    dir,
                    state: WatchState::Closed,
                    found: Vec::new(),
                };
                assert(file_views(closed.found@) =~= Seq::<UploadedFileView>::empty());
                (closed, WatchAction::Abandon)
            },
            (WatchState::Opening(OpeningStep::Authorizing), WatchEvent::Authorization(granted)) => {
                if granted {
                    let target = dir.clone();
                    (
                        WatchSession {
                            workspace,
                            dir,
                            state: WatchState::Opening(OpeningStep::Listing),
                            found,
                        },
                        WatchAction::ListDirectory(target),
                    )
                } else {
                    (
                        WatchSession { workspace, dir, state: WatchState::Closed, found },
                        WatchAction::Reject(Error::Unauthorized),
                    )
                }
            },
            (WatchState::Opening(OpeningStep::Listing), WatchEvent::Listed(listing)) => {
                let files = files_of_listing(&workspace, &listing);
                let target = dir.clone();
                (
                    WatchSession {
                        workspace,
                        dir,
                        state: WatchState::Opening(OpeningStep::Starting),
                        found: files,
                    },
                    WatchAction::StartWatcher(target),
                )
            },
            (WatchState::Opening(OpeningStep::Listing), WatchEvent::ListFailed(detail)) => (
                WatchSession { workspace, dir, state: WatchState::Closed, found },
                WatchAction::Reject(Error::Io(detail)),
            ),
            (WatchState::Opening(OpeningStep::Starting), WatchEvent::WatcherStarted) => {
                let streaming = WatchSession {
                    workspace,
                    dir,
                    state: WatchState::Streaming,
                    found: Vec::new(),
                };
                assert(file_views(streaming.found@) =~= Seq::<UploadedFileView>::empty());
                (streaming, WatchAction::OpenStream(found))
            },
            (WatchState::Opening(OpeningStep::Starting), WatchEvent::WatcherFailed(detail)) => {
                let closed = WatchSession {
                    workspace,
                    dir,
                    state: WatchState::Closed,
                    found: Vec::new(),
                };
                assert(file_views(closed.found@) =~= Seq::<UploadedFileView>::empty());
                (closed, WatchAction::Reject(Error::Watcher(detail)))
            },
            (WatchState::Streaming, WatchEvent::Notification(file)) => (
                WatchSession { workspace, dir, state, found },
                WatchAction::Send(file),
            ),
            (WatchState::Streaming, WatchEvent::Idle) => (
                WatchSession { workspace, dir, state, found },
                WatchAction::KeepAlive,
            ),
            (state, _) => (WatchSession { workspace, dir, state, found }, WatchAction::Ignore),
        }
    }
}

/// The state after `events` have happened to `session`, one after another.
pub open spec fn watch_run(session: WatchView, events: Seq<WatchEventView>) -> WatchView
    decreases events.len(),
{
    if events.len() == 0 {
        session
    } else {
        watch_next(watch_run(session, events.drop_last()), events.last())
    }
}

/// The number of watchers that a connection in this state owns: one while it
/// streams, none before and after.
pub open spec fn watchers_held(state: WatchState) -> int {
    if state is Streaming {
        1
    } else {
        0
    }
}

/// The step at which the connection comes to own a watcher: it had asked for
/// one and is told that it runs.
pub open spec fn acquires_watcher(session: WatchView, event: WatchEventView) -> bool {
    session.state == WatchState::Opening(OpeningStep::Starting) && event is WatcherStarted
}

/// The watchers started for a connection and not yet released, once `events`
/// have happened to `session`.
pub open spec fn active_watchers(session: WatchView, events: Seq<WatchEventView>) -> int
    decreases events.len(),
{
    if events.len() == 0 {
        watchers_held(session.state)
    } else {
        let before = watch_run(session, events.drop_last());
        let started: int = if acquires_watcher(before, events.last()) {
            1
        } else {
            0
        };
        let released: int = if watch_action(before, events.last()) is ReleaseWatcher {
            1
        } else {
            0
        };
        active_watchers(session, events.drop_last()) + started - released
    }
}

/// Closing a connection, in whatever state and for whatever reason, ends it.
/// The watcher is released exactly where the connection owned one, and a
/// closed connection owns none.
pub proof fn lemma_close_releases_the_watcher(session: WatchView, reason: CloseReason)
    ensures
        watch_next(session, WatchEventView::Close(reason)).state is Closed,
        watch_action(session, WatchEventView::Close(reason)) is ReleaseWatcher
            <==> session.state is Streaming,
        watchers_held(watch_next(session, WatchEventView::Close(reason)).state) == 0,
{
}

/// A closed connection stays closed and asks for nothing more.
pub proof fn lemma_closed_is_final(session: WatchView, events: Seq<WatchEventView>)
    requires
        session.state is Closed,
    ensures
        watch_run(session, events) == session,
        forall|event: WatchEventView| #[trigger]
            watch_action(session, event) == WatchActionView::Ignore,
    decreases events.len(),
{
    if events.len() > 0 {
        lemma_closed_is_final(session, events.drop_last());
    }
}

/// A request that is not authorized is rejected at once, and no listing and
/// no watcher is ever asked for on its behalf.
pub proof fn lemma_unauthorized_starts_nothing(
    workspace: Seq<char>,
    dir: Seq<char>,
    events: Seq<WatchEventView>,
    event: WatchEventView,
)
    ensures
        watch_action(watch_start(workspace, dir), WatchEventView::Authorization(false))
            == WatchActionView::Reject(ErrorView::Unauthorized),
        watch_action(
            watch_run(
                watch_next(watch_start(workspace, dir), WatchEventView::Authorization(false)),
                events,
            ),
            event,
        ) == WatchActionView::Ignore,
{
    let rejected = watch_next(watch_start(workspace, dir), WatchEventView::Authorization(false));
    lemma_closed_is_final(rejected, events);
}

/// A watcher is asked for only once the request was authorized and the
/// directory listed, and the stream opens only once the watcher runs.
pub proof fn lemma_opening_goes_in_order(session: WatchView, event: WatchEventView)
    ensures
        watch_action(session, event) is ListDirectory ==> session.state == WatchState::Opening(
            OpeningStep::Authorizing,
        ) && event == WatchEventView::Authorization(true),
        watch_action(session, event) is StartWatcher ==> session.state == WatchState::Opening(
            OpeningStep::Listing,
        ) && event is Listed,
        watch_action(session, event) is OpenStream ==> session.state == WatchState::Opening(
            OpeningStep::Starting,
        ) && event is WatcherStarted,
        watch_next(session, event).state is Streaming ==> session.state is Streaming
            || acquires_watcher(session, event),
{
}

/// Whatever happens to a connection, the watchers started for it and not yet
/// released are those it owns: one while it streams, none otherwise. Once it
/// is closed, none is left.
pub proof fn lemma_watchers_are_accounted_for(session: WatchView, events: Seq<WatchEventView>)
    ensures
        active_watchers(session, events) == watchers_held(watch_run(session, events).state),
        watch_run(session, events).state is Closed ==> active_watchers(session, events) == 0,
    decreases events.len(),
{
    if events.len() > 0 {
        lemma_watchers_are_accounted_for(session, events.drop_last());
    }
}

/// A file written into a workspace is announced under its own name: the
/// create or modify event whose last path is the path that the file was
/// written at leads to a notification for that file of that workspace, and a
/// streaming connection sends it on.
pub proof fn lemma_written_file_is_announced(
    root: Seq<char>,
    workspace: Seq<char>,
    file_name: Seq<char>,
    kind: ChangeKind,
    paths: Seq<Seq<char>>,
    session: WatchView,
)
    requires
        is_valid_filename(file_name),
        kind.is_appearance(),
        paths.len() > 0,
        paths.last() == child_path(child_path(root, workspace), file_name),
        session.state is Streaming,
    ensures
        notification(workspace, kind, paths) == Some(described(workspace, file_name)),
        watch_action(session, WatchEventView::Notification(described(workspace, file_name)))
            == WatchActionView::Send(described(workspace, file_name)),
        watch_next(session, WatchEventView::Notification(described(workspace, file_name)))
            == session,
{
    lemma_child_path_names_the_file(child_path(root, workspace), file_name);
}

} // verus!
