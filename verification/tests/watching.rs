use miko::error::Error;
use miko::models::UploadedFile;
use miko::store::{DirListing, WorkspaceId, WorkspaceStore};
use miko::notification::{event_payload, frame_payload, notification_for, observes, ChangeKind};
use miko::viewer::merge_notification;
use miko::watch::{
    CloseReason, OpeningStep, WatchAction, WatchEvent, WatchSession, WatchState,
    KEEP_ALIVE_SECONDS, KEEP_ALIVE_TEXT,
};

fn workspace() -> WorkspaceId {
    WorkspaceId::new("11111111-1111-1111-1111-111111111111").unwrap()
}

fn store() -> WorkspaceStore {
    WorkspaceStore::new("root".to_string())
}

fn streaming() -> WatchSession {
    let session = WatchSession::new(&store(), workspace());
    let (session, _) = session.step(WatchEvent::Authorization(true));
    let (session, _) = session.step(WatchEvent::Listed(DirListing::Missing));
    let (session, _) = session.step(WatchEvent::WatcherStarted);
    assert_eq!(session.state(), WatchState::Streaming);
    session
}

fn file(name: &str) -> UploadedFile {
    UploadedFile::describe("11111111-1111-1111-1111-111111111111", name)
}

#[test]
fn only_changes_to_files_are_observed() {
    assert!(observes(ChangeKind::Create));
    assert!(observes(ChangeKind::Modify));
    assert!(observes(ChangeKind::Remove));
    assert!(!observes(ChangeKind::Access));
    assert!(!observes(ChangeKind::Any));
    assert!(!observes(ChangeKind::Other));
}

#[test]
fn created_file_is_announced() {
    let paths = vec!["root/11111111-1111-1111-1111-111111111111/notes.txt".to_string()];
    let file = notification_for(&workspace(), ChangeKind::Create, &paths).unwrap();
    assert_eq!(file.workspace, "11111111-1111-1111-1111-111111111111");
    assert_eq!(file.file_name, "notes.txt");
    assert_eq!(file.mime_type, "text/plain");
}

#[test]
fn modified_file_is_announced() {
    let paths = vec!["/srv/root/ws/data.csv".to_string()];
    let file = notification_for(&workspace(), ChangeKind::Modify, &paths).unwrap();
    assert_eq!(file.file_name, "data.csv");
    assert_eq!(file.mime_type, "text/csv");
}

#[test]
fn last_path_of_an_event_is_announced() {
    let paths = vec!["root/ws/first.txt".to_string(), "root/ws/second.png".to_string()];
    let file = notification_for(&workspace(), ChangeKind::Create, &paths).unwrap();
    assert_eq!(file.file_name, "second.png");
    assert_eq!(file.mime_type, "image/png");
}

#[test]
fn other_events_are_not_announced() {
    let paths = vec!["root/ws/notes.txt".to_string()];
    assert!(notification_for(&workspace(), ChangeKind::Remove, &paths).is_none());
    assert!(notification_for(&workspace(), ChangeKind::Access, &paths).is_none());
    assert!(notification_for(&workspace(), ChangeKind::Any, &paths).is_none());
    assert!(notification_for(&workspace(), ChangeKind::Other, &paths).is_none());
}

#[test]
fn events_without_a_file_are_not_announced() {
    assert!(notification_for(&workspace(), ChangeKind::Create, &Vec::new()).is_none());
    let paths = vec!["root/ws/..".to_string()];
    assert!(notification_for(&workspace(), ChangeKind::Create, &paths).is_none());
    let paths = vec!["root/ws/".to_string()];
    assert!(notification_for(&workspace(), ChangeKind::Modify, &paths).is_none());
}

#[test]
fn uploaded_file_is_announced_under_its_name() {
    let path = store().resolve_file(&workspace(), "report.csv").unwrap();
    let file = notification_for(&workspace(), ChangeKind::Create, &vec![path]).unwrap();
    assert_eq!(file.file_name, "report.csv");
    let (session, action) = streaming().step(WatchEvent::Notification(file));
    match action {
        WatchAction::Send(sent) => {
            assert_eq!(sent.file_name, "report.csv");
            assert_eq!(sent.workspace, "11111111-1111-1111-1111-111111111111");
        }
        other => panic!("unexpected: {:?}", other),
    }
    assert_eq!(session.state(), WatchState::Streaming);
}

#[test]
fn watch_connection_opens_in_order() {
    let session = WatchSession::new(&store(), workspace());
    assert_eq!(session.state(), WatchState::Opening(OpeningStep::Authorizing));
    assert_eq!(session.workspace().as_str(), "11111111-1111-1111-1111-111111111111");

    let (session, action) = session.step(WatchEvent::Authorization(true));
    match action {
        WatchAction::ListDirectory(dir) => {
            assert_eq!(dir, "root/11111111-1111-1111-1111-111111111111")
        }
        other => panic!("unexpected: {:?}", other),
    }
    assert_eq!(session.state(), WatchState::Opening(OpeningStep::Listing));

    let listing = DirListing::Entries(vec!["notes.txt".to_string(), "b.png".to_string()]);
    let (session, action) = session.step(WatchEvent::Listed(listing));
    match action {
        WatchAction::StartWatcher(dir) => {
            assert_eq!(dir, "root/11111111-1111-1111-1111-111111111111")
        }
        other => panic!("unexpected: {:?}", other),
    }
    assert_eq!(session.state(), WatchState::Opening(OpeningStep::Starting));

    let (session, action) = session.step(WatchEvent::WatcherStarted);
    match action {
        WatchAction::OpenStream(files) => {
            assert_eq!(files.len(), 2);
            assert_eq!(files[0].file_name, "notes.txt");
            assert_eq!(files[0].mime_type, "text/plain");
            assert_eq!(files[1].file_name, "b.png");
            assert_eq!(files[1].mime_type, "image/png");
        }
        other => panic!("unexpected: {:?}", other),
    }
    assert_eq!(session.state(), WatchState::Streaming);
}

#[test]
fn unauthorized_request_is_rejected_before_anything_starts() {
    let session = WatchSession::new(&store(), workspace());
    let (session, action) = session.step(WatchEvent::Authorization(false));
    assert!(matches!(action, WatchAction::Reject(Error::Unauthorized)));
    assert_eq!(session.state(), WatchState::Closed);
    let (session, action) = session.step(WatchEvent::Listed(DirListing::Missing));
    assert!(matches!(action, WatchAction::Ignore));
    let (session, action) = session.step(WatchEvent::WatcherStarted);
    assert!(matches!(action, WatchAction::Ignore));
    assert_eq!(session.state(), WatchState::Closed);
}

#[test]
fn failed_listing_rejects_the_request() {
    let session = WatchSession::new(&store(), workspace());
    let (session, _) = session.step(WatchEvent::Authorization(true));
    let (session, action) = session.step(WatchEvent::ListFailed("denied".to_string()));
    match action {
        WatchAction::Reject(Error::Io(detail)) => assert_eq!(detail, "denied"),
        other => panic!("unexpected: {:?}", other),
    }
    assert_eq!(session.state(), WatchState::Closed);
}

#[test]
fn failed_watcher_rejects_the_request() {
    let session = WatchSession::new(&store(), workspace());
    let (session, _) = session.step(WatchEvent::Authorization(true));
    let (session, _) = session.step(WatchEvent::Listed(DirListing::Missing));
    let (session, action) = session.step(WatchEvent::WatcherFailed("no such directory".to_string()));
    match action {
        WatchAction::Reject(Error::Watcher(detail)) => assert_eq!(detail, "no such directory"),
        other => panic!("unexpected: {:?}", other),
    }
    assert_eq!(session.state(), WatchState::Closed);
}

#[test]
fn idle_stream_is_kept_alive() {
    let (session, action) = streaming().step(WatchEvent::Idle);
    assert!(matches!(action, WatchAction::KeepAlive));
    assert_eq!(session.state(), WatchState::Streaming);
    assert_eq!(KEEP_ALIVE_SECONDS, 15);
    assert_eq!(KEEP_ALIVE_TEXT, "keep-alive-text");
}

#[test]
fn closing_a_stream_releases_the_watcher() {
    for reason in [CloseReason::Disconnected, CloseReason::WriteFailed, CloseReason::Shutdown] {
        let (session, action) = streaming().step(WatchEvent::Close(reason));
        assert!(matches!(action, WatchAction::ReleaseWatcher));
        assert_eq!(session.state(), WatchState::Closed);
        let (session, action) = session.step(WatchEvent::Close(reason));
        assert!(matches!(action, WatchAction::Ignore));
        let (session, action) = session.step(WatchEvent::Notification(file("late.txt")));
        assert!(matches!(action, WatchAction::Ignore));
        assert_eq!(session.state(), WatchState::Closed);
    }
}

#[test]
fn closing_before_the_stream_opens_releases_nothing() {
    let session = WatchSession::new(&store(), workspace());
    let (session, action) = session.step(WatchEvent::Close(CloseReason::Disconnected));
    assert!(matches!(action, WatchAction::Abandon));
    assert_eq!(session.state(), WatchState::Closed);

    let session = WatchSession::new(&store(), workspace());
    let (session, _) = session.step(WatchEvent::Authorization(true));
    let (session, _) = session.step(WatchEvent::Listed(DirListing::Missing));
    let (session, action) = session.step(WatchEvent::Close(CloseReason::Shutdown));
    assert!(matches!(action, WatchAction::Abandon));
    assert_eq!(session.state(), WatchState::Closed);
}

#[test]
fn watch_events_out_of_place_are_ignored() {
    let session = WatchSession::new(&store(), workspace());
    let (session, action) = session.step(WatchEvent::Notification(file("a.txt")));
    assert!(matches!(action, WatchAction::Ignore));
    let (session, action) = session.step(WatchEvent::WatcherStarted);
    assert!(matches!(action, WatchAction::Ignore));
    let (session, action) = session.step(WatchEvent::Idle);
    assert!(matches!(action, WatchAction::Ignore));
    assert_eq!(session.state(), WatchState::Opening(OpeningStep::Authorizing));
    let (session, action) = streaming().step(WatchEvent::Authorization(true));
    assert!(matches!(action, WatchAction::Ignore));
    assert_eq!(session.state(), WatchState::Streaming);
}

#[test]
fn viewer_shows_each_name_once() {
    let mut files = vec![file("a.txt")];
    merge_notification(&mut files, file("b.png"));
    assert_eq!(files.len(), 2);
    merge_notification(&mut files, file("a.txt"));
    merge_notification(&mut files, file("b.png"));
    assert_eq!(files.len(), 2);
    assert_eq!(files[0].file_name, "a.txt");
    assert_eq!(files[1].file_name, "b.png");
    let mut empty: Vec<UploadedFile> = Vec::new();
    merge_notification(&mut empty, file("c.csv"));
    assert_eq!(empty.len(), 1);
    assert_eq!(empty[0].mime_type, "text/csv");
}

#[test]
fn announced_file_is_encoded_as_json() {
    assert_eq!(
        event_payload(&file("notes.txt")).unwrap(),
        "{\"workspace\":\"11111111-1111-1111-1111-111111111111\",\"file_name\":\"notes.txt\",\"mime_type\":\"text/plain\"}"
    );
}

#[test]
fn special_characters_are_escaped_in_the_payload() {
    let odd = UploadedFile {
        workspace: "ws".to_string(),
        file_name: "a\"b\n.txt".to_string(),
        mime_type: "text/plain".to_string(),
    };
    assert_eq!(
        event_payload(&odd).unwrap(),
        "{\"workspace\":\"ws\",\"file_name\":\"a\\\"b\\n.txt\",\"mime_type\":\"text/plain\"}"
    );
}

#[test]
fn payload_is_framed_in_the_order_of_the_fields() {
    assert_eq!(
        frame_payload("1", "2", "3"),
        "{\"workspace\":1,\"file_name\":2,\"mime_type\":3}"
    );
}

#[test]
fn payload_reads_back_as_the_file() {
    let payload = event_payload(&file("data.csv")).unwrap();
    let value: serde_json::Value = serde_json::from_str(&payload).unwrap();
    assert_eq!(value["workspace"], "11111111-1111-1111-1111-111111111111");
    assert_eq!(value["file_name"], "data.csv");
    assert_eq!(value["mime_type"], "text/csv");
    assert_eq!(value.as_object().unwrap().len(), 3);
}
