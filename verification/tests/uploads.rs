use miko::error::Error;
use miko::models::UploadedFile;
use miko::store::{DirListing, WorkspaceId, WorkspaceStore};
use miko::upload::{UploadAction, UploadEvent, UploadSession};

fn fresh() -> UploadSession {
    let store = WorkspaceStore::new("root".to_string());
    UploadSession::new(&store, &WorkspaceId::new("ws").unwrap())
}

fn ready() -> UploadSession {
    let session = fresh();
    let (session, action) = session.step(UploadEvent::DirectoryReady);
    assert!(matches!(action, UploadAction::Continue));
    session
}

fn write(session: UploadSession, name: &str, expected_path: &str) -> UploadSession {
    let (session, action) = session.step(UploadEvent::Field(Some(name.to_string())));
    match action {
        UploadAction::Write(path) => assert_eq!(path, expected_path),
        other => panic!("unexpected: {:?}", other),
    }
    let (session, action) = session.step(UploadEvent::Written);
    assert!(matches!(action, UploadAction::Continue));
    session
}

#[test]
fn upload_counts_the_files_written() {
    let session = ready();
    assert_eq!(session.directory(), "root/ws");
    assert_eq!(session.count(), 0);
    let session = write(session, "a.txt", "root/ws/a.txt");
    assert_eq!(session.count(), 1);
    let (session, action) = session.step(UploadEvent::Field(None));
    assert!(matches!(action, UploadAction::Continue));
    assert_eq!(session.count(), 1);
    let session = write(session, "b.csv", "root/ws/b.csv");
    let session = write(session, "c", "root/ws/c");
    assert_eq!(session.written(), &vec!["a.txt".to_string(), "b.csv".to_string(), "c".to_string()]);
    let (session, action) = session.step(UploadEvent::End);
    assert!(matches!(action, UploadAction::Finish(3)));
    assert_eq!(session.count(), 3);
}

#[test]
fn upload_without_files_counts_none() {
    let session = ready();
    let (session, action) = session.step(UploadEvent::Field(None));
    assert!(matches!(action, UploadAction::Continue));
    let (_, action) = session.step(UploadEvent::End);
    assert!(matches!(action, UploadAction::Finish(0)));
}

#[test]
fn uploaded_files_are_the_files_listed() {
    let store = WorkspaceStore::new("root".to_string());
    let id = WorkspaceId::new("11111111-1111-1111-1111-111111111111").unwrap();
    let dir = store.directory(&id);
    let (mut session, _) = UploadSession::new(&store, &id).step(UploadEvent::DirectoryReady);
    assert_eq!(session.directory(), dir);
    for name in ["notes.txt", "data.csv", "paper.pdf"] {
        let expected = format!("{}/{}", dir, name);
        session = write(session, name, &expected);
    }
    let (session, action) = session.step(UploadEvent::End);
    assert!(matches!(action, UploadAction::Finish(3)));
    let listing = DirListing::Entries(session.written().clone());
    let files: Vec<UploadedFile> = store.list(&id, &listing);
    let mut names: Vec<String> = files.into_iter().map(|file| file.file_name).collect();
    names.sort();
    assert_eq!(names, vec!["data.csv", "notes.txt", "paper.pdf"]);
}

#[test]
fn unsafe_name_aborts_the_upload() {
    let session = ready();
    let session = write(session, "a.txt", "root/ws/a.txt");
    let (session, action) = session.step(UploadEvent::Field(Some("../../etc/passwd".to_string())));
    match action {
        UploadAction::Reject(Error::InvalidArgument(detail)) => {
            assert_eq!(detail, "Invalid path: ../../etc/passwd")
        }
        other => panic!("unexpected: {:?}", other),
    }
    assert_eq!(session.count(), 1);
    let (session, action) = session.step(UploadEvent::Field(Some("b.txt".to_string())));
    assert!(matches!(action, UploadAction::Ignore));
    let (session, action) = session.step(UploadEvent::Written);
    assert!(matches!(action, UploadAction::Ignore));
    let (session, action) = session.step(UploadEvent::End);
    assert!(matches!(action, UploadAction::Ignore));
    assert_eq!(session.count(), 1);
}

#[test]
fn failed_write_aborts_the_upload() {
    let session = ready();
    let (session, action) = session.step(UploadEvent::Field(Some("a.txt".to_string())));
    assert!(matches!(action, UploadAction::Write(_)));
    let (session, action) = session.step(UploadEvent::WriteFailed("disk full".to_string()));
    match action {
        UploadAction::Reject(Error::Io(detail)) => assert_eq!(detail, "disk full"),
        other => panic!("unexpected: {:?}", other),
    }
    assert_eq!(session.count(), 0);
    let (_, action) = session.step(UploadEvent::Field(Some("b.txt".to_string())));
    assert!(matches!(action, UploadAction::Ignore));
}

#[test]
fn failed_directory_aborts_the_upload() {
    let session = fresh();
    let (session, action) = session.step(UploadEvent::DirectoryFailed("denied".to_string()));
    match action {
        UploadAction::Reject(Error::Io(detail)) => assert_eq!(detail, "denied"),
        other => panic!("unexpected: {:?}", other),
    }
    let (_, action) = session.step(UploadEvent::Field(Some("a.txt".to_string())));
    assert!(matches!(action, UploadAction::Ignore));
}

#[test]
fn nothing_is_written_before_the_directory_is_ready() {
    let session = fresh();
    let (session, action) = session.step(UploadEvent::Field(Some("a.txt".to_string())));
    assert!(matches!(action, UploadAction::Ignore));
    let (session, action) = session.step(UploadEvent::End);
    assert!(matches!(action, UploadAction::Ignore));
    let (_, action) = session.step(UploadEvent::DirectoryReady);
    assert!(matches!(action, UploadAction::Continue));
}

#[test]
fn events_out_of_place_are_ignored() {
    let session = ready();
    let (session, action) = session.step(UploadEvent::Written);
    assert!(matches!(action, UploadAction::Ignore));
    let (session, action) = session.step(UploadEvent::WriteFailed("x".to_string()));
    assert!(matches!(action, UploadAction::Ignore));
    let (session, action) = session.step(UploadEvent::Field(Some("a.txt".to_string())));
    assert!(matches!(action, UploadAction::Write(_)));
    let (session, action) = session.step(UploadEvent::Field(Some("b.txt".to_string())));
    assert!(matches!(action, UploadAction::Ignore));
    let (session, action) = session.step(UploadEvent::End);
    assert!(matches!(action, UploadAction::Ignore));
    let (session, action) = session.step(UploadEvent::Written);
    assert!(matches!(action, UploadAction::Continue));
    assert_eq!(session.count(), 1);
}

#[test]
fn later_upload_of_a_name_goes_to_the_same_path() {
    let session = ready();
    let session = write(session, "a.txt", "root/ws/a.txt");
    let session = write(session, "a.txt", "root/ws/a.txt");
    let (_, action) = session.step(UploadEvent::End);
    assert!(matches!(action, UploadAction::Finish(2)));
}
