use miko::error::Error;
use miko::store::{file_names, DirListing, WorkspaceId, WorkspaceStore};

fn workspace() -> WorkspaceId {
    WorkspaceId::new("11111111-1111-1111-1111-111111111111").unwrap()
}

#[test]
fn identifiers_are_directory_names() {
    assert!(WorkspaceId::new("11111111-1111-1111-1111-111111111111").is_some());
    assert!(WorkspaceId::new("chat-7").is_some());
    assert!(WorkspaceId::new("").is_none());
    assert!(WorkspaceId::new("..").is_none());
    assert!(WorkspaceId::new("../other").is_none());
    assert!(WorkspaceId::new("a/b").is_none());
    assert_eq!(workspace().as_str(), "11111111-1111-1111-1111-111111111111");
}

#[test]
fn identifiers_are_written_in_hyphenated_form() {
    let id = WorkspaceId::from_uuid(0x11111111_1111_1111_1111_111111111111);
    assert_eq!(id.as_str(), "11111111-1111-1111-1111-111111111111");
    let id = WorkspaceId::from_uuid(0xa1a2a3a4_b1b2_c1c2_d1d2_d3d4d5d6d7d8);
    assert_eq!(id.as_str(), "a1a2a3a4-b1b2-c1c2-d1d2-d3d4d5d6d7d8");
    assert_eq!(id.duplicate().as_str(), "a1a2a3a4-b1b2-c1c2-d1d2-d3d4d5d6d7d8");
    assert_eq!(WorkspaceId::from_uuid(0).as_str(), "00000000-0000-0000-0000-000000000000");
    assert_eq!(
        WorkspaceId::from_uuid(u128::MAX).as_str(),
        "ffffffff-ffff-ffff-ffff-ffffffffffff"
    );
    assert_eq!(
        WorkspaceId::from_uuid(0x0123456789abcdef_fedcba9876543210).as_str(),
        "01234567-89ab-cdef-fedc-ba9876543210"
    );
}

#[test]
fn workspace_directory_lies_under_the_root() {
    let store = WorkspaceStore::new("root".to_string());
    let id = WorkspaceId::from_uuid(0x11111111_1111_1111_1111_111111111111);
    assert_eq!(store.directory(&id), "root/11111111-1111-1111-1111-111111111111");
}

#[test]
fn workspace_directory_of_a_text_identifier() {
    let store = WorkspaceStore::new("root".to_string());
    assert_eq!(store.directory(&workspace()), "root/11111111-1111-1111-1111-111111111111");
}

#[test]
fn root_comes_from_the_configuration() {
    assert_eq!(WorkspaceStore::from_config(None).root(), "uploads");
    assert_eq!(WorkspaceStore::from_config(Some("/srv/files".to_string())).root(), "/srv/files");
    assert_eq!(
        WorkspaceStore::from_config(None).directory(&workspace()),
        "uploads/11111111-1111-1111-1111-111111111111"
    );
}

#[test]
fn file_resolves_inside_the_workspace() {
    let store = WorkspaceStore::new("root".to_string());
    let path = store.resolve_file(&workspace(), "notes.txt").unwrap();
    assert_eq!(path, "root/11111111-1111-1111-1111-111111111111/notes.txt");
}

#[test]
fn traversal_does_not_resolve() {
    let store = WorkspaceStore::new("root".to_string());
    match store.resolve_file(&workspace(), "../../etc/passwd") {
        Err(Error::InvalidArgument(detail)) => {
            assert_eq!(detail, "Invalid path: ../../etc/passwd")
        }
        other => panic!("unexpected: {:?}", other),
    }
    assert!(matches!(store.resolve_file(&workspace(), ""), Err(Error::InvalidArgument(_))));
    assert!(matches!(store.resolve_file(&workspace(), ".."), Err(Error::InvalidArgument(_))));
    assert!(matches!(store.resolve_file(&workspace(), "a/b"), Err(Error::InvalidArgument(_))));
}

#[test]
fn missing_directory_lists_as_empty() {
    let store = WorkspaceStore::new("root".to_string());
    let files = store.list(&workspace(), &DirListing::Missing);
    assert!(files.is_empty());
}

#[test]
fn entries_are_listed_with_their_media_types() {
    let store = WorkspaceStore::new("root".to_string());
    let listing = DirListing::Entries(vec![
        "notes.txt".to_string(),
        "data.csv".to_string(),
        "blob".to_string(),
    ]);
    let files = store.list(&workspace(), &listing);
    assert_eq!(files.len(), 3);
    assert_eq!(files[0].workspace, "11111111-1111-1111-1111-111111111111");
    assert_eq!(files[0].file_name, "notes.txt");
    assert_eq!(files[0].mime_type, "text/plain");
    assert_eq!(files[1].file_name, "data.csv");
    assert_eq!(files[1].mime_type, "text/csv");
    assert_eq!(files[2].file_name, "blob");
    assert_eq!(files[2].mime_type, "application/octet-stream");
    assert_eq!(file_names(&files), vec!["notes.txt", "data.csv", "blob"]);
}

#[test]
fn empty_directory_lists_as_empty() {
    let store = WorkspaceStore::new("root".to_string());
    assert!(store.list(&workspace(), &DirListing::Entries(vec![])).is_empty());
    assert!(file_names(&Vec::new()).is_empty());
}

#[test]
fn removing_a_missing_workspace_does_nothing() {
    let store = WorkspaceStore::new("root".to_string());
    assert_eq!(store.removal(&workspace(), false), None);
    assert!(store.list(&workspace(), &DirListing::Missing).is_empty());
}

#[test]
fn removing_a_workspace_deletes_its_directory() {
    let store = WorkspaceStore::new("root".to_string());
    assert_eq!(
        store.removal(&workspace(), true),
        Some("root/11111111-1111-1111-1111-111111111111".to_string())
    );
}
