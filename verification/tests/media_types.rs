use miko::mime::{guess_media_type, media_type_or_default};

#[test]
fn known_extensions_have_their_media_type() {
    assert_eq!(guess_media_type("notes.txt"), "text/plain");
    assert_eq!(guess_media_type("data.csv"), "text/csv");
    assert_eq!(guess_media_type("paper.pdf"), "application/pdf");
    assert_eq!(guess_media_type("photo.png"), "image/png");
    assert_eq!(guess_media_type("config.json"), "application/json");
}

#[test]
fn lookup_ignores_case() {
    assert_eq!(guess_media_type("PHOTO.PNG"), "image/png");
    assert_eq!(guess_media_type("Notes.Txt"), "text/plain");
}

#[test]
fn last_extension_decides() {
    assert_eq!(guess_media_type("notes.txt.png"), "image/png");
}

#[test]
fn unknown_extensions_fall_back() {
    assert_eq!(guess_media_type("blob.zzzzzz"), "application/octet-stream");
    assert_eq!(guess_media_type("README"), "application/octet-stream");
    assert_eq!(guess_media_type(".bashrc"), "application/octet-stream");
    assert_eq!(guess_media_type("trailing."), "application/octet-stream");
    assert_eq!(guess_media_type(""), "application/octet-stream");
}

#[test]
fn default_replaces_a_failed_lookup() {
    assert_eq!(media_type_or_default(None), "application/octet-stream");
    assert_eq!(media_type_or_default(Some("text/x-test".to_string())), "text/x-test");
}
