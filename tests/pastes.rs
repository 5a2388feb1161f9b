use pasties::auth::Identity;
use pasties::database::{Database, ServerOptions, ViewMode};
use pasties::model::{PasteCreate, PasteError, PasteMetadata};

fn options(mode: ViewMode) -> ServerOptions {
    ServerOptions {
        view_password: false,
        guppy: true,
        paste_ownership: true,
        document_store: false,
        view_mode: mode,
    }
}

fn request(url: &str, content: &str, password: &str) -> PasteCreate {
    PasteCreate {
        url: url.to_string(),
        content: content.to_string(),
        password: password.to_string(),
    }
}

fn identity(name: &str, permissions: &[&str]) -> Identity {
    Identity {
        username: name.to_string(),
        permissions: permissions.iter().map(|p| p.to_string()).collect(),
    }
}

#[test]
fn create_with_generated_password() {
    let mut db = Database::new(options(ViewMode::OpenMultiple));
    let (pw, paste) = db.create_paste(request("my-paste", "hello world", "")).unwrap();
    assert_eq!(pw.len(), 10);
    assert_eq!(paste.url, "my-paste");
    assert_eq!(paste.content, "hello world");
    assert_eq!(paste.password, pasties::credentials::hash(&pw));
    assert_ne!(paste.password, pw);
    assert_eq!(paste.date_published, paste.date_edited);
    assert_eq!(paste.metadata.owner, "");
}

#[test]
fn create_keeps_given_password() {
    let mut db = Database::new(options(ViewMode::OpenMultiple));
    let (pw, paste) = db.create_paste(request("given", "text", "secret")).unwrap();
    assert_eq!(pw, "secret");
    assert_eq!(paste.password, pasties::credentials::hash("secret"));
}

#[test]
fn create_generates_slug_when_empty() {
    let mut db = Database::new(options(ViewMode::OpenMultiple));
    let (_, paste) = db.create_paste(request("", "text", "pw")).unwrap();
    assert_eq!(paste.url.len(), 10);
    assert!(paste.url.chars().all(|c| c.is_ascii_hexdigit()));
    let read = db.get_paste_by_url(paste.url.clone()).unwrap();
    assert_eq!(read.content, "text");
}

#[test]
fn create_with_given_values() {
    let mut db = Database::new(options(ViewMode::OpenMultiple));
    let (pw, paste) = db
        .create_paste_with(
            request("", "body", ""),
            "the-id".to_string(),
            "0123456789abcdef".to_string(),
            "fedcba9876543210".to_string(),
            42,
        )
        .unwrap();
    assert_eq!(pw, "fedcba9876");
    assert_eq!(paste.url, "0123456789");
    assert_eq!(paste.id, "the-id");
    assert_eq!(paste.date_published, 42);
    assert_eq!(paste.date_edited, 42);
}

#[test]
fn create_normalizes_slug() {
    let mut db = Database::new(options(ViewMode::OpenMultiple));
    let (_, paste) = db.create_paste(request("Hello-World", "text", "pw")).unwrap();
    assert_eq!(paste.url, "hello-world");
    assert!(db.get_paste_by_url("HELLO-WORLD".to_string()).is_ok());
}

#[test]
fn create_existing_slug() {
    let mut db = Database::new(options(ViewMode::OpenMultiple));
    db.create_paste(request("taken", "first", "pw")).unwrap();
    assert_eq!(
        db.create_paste(request("taken", "second", "pw")).unwrap_err(),
        PasteError::AlreadyExists
    );
    assert_eq!(
        db.create_paste(request("TAKEN", "second", "pw")).unwrap_err(),
        PasteError::AlreadyExists
    );
    assert_eq!(db.get_paste_by_url("taken".to_string()).unwrap().content, "first");
}

#[test]
fn create_bad_content_length() {
    let mut db = Database::new(options(ViewMode::OpenMultiple));
    assert_eq!(
        db.create_paste(request("empty", "", "pw")).unwrap_err(),
        PasteError::ValueError
    );
    let too_long = "a".repeat(200_001);
    assert_eq!(
        db.create_paste(request("long", &too_long, "pw")).unwrap_err(),
        PasteError::ValueError
    );
    let longest = "a".repeat(200_000);
    assert!(db.create_paste(request("longest", &longest, "pw")).is_ok());
    assert!(db.create_paste(request("shortest", "a", "pw")).is_ok());
}

#[test]
fn create_content_length_counts_bytes() {
    let mut db = Database::new(options(ViewMode::OpenMultiple));
    // 100,001 two-byte characters: 200,002 bytes
    let wide = "é".repeat(100_001);
    assert_eq!(
        db.create_paste(request("wide", &wide, "pw")).unwrap_err(),
        PasteError::ValueError
    );
}

#[test]
fn create_bad_slugs() {
    let mut db = Database::new(options(ViewMode::OpenMultiple));
    assert_eq!(db.create_paste(request("ab", "x", "pw")).unwrap_err(), PasteError::ValueError);
    let long = "a".repeat(251);
    assert_eq!(db.create_paste(request(&long, "x", "pw")).unwrap_err(), PasteError::ValueError);
    let longest = "a".repeat(250);
    assert!(db.create_paste(request(&longest, "x", "pw")).is_ok());
    assert_eq!(
        db.create_paste(request("has space", "x", "pw")).unwrap_err(),
        PasteError::ValueError
    );
    assert_eq!(db.create_paste(request("a/b/c", "x", "pw")).unwrap_err(), PasteError::ValueError);
    assert!(db.create_paste(request("ok_name.v2!", "x", "pw")).is_ok());
}

#[test]
fn create_then_delete() {
    let mut db = Database::new(options(ViewMode::OpenMultiple));
    db.create_paste(request("gone", "text", "pw")).unwrap();
    assert_eq!(db.delete_paste_by_url("gone".to_string(), "pw".to_string()), Ok(()));
    assert_eq!(
        db.get_paste_by_url("gone".to_string()).unwrap_err(),
        PasteError::NotFound
    );
    assert_eq!(
        db.delete_paste_by_url("gone".to_string(), "pw".to_string()),
        Err(PasteError::NotFound)
    );
}

#[test]
fn create_then_edit() {
    let mut db = Database::new(options(ViewMode::OpenMultiple));
    db.create_paste_with(request("doc", "v1", "pw"), "id".to_string(), String::new(), String::new(), 1_000)
        .unwrap();
    let r = db.edit_paste_by_url_at(
        "doc".to_string(),
        "pw".to_string(),
        "v2".to_string(),
        String::new(),
        String::new(),
        None,
        2_000,
    );
    assert_eq!(r, Ok(()));
    let p = db.get_paste_by_url("doc".to_string()).unwrap();
    assert_eq!(p.content, "v2");
    assert_eq!(p.date_published, 1_000);
    assert_eq!(p.date_edited, 2_000);
    assert!(p.date_edited > p.date_published);
    assert_eq!(p.password, pasties::credentials::hash("pw"));
}

#[test]
fn edit_with_clock() {
    let mut db = Database::new(options(ViewMode::OpenMultiple));
    db.create_paste(request("clocked", "v1", "pw")).unwrap();
    let r = db.edit_paste_by_url(
        "clocked".to_string(),
        "pw".to_string(),
        "v2".to_string(),
        String::new(),
        String::new(),
        None,
    );
    assert_eq!(r, Ok(()));
    let p = db.get_paste_by_url("clocked".to_string()).unwrap();
    assert_eq!(p.content, "v2");
    assert!(p.date_edited >= p.date_published);
}

#[test]
fn edit_moves_slug_and_password() {
    let mut db = Database::new(options(ViewMode::OpenMultiple));
    db.create_paste(request("old-name", "text", "pw")).unwrap();
    // fill the cache under the old slug
    db.get_paste_by_url("old-name".to_string()).unwrap();
    let r = db.edit_paste_by_url_at(
        "old-name".to_string(),
        "pw".to_string(),
        "text2".to_string(),
        "New-Name".to_string(),
        "pw2".to_string(),
        None,
        5,
    );
    assert_eq!(r, Ok(()));
    assert_eq!(
        db.get_paste_by_url("old-name".to_string()).unwrap_err(),
        PasteError::NotFound
    );
    let p = db.get_paste_by_url("new-name".to_string()).unwrap();
    assert_eq!(p.content, "text2");
    assert_eq!(p.password, pasties::credentials::hash("pw2"));
    assert_eq!(
        db.delete_paste_by_url("new-name".to_string(), "pw".to_string()),
        Err(PasteError::PasswordIncorrect)
    );
    assert_eq!(db.delete_paste_by_url("new-name".to_string(), "pw2".to_string()), Ok(()));
}

#[test]
fn edit_into_taken_slug() {
    let mut db = Database::new(options(ViewMode::OpenMultiple));
    db.create_paste(request("one", "1", "pw")).unwrap();
    db.create_paste(request("two", "2", "pw")).unwrap();
    let r = db.edit_paste_by_url_at(
        "one".to_string(),
        "pw".to_string(),
        "1b".to_string(),
        "two".to_string(),
        String::new(),
        None,
        5,
    );
    assert_eq!(r, Err(PasteError::AlreadyExists));
    assert_eq!(db.get_paste_by_url("one".to_string()).unwrap().content, "1");
}

#[test]
fn edit_rejects_invalid_values() {
    let mut db = Database::new(options(ViewMode::OpenMultiple));
    db.create_paste(request("valid", "1", "pw")).unwrap();
    let empty = db.edit_paste_by_url_at(
        "valid".to_string(),
        "pw".to_string(),
        String::new(),
        String::new(),
        String::new(),
        None,
        5,
    );
    assert_eq!(empty, Err(PasteError::ValueError));
    let bad_url = db.edit_paste_by_url_at(
        "valid".to_string(),
        "pw".to_string(),
        "2".to_string(),
        "no way".to_string(),
        String::new(),
        None,
        5,
    );
    assert_eq!(bad_url, Err(PasteError::ValueError));
}

#[test]
fn delete_wrong_password() {
    let mut db = Database::new(options(ViewMode::OpenMultiple));
    db.create_paste(request("kept", "text", "right")).unwrap();
    assert_eq!(
        db.delete_paste_by_url("kept".to_string(), "wrong".to_string()),
        Err(PasteError::PasswordIncorrect)
    );
    assert_eq!(db.get_paste_by_url("kept".to_string()).unwrap().content, "text");
}

#[test]
fn read_missing_paste() {
    let mut db = Database::new(options(ViewMode::OpenMultiple));
    assert_eq!(
        db.get_paste_by_url("nothing".to_string()).unwrap_err(),
        PasteError::NotFound
    );
}

#[test]
fn owner_edits_without_password() {
    let mut db = Database::new(options(ViewMode::OpenMultiple));
    db.create_paste(request("owned", "v1", "pw")).unwrap();
    let metadata = PasteMetadata { owner: "alice".to_string(), view_password: String::new() };
    assert_eq!(
        db.edit_paste_metadata_by_url("owned".to_string(), "pw".to_string(), metadata, None),
        Ok(())
    );
    assert_eq!(db.get_paste_by_url("owned".to_string()).unwrap().metadata.owner, "alice");
    let r = db.edit_paste_by_url_at(
        "owned".to_string(),
        "wrong".to_string(),
        "v2".to_string(),
        String::new(),
        String::new(),
        Some(identity("alice", &[])),
        9,
    );
    assert_eq!(r, Ok(()));
    assert_eq!(db.get_paste_by_url("owned".to_string()).unwrap().content, "v2");
}

#[test]
fn stranger_needs_password() {
    let mut db = Database::new(options(ViewMode::OpenMultiple));
    db.create_paste(request("guarded", "v1", "pw")).unwrap();
    let metadata = PasteMetadata { owner: "alice".to_string(), view_password: String::new() };
    db.edit_paste_metadata_by_url("guarded".to_string(), "pw".to_string(), metadata, None)
        .unwrap();
    let by_bob = db.edit_paste_by_url_at(
        "guarded".to_string(),
        "wrong".to_string(),
        "v2".to_string(),
        String::new(),
        String::new(),
        Some(identity("bob", &["Other"])),
        9,
    );
    assert_eq!(by_bob, Err(PasteError::PasswordIncorrect));
    let anonymous = db.edit_paste_by_url_at(
        "guarded".to_string(),
        "wrong".to_string(),
        "v2".to_string(),
        String::new(),
        String::new(),
        None,
        9,
    );
    assert_eq!(anonymous, Err(PasteError::PasswordIncorrect));
    let metadata = PasteMetadata { owner: "bob".to_string(), view_password: String::new() };
    assert_eq!(
        db.edit_paste_metadata_by_url("guarded".to_string(), "wrong".to_string(), metadata, None),
        Err(PasteError::PasswordIncorrect)
    );
}

#[test]
fn manager_edits_without_password() {
    let mut db = Database::new(options(ViewMode::OpenMultiple));
    db.create_paste(request("managed", "v1", "pw")).unwrap();
    let r = db.edit_paste_by_url_at(
        "managed".to_string(),
        "wrong".to_string(),
        "v2".to_string(),
        String::new(),
        String::new(),
        Some(identity("root", &["Other", "ManagePastes"])),
        9,
    );
    assert_eq!(r, Ok(()));
    let metadata = PasteMetadata { owner: "root".to_string(), view_password: "v".to_string() };
    assert_eq!(
        db.edit_paste_metadata_by_url(
            "managed".to_string(),
            String::new(),
            metadata,
            Some(identity("root", &["ManagePastes"]))
        ),
        Ok(())
    );
    let p = db.get_paste_by_url("managed".to_string()).unwrap();
    assert_eq!(p.metadata.owner, "root");
    assert_eq!(p.metadata.view_password, "v");
}

#[test]
fn clear_cache_keeps_pastes() {
    let mut db = Database::new(options(ViewMode::OpenMultiple));
    db.create_paste(request("cached", "text", "pw")).unwrap();
    db.get_paste_by_url("cached".to_string()).unwrap();
    db.clear_cache();
    assert_eq!(db.get_paste_by_url("cached".to_string()).unwrap().content, "text");
}

#[test]
fn edit_after_read_is_seen() {
    let mut db = Database::new(options(ViewMode::OpenMultiple));
    db.create_paste(request("fresh", "v1", "pw")).unwrap();
    assert_eq!(db.get_paste_by_url("fresh".to_string()).unwrap().content, "v1");
    let metadata = PasteMetadata { owner: "carol".to_string(), view_password: String::new() };
    db.edit_paste_metadata_by_url("fresh".to_string(), "pw".to_string(), metadata, None)
        .unwrap();
    assert_eq!(db.get_paste_by_url("fresh".to_string()).unwrap().metadata.owner, "carol");
}

#[test]
fn edits_of_missing_pastes() {
    let mut db = Database::new(options(ViewMode::OpenMultiple));
    let r = db.edit_paste_by_url_at(
        "absent".to_string(),
        "pw".to_string(),
        "v".to_string(),
        String::new(),
        String::new(),
        None,
        1,
    );
    assert_eq!(r, Err(PasteError::NotFound));
    assert_eq!(
        db.edit_paste_metadata_by_url(
            "absent".to_string(),
            "pw".to_string(),
            PasteMetadata::default(),
            None
        ),
        Err(PasteError::NotFound)
    );
}

#[test]
fn engine_keeps_its_options() {
    let db = Database::new(options(ViewMode::AuthenticatedOnce));
    let o = db.options();
    assert_eq!(o.view_mode, ViewMode::AuthenticatedOnce);
    assert!(o.guppy);
    assert!(!o.document_store);
}

#[test]
fn create_refuses_a_taken_id() {
    let mut db = Database::new(options(ViewMode::OpenMultiple));
    db.create_paste_with(request("first", "1", "pw"), "same-id".to_string(), String::new(), String::new(), 1)
        .unwrap();
    let r = db.create_paste_with(
        request("second", "2", "pw"),
        "same-id".to_string(),
        String::new(),
        String::new(),
        2,
    );
    assert_eq!(r.unwrap_err(), PasteError::Other);
    assert_eq!(
        db.get_paste_by_url("second".to_string()).unwrap_err(),
        PasteError::NotFound
    );
    // once the paste holding it is gone, the id is free again
    db.delete_paste_by_url("first".to_string(), "pw".to_string()).unwrap();
    assert!(db
        .create_paste_with(request("second", "2", "pw"), "same-id".to_string(), String::new(), String::new(), 3)
        .is_ok());
}

#[test]
fn generated_password_is_hex() {
    let mut db = Database::new(options(ViewMode::OpenMultiple));
    let (pw, paste) = db.create_paste(request("hexpw", "text", "")).unwrap();
    assert_eq!(pw.len(), 10);
    assert!(pw.chars().all(|c| c.is_ascii_digit() || ('a'..='f').contains(&c)));
    assert_eq!(paste.id.len(), 64);
    assert!(paste.date_published > 1_600_000_000_000);
}
