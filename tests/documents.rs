use pasties::database::{Database, ServerOptions, ViewMode};
use pasties::model::{DocumentCreate, PasteError, PasteMetadata};

fn engine(document_store: bool) -> Database {
    Database::new(ServerOptions {
        view_password: false,
        guppy: false,
        paste_ownership: false,
        document_store,
        view_mode: ViewMode::OpenMultiple,
    })
}

fn create(namespace: &str, content: &str) -> DocumentCreate {
    DocumentCreate {
        namespace: namespace.to_string(),
        content: content.to_string(),
        metadata: PasteMetadata::default(),
    }
}

#[test]
fn documents_disabled() {
    let mut db = engine(false);
    assert_eq!(db.push(create("ns", "body")).unwrap_err(), PasteError::Other);
    assert_eq!(db.pull("id".to_string(), "ns".to_string()).unwrap_err(), PasteError::Other);
    assert_eq!(db.drop("id".to_string(), "ns".to_string()), Err(PasteError::Other));
    assert_eq!(
        db.update("id".to_string(), "ns".to_string(), "x".to_string()),
        Err(PasteError::Other)
    );
    assert_eq!(
        db.update_metadata("id".to_string(), "ns".to_string(), PasteMetadata::default()),
        Err(PasteError::Other)
    );
}

#[test]
fn document_life_cycle() {
    let mut db = engine(true);
    let doc = db.push(create("notes", "first")).unwrap();
    assert_eq!(doc.id.len(), 64);
    assert_eq!(doc.namespace, "notes");
    let pulled = db.pull(doc.id.clone(), "notes".to_string()).unwrap();
    assert_eq!(pulled.content, "first");
    assert_eq!(pulled.timestamp, doc.timestamp);
    assert_eq!(
        db.pull(doc.id.clone(), "other".to_string()).unwrap_err(),
        PasteError::NotFound
    );
    assert_eq!(db.update(doc.id.clone(), "notes".to_string(), "second".to_string()), Ok(()));
    assert_eq!(db.pull(doc.id.clone(), "notes".to_string()).unwrap().content, "second");
    let metadata = PasteMetadata { owner: "dora".to_string(), view_password: String::new() };
    assert_eq!(db.update_metadata(doc.id.clone(), "notes".to_string(), metadata), Ok(()));
    assert_eq!(db.pull(doc.id.clone(), "notes".to_string()).unwrap().metadata.owner, "dora");
    assert_eq!(db.drop(doc.id.clone(), "notes".to_string()), Ok(()));
    assert_eq!(
        db.pull(doc.id.clone(), "notes".to_string()).unwrap_err(),
        PasteError::NotFound
    );
    assert_eq!(db.drop(doc.id.clone(), "notes".to_string()), Err(PasteError::NotFound));
}

#[test]
fn document_keys_are_unique() {
    let mut db = engine(true);
    let a = db.push_with(create("ns", "a"), "same".to_string(), 7).unwrap();
    assert_eq!(a.timestamp, 7);
    assert_eq!(db.push_with(create("ns", "b"), "same".to_string(), 8).unwrap_err(), PasteError::Other);
    assert!(db.push_with(create("other", "c"), "same".to_string(), 9).is_ok());
    assert_eq!(db.pull("same".to_string(), "ns".to_string()).unwrap().content, "a");
    assert_eq!(db.pull("same".to_string(), "other".to_string()).unwrap().content, "c");
    assert_eq!(db.drop("same".to_string(), "ns".to_string()), Ok(()));
    assert_eq!(db.pull("same".to_string(), "other".to_string()).unwrap().content, "c");
}
