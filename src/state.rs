//! The observable state of the paste engine, and what each operation
//! returns and makes of it.
use vstd::prelude::*;
use crate::auth::{bypass_spec, Identity};
use crate::credentials::{first_ten, hash_of};
use crate::database::{ServerOptions, ViewMode};
use crate::model::{default_metadata, DocumentModel, MetadataModel, PasteError, PasteModel};
use crate::normalize::normalize_spec;
use crate::validate::{content_ok, slug_ok};

verus! {

/// What the engine holds, as its users can observe it.
pub struct DatabaseModel {
    pub options: ServerOptions,
    /// Stored pastes, keyed by slug
    pub pastes: Map<Seq<char>, PasteModel>,
    /// View counters that live only in the cache (open-multiple mode)
    pub open_views: Map<Seq<char>, nat>,
    /// Stored (slug, username) view records
    pub viewers: Seq<(Seq<char>, Seq<char>)>,
    /// Stored documents
    pub documents: Seq<DocumentModel>,
}

/// How many view records name `url`.
pub open spec fn viewer_count(viewers: Seq<(Seq<char>, Seq<char>)>, url: Seq<char>) -> nat {
    viewers.filter(|r: (Seq<char>, Seq<char>)| r.0 == url).len()
}

impl DatabaseModel {
    /// What holds of every observable state: each paste is stored under its
    /// own slug, which is a valid slug, no two pastes share an id, and no two
    /// documents share a key.
    pub open spec fn valid(self) -> bool {
        &&& forall|k: Seq<char>| #[trigger] self.pastes.contains_key(k) ==> self.pastes[k].url == k
        &&& forall|k: Seq<char>| #[trigger] self.pastes.contains_key(k) ==> slug_ok(k)
        &&& forall|k1: Seq<char>, k2: Seq<char>|
            #[trigger] self.pastes.contains_key(k1) && #[trigger] self.pastes.contains_key(k2) && k1
                != k2 ==> self.pastes[k1].id != self.pastes[k2].id
        &&& forall|i: int, j: int|
            0 <= i < self.documents.len() && 0 <= j < self.documents.len() && i != j
                ==> !same_document_key(#[trigger] self.documents[i], #[trigger] self.documents[j])
    }
}

/// Whether two documents share their (id, namespace) key.
pub open spec fn same_document_key(a: DocumentModel, b: DocumentModel) -> bool {
    a.id == b.id && a.namespace == b.namespace
}


/// What reading `raw` gives.
pub open spec fn lookup_spec(m: DatabaseModel, raw: Seq<char>) -> Result<PasteModel, PasteError> {
    match normalize_spec(raw) {
        None => Err(PasteError::ValueError),
        Some(u) => if m.pastes.contains_key(u) {
            Ok(m.pastes[u])
        } else {
            Err(PasteError::NotFound)
        },
    }
}

/// What creating a paste gives: the plaintext edit password and the stored
/// record. `id`, `generated_url` and `generated_password` are random
/// identifiers, `now` the time in milliseconds.
pub open spec fn create_spec(
    m: DatabaseModel,
    url: Seq<char>,
    content: Seq<char>,
    password: Seq<char>,
    id: Seq<char>,
    generated_url: Seq<char>,
    generated_password: Seq<char>,
    now: u128,
) -> Result<(Seq<char>, PasteModel), PasteError> {
    match normalize_spec(url) {
        None => Err(PasteError::ValueError),
        Some(u0) => if m.pastes.contains_key(u0) {
            Err(PasteError::AlreadyExists)
        } else {
            let u = if u0.len() == 0 {
                first_ten(generated_url)
            } else {
                u0
            };
            let pw = if password.len() == 0 {
                first_ten(generated_password)
            } else {
                password
            };
            if !slug_ok(u) || !content_ok(content) {
                Err(PasteError::ValueError)
            } else if m.pastes.contains_key(u) || id_taken(m, id) {
                // the store refuses a second paste under a generated slug,
                // or under an id that a stored paste holds
                Err(PasteError::Other)
            } else {
                Ok(
                    (
                        pw,
                        PasteModel {
                            id,
                            url: u,
                            content,
                            password: hash_of(pw),
                            date_published: now,
                            date_edited: now,
                            metadata: default_metadata(),
                        },
                    ),
                )
            }
        },
    }
}

/// Whether a stored paste holds the id `id`.
pub open spec fn id_taken(m: DatabaseModel, id: Seq<char>) -> bool {
    exists|k: Seq<char>| #[trigger] m.pastes.contains_key(k) && m.pastes[k].id == id
}

/// A request that creating a paste owes success to: its slug normalizes to
/// a valid slug that no paste holds yet, and its content is valid.
pub open spec fn fresh_valid_request(m: DatabaseModel, url: Seq<char>, content: Seq<char>) -> bool {
    match normalize_spec(url) {
        Some(u) => u.len() > 0 && slug_ok(u) && !m.pastes.contains_key(u) && content_ok(content),
        None => false,
    }
}

/// The state after creating a paste.
pub open spec fn after_create(
    m: DatabaseModel,
    url: Seq<char>,
    content: Seq<char>,
    password: Seq<char>,
    id: Seq<char>,
    generated_url: Seq<char>,
    generated_password: Seq<char>,
    now: u128,
) -> DatabaseModel {
    match create_spec(m, url, content, password, id, generated_url, generated_password, now) {
        Ok((_, p)) => DatabaseModel { pastes: m.pastes.insert(p.url, p), ..m },
        Err(_) => m,
    }
}

/// What deleting `raw` with `password` gives.
pub open spec fn delete_spec(m: DatabaseModel, raw: Seq<char>, password: Seq<char>) -> Result<
    (),
    PasteError,
> {
    match lookup_spec(m, raw) {
        Err(e) => Err(e),
        Ok(p) => if hash_of(password) != p.password {
            Err(PasteError::PasswordIncorrect)
        } else {
            Ok(())
        },
    }
}

/// View records that do not name `url`.
pub open spec fn records_without(viewers: Seq<(Seq<char>, Seq<char>)>, url: Seq<char>) -> Seq<
    (Seq<char>, Seq<char>),
> {
    viewers.filter(|r: (Seq<char>, Seq<char>)| r.0 != url)
}

/// The state after deleting `raw` with `password`: the paste, its counter
/// and its view records are gone.
pub open spec fn after_delete(m: DatabaseModel, raw: Seq<char>, password: Seq<char>) -> DatabaseModel {
    if delete_spec(m, raw, password) is Ok {
        let u = normalize_spec(raw)->0;
        DatabaseModel {
            pastes: m.pastes.remove(u),
            open_views: m.open_views.remove(u),
            viewers: records_without(m.viewers, u),
            ..m
        }
    } else {
        m
    }
}

/// Whether an edit request is authorized: the requester may bypass the
/// password, or the password's hash is the stored one.
pub open spec fn edit_allowed(p: PasteModel, password: Seq<char>, requester: Option<Identity>) -> bool {
    bypass_spec(p.metadata.owner, requester) || hash_of(password) == p.password
}

/// What editing `raw` gives: the record as it is stored afterwards.
pub open spec fn edit_spec(
    m: DatabaseModel,
    raw: Seq<char>,
    password: Seq<char>,
    new_content: Seq<char>,
    new_url: Seq<char>,
    new_password: Seq<char>,
    requester: Option<Identity>,
    now: u128,
) -> Result<PasteModel, PasteError> {
    match lookup_spec(m, raw) {
        Err(e) => Err(e),
        Ok(p) => if !edit_allowed(p, password, requester) {
            Err(PasteError::PasswordIncorrect)
        } else {
            let target = if new_url.len() == 0 {
                Some(p.url)
            } else {
                normalize_spec(new_url)
            };
            match target {
                None => Err(PasteError::ValueError),
                Some(t) => if !content_ok(new_content) || (new_url.len() > 0 && !slug_ok(t)) {
                    Err(PasteError::ValueError)
                } else if t != p.url && m.pastes.contains_key(t) {
                    Err(PasteError::AlreadyExists)
                } else {
                    Ok(
                        PasteModel {
                            url: t,
                            content: new_content,
                            password: if new_password.len() == 0 {
                                p.password
                            } else {
                                hash_of(new_password)
                            },
                            date_edited: now,
                            ..p
                        },
                    )
                },
            }
        },
    }
}

/// An edit request that succeeds, whatever the time and the new password:
/// the paste is stored, the request is authorized, the new content is valid,
/// and a new slug is valid and free.
pub open spec fn edit_succeeds(
    m: DatabaseModel,
    raw: Seq<char>,
    password: Seq<char>,
    new_content: Seq<char>,
    new_url: Seq<char>,
    requester: Option<Identity>,
) -> bool {
    &&& lookup_spec(m, raw) is Ok
    &&& edit_allowed(lookup_spec(m, raw)->Ok_0, password, requester)
    &&& content_ok(new_content)
    &&& new_url.len() > 0 ==> (normalize_spec(new_url) matches Some(t) && slug_ok(t) && (t
        == lookup_spec(m, raw)->Ok_0.url || !m.pastes.contains_key(t)))
}

/// The state after editing `raw`.
pub open spec fn after_edit(
    m: DatabaseModel,
    raw: Seq<char>,
    password: Seq<char>,
    new_content: Seq<char>,
    new_url: Seq<char>,
    new_password: Seq<char>,
    requester: Option<Identity>,
    now: u128,
) -> DatabaseModel {
    match edit_spec(m, raw, password, new_content, new_url, new_password, requester, now) {
        Ok(q) => DatabaseModel {
            pastes: m.pastes.remove(normalize_spec(raw)->0).insert(q.url, q),
            ..m
        },
        Err(_) => m,
    }
}

/// What replacing the metadata of `raw` gives.
pub open spec fn edit_metadata_spec(
    m: DatabaseModel,
    raw: Seq<char>,
    password: Seq<char>,
    requester: Option<Identity>,
) -> Result<(), PasteError> {
    match lookup_spec(m, raw) {
        Err(e) => Err(e),
        Ok(p) => if !edit_allowed(p, password, requester) {
            Err(PasteError::PasswordIncorrect)
        } else {
            Ok(())
        },
    }
}

/// The state after replacing the metadata of `raw`.
pub open spec fn after_edit_metadata(
    m: DatabaseModel,
    raw: Seq<char>,
    password: Seq<char>,
    metadata: MetadataModel,
    requester: Option<Identity>,
) -> DatabaseModel {
    if edit_metadata_spec(m, raw, password, requester) is Ok {
        let u = normalize_spec(raw)->0;
        DatabaseModel { pastes: m.pastes.insert(u, PasteModel { metadata, ..m.pastes[u] }), ..m }
    } else {
        m
    }
}

/// The view count of `raw`.
pub open spec fn view_count_spec(m: DatabaseModel, raw: Seq<char>) -> nat {
    match normalize_spec(raw) {
        None => 0,
        Some(u) => if m.options.view_mode == ViewMode::AuthenticatedOnce {
            viewer_count(m.viewers, u)
        } else if m.open_views.contains_key(u) {
            m.open_views[u]
        } else {
            0
        },
    }
}

/// What counting a view of `raw` gives.
pub open spec fn incr_spec(m: DatabaseModel, raw: Seq<char>, viewer: Option<Identity>) -> Result<
    (),
    PasteError,
> {
    match normalize_spec(raw) {
        None => Err(PasteError::ValueError),
        Some(u) => if m.options.view_mode == ViewMode::AuthenticatedOnce {
            match viewer {
                None => Ok(()),
                Some(id) => if m.viewers.contains((u, id.username@)) {
                    Ok(())
                } else if viewer_count(m.viewers, u) >= u64::MAX {
                    Err(PasteError::Other)
                } else {
                    Ok(())
                },
            }
        } else if view_count_spec(m, raw) >= u64::MAX {
            Err(PasteError::Other)
        } else {
            Ok(())
        },
    }
}

/// The state after counting a view of `raw`: in authenticated-once mode a
/// new viewer gets a record, in open-multiple mode the counter goes up.
pub open spec fn after_incr(m: DatabaseModel, raw: Seq<char>, viewer: Option<Identity>) -> DatabaseModel {
    if incr_spec(m, raw, viewer) is Ok {
        let u = normalize_spec(raw)->0;
        if m.options.view_mode == ViewMode::AuthenticatedOnce {
            match viewer {
                Some(id) => if m.viewers.contains((u, id.username@)) {
                    m
                } else {
                    DatabaseModel { viewers: m.viewers.push((u, id.username@)), ..m }
                },
                None => m,
            }
        } else {
            DatabaseModel { open_views: m.open_views.insert(u, view_count_spec(m, raw) + 1), ..m }
        }
    } else {
        m
    }
}

/// The state after the cache was cleared: pastes are read again from the
/// store, but the counters of open-multiple mode are lost.
pub open spec fn after_clear_cache(m: DatabaseModel) -> DatabaseModel {
    DatabaseModel { open_views: Map::empty(), ..m }
}

/// Whether a document with key (`id`, `namespace`) is stored.
pub open spec fn has_document(docs: Seq<DocumentModel>, id: Seq<char>, namespace: Seq<char>) -> bool {
    exists|i: int| 0 <= i < docs.len() && (#[trigger] docs[i]).id == id && docs[i].namespace == namespace
}

/// Where the document with key (`id`, `namespace`) stands.
pub open spec fn document_index(docs: Seq<DocumentModel>, id: Seq<char>, namespace: Seq<char>) -> int {
    choose|i: int| 0 <= i < docs.len() && (#[trigger] docs[i]).id == id && docs[i].namespace == namespace
}

/// Whether document operations may go on with key (`id`, `namespace`): the
/// document store is enabled and holds that document.
pub open spec fn document_gate(m: DatabaseModel, id: Seq<char>, namespace: Seq<char>) -> Result<
    (),
    PasteError,
> {
    if !m.options.document_store {
        Err(PasteError::Other)
    } else if !has_document(m.documents, id, namespace) {
        Err(PasteError::NotFound)
    } else {
        Ok(())
    }
}

/// What pulling the document (`id`, `namespace`) gives.
pub open spec fn pull_spec(m: DatabaseModel, id: Seq<char>, namespace: Seq<char>) -> Result<
    DocumentModel,
    PasteError,
> {
    match document_gate(m, id, namespace) {
        Err(e) => Err(e),
        Ok(()) => Ok(m.documents[document_index(m.documents, id, namespace)]),
    }
}

/// What pushing a document with key (`id`, `namespace`) gives; the store
/// refuses a second document under one key.
pub open spec fn push_spec(
    m: DatabaseModel,
    namespace: Seq<char>,
    content: Seq<char>,
    metadata: MetadataModel,
    id: Seq<char>,
    now: u128,
) -> Result<DocumentModel, PasteError> {
    if !m.options.document_store {
        Err(PasteError::Other)
    } else if has_document(m.documents, id, namespace) {
        Err(PasteError::Other)
    } else {
        Ok(DocumentModel { id, namespace, content, timestamp: now, metadata })
    }
}

/// The state after pushing a document.
pub open spec fn after_push(
    m: DatabaseModel,
    namespace: Seq<char>,
    content: Seq<char>,
    metadata: MetadataModel,
    id: Seq<char>,
    now: u128,
) -> DatabaseModel {
    match push_spec(m, namespace, content, metadata, id, now) {
        Ok(d) => DatabaseModel { documents: m.documents.push(d), ..m },
        Err(_) => m,
    }
}

/// The state after dropping the document (`id`, `namespace`).
pub open spec fn after_drop(m: DatabaseModel, id: Seq<char>, namespace: Seq<char>) -> DatabaseModel {
    if document_gate(m, id, namespace) is Ok {
        DatabaseModel {
            documents: m.documents.remove(document_index(m.documents, id, namespace)),
            ..m
        }
    } else {
        m
    }
}

/// The state after replacing the content of the document (`id`, `namespace`).
pub open spec fn after_update(m: DatabaseModel, id: Seq<char>, namespace: Seq<char>, content: Seq<char>) -> DatabaseModel {
    if document_gate(m, id, namespace) is Ok {
        let i = document_index(m.documents, id, namespace);
        DatabaseModel {
            documents: m.documents.update(i, DocumentModel { content, ..m.documents[i] }),
            ..m
        }
    } else {
        m
    }
}

/// The state after replacing the metadata of the document (`id`, `namespace`).
pub open spec fn after_update_metadata(
    m: DatabaseModel,
    id: Seq<char>,
    namespace: Seq<char>,
    metadata: MetadataModel,
) -> DatabaseModel {
    if document_gate(m, id, namespace) is Ok {
        let i = document_index(m.documents, id, namespace);
        DatabaseModel {
            documents: m.documents.update(i, DocumentModel { metadata, ..m.documents[i] }),
            ..m
        }
    } else {
        m
    }
}

/// Dropping the records of `url` keeps the count of every other slug.
pub proof fn lemma_count_without(viewers: Seq<(Seq<char>, Seq<char>)>, url: Seq<char>, k: Seq<char>)
    requires
        k != url,
    ensures
        viewer_count(records_without(viewers, url), k) == viewer_count(viewers, k),
    decreases viewers.len(),
{
    reveal(Seq::filter);
    if viewers.len() > 0 {
        let rest = viewers.drop_last();
        lemma_count_without(rest, url, k);
        let w = records_without(rest, url);
        let x = viewers.last();
        assert(records_without(viewers, url) == if x.0 != url {
            w.push(x)
        } else {
            w
        });
        assert(viewer_count(viewers, k) == viewer_count(rest, k) + if x.0 == k {
            1nat
        } else {
            0nat
        });
        if x.0 != url {
            assert(w.push(x).drop_last() =~= w);
            assert(viewer_count(w.push(x), k) == viewer_count(w, k) + if x.0 == k {
                1nat
            } else {
                0nat
            });
        }
    }
}

/// A new record adds one to the count of its slug only.
pub proof fn lemma_count_push(viewers: Seq<(Seq<char>, Seq<char>)>, x: (Seq<char>, Seq<char>), k: Seq<char>)
    ensures
        viewer_count(viewers.push(x), k) == viewer_count(viewers, k) + if x.0 == k {
            1nat
        } else {
            0nat
        },
{
    reveal(Seq::filter);
    assert(viewers.push(x).drop_last() =~= viewers);
}

} // verus!
