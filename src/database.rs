//! The paste engine: an in-memory store of pastes, view records and
//! documents, with a read-through, write-invalidate cache in front of it.
use vstd::prelude::*;
use vstd::hash_map::StringHashMap;
use crate::auth::{may_bypass_password, Identity};
use crate::credentials::{
    generated_secret, hash, is_random_id, random_id, shorten_generated, verify_password,
};
use crate::utility::unix_epoch_millis;
use crate::model::{Document, DocumentCreate, DocumentModel, Paste, PasteCreate, PasteError, PasteMetadata, PasteModel};
use crate::normalize::{normalize, normalize_spec};
use crate::state::{
    after_clear_cache, after_create, after_delete, after_drop, after_edit, after_edit_metadata,
    after_incr, after_push, after_update, after_update_metadata, create_spec, delete_spec,
    document_gate, document_index, edit_metadata_spec, edit_spec, edit_succeeds, fresh_valid_request,
    has_document, incr_spec, lemma_count_push, lemma_count_without, lookup_spec, pull_spec,
    id_taken, push_spec, records_without, same_document_key, view_count_spec, viewer_count, DatabaseModel,
};
use crate::validate::{slug_ok, validate_content, validate_slug};

verus! {

/// How views are counted; chosen at deployment, never mixed at runtime.
#[derive(Clone, Copy, Debug, PartialEq, Eq, Structural)]
pub enum ViewMode {
    /// Only authenticated users can count as a paste view and only once
    AuthenticatedOnce,
    /// Anybody can count as a paste view multiple times;
    /// views are only stored in the cache when using this mode
    OpenMultiple,
}

#[derive(Clone, Copy, Debug)]
pub struct ServerOptions {
    /// If pastes can require a password to be viewed
    pub view_password: bool,
    /// If authentication is enabled
    pub guppy: bool,
    /// If pastes can have a owner username (authentication required)
    pub paste_ownership: bool,
    /// If [`Document`]s are allowed (needed for external plugins)
    pub document_store: bool,
    /// View mode options
    pub view_mode: ViewMode,
}

impl ServerOptions {
    /// Enable all options
    pub fn truthy() -> (r: Self)
        ensures
            r.view_password && r.guppy && r.paste_ownership && r.document_store,
            r.view_mode == ViewMode::OpenMultiple,
    {
        Self {
            view_password: true,
            guppy: true,
            paste_ownership: true,
            document_store: true,
            view_mode: ViewMode::OpenMultiple,
        }
    }
}

impl Default for ServerOptions {
    fn default() -> (r: Self)
        ensures
            !r.view_password && !r.guppy && !r.paste_ownership && !r.document_store,
            r.view_mode == ViewMode::OpenMultiple,
    {
        Self {
            view_password: false,
            guppy: false,
            paste_ownership: false,
            document_store: false,
            view_mode: ViewMode::OpenMultiple,
        }
    }
}

/// A stored record that `username` has been counted as a viewer of `url`.
#[derive(Clone, Debug)]
pub struct ViewRecord {
    pub url: String,
    pub username: String,
}

/// The paste engine with its store and cache, both held in memory.
pub struct Database {
    options: ServerOptions,
    /// Stored pastes, keyed by slug
    pastes: StringHashMap<Paste>,
    /// The slug of each stored paste, keyed by the paste's id
    ids: StringHashMap<String>,
    /// Cached pastes, keyed by slug
    cached_pastes: StringHashMap<Paste>,
    /// Cached view counters, keyed by slug
    cached_views: StringHashMap<u64>,
    /// Stored view records (authenticated-once mode)
    views: Vec<ViewRecord>,
    /// Stored documents
    documents: Vec<Document>,
}


impl View for Database {
    type V = DatabaseModel;

    closed spec fn view(&self) -> DatabaseModel {
        DatabaseModel {
            options: self.options,
            pastes: self.pastes@.map_values(|p: Paste| p@),
            open_views: if self.options.view_mode == ViewMode::OpenMultiple {
                self.cached_views@.map_values(|n: u64| n as nat)
            } else {
                Map::empty()
            },
            viewers: self.views@.map_values(|r: ViewRecord| (r.url@, r.username@)),
            documents: self.documents@.map_values(|d: Document| d@),
        }
    }
}


/// Documents that keep their keys, one for one, keep them unique.
proof fn lemma_same_keys_unique(before: Seq<DocumentModel>, after: Seq<DocumentModel>)
    requires
        forall|i: int, j: int|
            0 <= i < before.len() && 0 <= j < before.len() && i != j ==> !same_document_key(
                #[trigger] before[i],
                #[trigger] before[j],
            ),
        after.len() == before.len(),
        forall|i: int| 0 <= i < after.len() ==> same_document_key(#[trigger] after[i], before[i]),
    ensures
        forall|i: int, j: int|
            0 <= i < after.len() && 0 <= j < after.len() && i != j ==> !same_document_key(
                #[trigger] after[i],
                #[trigger] after[j],
            ),
{
    assert forall|a: int, b: int|
        0 <= a < after.len() && 0 <= b < after.len() && a != b implies !same_document_key(
        #[trigger] after[a],
        #[trigger] after[b],
    ) by {
        assert(same_document_key(after[a], before[a]));
        assert(same_document_key(after[b], before[b]));
    }
}

impl Database {
    /// The engine's invariant: every paste is stored under its own slug,
    /// which is a valid slug, the id index maps each stored id to its slug
    /// and nothing else, the cache holds only copies of stored pastes, in authenticated-once mode a
    /// cached counter equals the number of view records, and no two
    /// documents share a key.
    pub closed spec fn wf(&self) -> bool {
        &&& forall|k: Seq<char>| #[trigger]
            self.pastes@.contains_key(k) ==> self.pastes@[k].url@ == k && slug_ok(k)
                && self.ids@.contains_key(self.pastes@[k].id@) && self.ids@[self.pastes@[k].id@]@
                == k
        &&& forall|i: Seq<char>| #[trigger]
            self.ids@.contains_key(i) ==> self.pastes@.contains_key(self.ids@[i]@)
                && self.pastes@[self.ids@[i]@].id@ == i
        &&& forall|k: Seq<char>| #[trigger]
            self.cached_pastes@.contains_key(k) ==> self.pastes@.contains_key(k)
                && self.cached_pastes@[k]@ == self.pastes@[k]@
        &&& self.options.view_mode == ViewMode::AuthenticatedOnce ==> forall|k: Seq<char>|
            #[trigger] self.cached_views@.contains_key(k) ==> self.cached_views@[k] as nat
                == viewer_count(self@.viewers, k)
        &&& forall|i: int, j: int|
            0 <= i < self@.documents.len() && 0 <= j < self@.documents.len() && i != j
                ==> !same_document_key(#[trigger] self@.documents[i], #[trigger] self@.documents[j])
    }

    /// The observable state of a well-formed engine is valid.
    pub proof fn lemma_valid(&self)
        requires
            self.wf(),
        ensures
            self@.valid(),
    {
        assert forall|k1: Seq<char>, k2: Seq<char>|
            #[trigger] self@.pastes.contains_key(k1) && #[trigger] self@.pastes.contains_key(k2)
                && k1 != k2 implies self@.pastes[k1].id != self@.pastes[k2].id by {
            assert(self.pastes@.contains_key(k1) && self.pastes@.contains_key(k2));
        }
    }

    /// The id index holds exactly the ids of stored pastes.
    proof fn lemma_id_index(&self, id: Seq<char>)
        requires
            self.wf(),
        ensures
            self.ids@.contains_key(id) == id_taken(self@, id),
    {
        if self.ids@.contains_key(id) {
            let k = self.ids@[id]@;
            assert(self@.pastes.contains_key(k) && self@.pastes[k].id == id);
        }
        if id_taken(self@, id) {
            let k = choose|k: Seq<char>| #[trigger] self@.pastes.contains_key(k) && self@.pastes[k].id == id;
            assert(self.pastes@.contains_key(k));
        }
    }

    /// A new, empty engine.
    pub fn new(options: ServerOptions) -> (r: Database)
        ensures
            r.wf(),
            r@.options == options,
            r@.pastes == Map::<Seq<char>, PasteModel>::empty(),
            r@.open_views == Map::<Seq<char>, nat>::empty(),
            r@.viewers == Seq::<(Seq<char>, Seq<char>)>::empty(),
            r@.documents == Seq::<DocumentModel>::empty(),
    {
        let r = Database {
            options,
            pastes: StringHashMap::new(),
            ids: StringHashMap::new(),
            cached_pastes: StringHashMap::new(),
            cached_views: StringHashMap::new(),
            views: Vec::new(),
            documents: Vec::new(),
        };
        assert(r@.pastes =~= Map::<Seq<char>, PasteModel>::empty());
        assert(r@.open_views =~= Map::<Seq<char>, nat>::empty());
        assert(r@.viewers =~= Seq::<(Seq<char>, Seq<char>)>::empty());
        assert(r@.documents =~= Seq::<DocumentModel>::empty());
        r
    }

    /// The stored paste under `key`, read through the cache; a miss fills
    /// the cache from the store.
    fn fetch(&mut self, key: &String) -> (r: Option<Paste>)
        requires
            old(self).wf(),
        ensures
            final(self).wf(),
            final(self)@ == old(self)@,
            match r {
                Some(p) => old(self)@.pastes.contains_key(key@) && p@ == old(self)@.pastes[key@],
                None => !old(self)@.pastes.contains_key(key@),
            },
    {
        match self.cached_pastes.get(key.as_str()) {
            Some(p) => {
                return Some(p.duplicate());
            },
            None => {},
        }
        match self.pastes.get(key.as_str()) {
            Some(p) => {
                let found = p.duplicate();
                let copy = p.duplicate();
                self.cached_pastes.insert(key.clone(), copy);
                Some(found)
            },
            None => None,
        }
    }

    /// Get an existing paste by `url`
    pub fn get_paste_by_url(&mut self, url: String) -> (r: Result<Paste, PasteError>)
        requires
            old(self).wf(),
        ensures
            final(self).wf(),
            final(self)@ == old(self)@,
            match r {
                Ok(p) => lookup_spec(old(self)@, url@) == Ok::<PasteModel, PasteError>(p@),
                Err(e) => lookup_spec(old(self)@, url@) == Err::<PasteModel, PasteError>(e),
            },
    {
        let key = match normalize(url.as_str()) {
            Some(k) => k,
            None => return Err(PasteError::ValueError),
        };
        match self.fetch(&key) {
            Some(p) => Ok(p),
            None => Err(PasteError::NotFound),
        }
    }

    /// Create a new paste, with `id` as its identifier, `generated_url` and
    /// `generated_password` as the random identifiers that a missing slug or
    /// password is cut from, and `now` as its timestamps.
    ///
    /// Returns the plaintext edit password and the stored paste.
    pub fn create_paste_with(
        &mut self,
        props: PasteCreate,
        id: String,
        generated_url: String,
        generated_password: String,
        now: u128,
    ) -> (r: Result<(String, Paste), PasteError>)
        requires
            old(self).wf(),
        ensures
            final(self).wf(),
            final(self)@ == after_create(
                old(self)@,
                props.url@,
                props.content@,
                props.password@,
                id@,
                generated_url@,
                generated_password@,
                now,
            ),
            match r {
                Ok((pw, p)) => create_spec(
                    old(self)@,
                    props.url@,
                    props.content@,
                    props.password@,
                    id@,
                    generated_url@,
                    generated_password@,
                    now,
                ) == Ok::<(Seq<char>, PasteModel), PasteError>((pw@, p@)),
                Err(e) => create_spec(
                    old(self)@,
                    props.url@,
                    props.content@,
                    props.password@,
                    id@,
                    generated_url@,
                    generated_password@,
                    now,
                ) == Err::<(Seq<char>, PasteModel), PasteError>(e),
            },
    {
        let requested = match normalize(props.url.as_str()) {
            Some(k) => k,
            None => return Err(PasteError::ValueError),
        };
        if self.pastes.contains_key(requested.as_str()) {
            return Err(PasteError::AlreadyExists);
        }
        let url = if requested.as_str().is_empty() {
            shorten_generated(generated_url.as_str())
        } else {
            requested
        };
        let password = if props.password.as_str().is_empty() {
            shorten_generated(generated_password.as_str())
        } else {
            props.password
        };
        match validate_slug(url.as_str()) {
            Ok(()) => {},
            Err(e) => return Err(e),
        }
        match validate_content(props.content.as_str()) {
            Ok(()) => {},
            Err(e) => return Err(e),
        }
        if self.pastes.contains_key(url.as_str()) {
            return Err(PasteError::Other);
        }
        proof {
            self.lemma_id_index(id@);
        }
        if self.ids.contains_key(id.as_str()) {
            return Err(PasteError::Other);
        }
        let paste = Paste {
            id,
            url,
            content: props.content,
            password: hash(password.as_str()),
            date_published: now,
            date_edited: now,
            metadata: PasteMetadata::empty(),
        };
        let ghost before = self@;
        self.pastes.insert(paste.url.clone(), paste.duplicate());
        self.ids.insert(paste.id.clone(), paste.url.clone());
        assert(self@.pastes =~= before.pastes.insert(paste@.url, paste@));
        Ok((password, paste))
    }

    /// Create a new paste
    ///
    /// Returns the plaintext edit password (generated where none was given)
    /// and the stored paste.
    pub fn create_paste(&mut self, props: PasteCreate) -> (r: Result<(String, Paste), PasteError>)
        requires
            old(self).wf(),
        ensures
            final(self).wf(),
            exists|id: Seq<char>, gu: Seq<char>, gp: Seq<char>, now: u128|
                {
                    &&& is_random_id(id)
                    &&& is_random_id(gu)
                    &&& is_random_id(gp)
                    &&& final(self)@ == after_create(
                        old(self)@,
                        props.url@,
                        props.content@,
                        props.password@,
                        id,
                        gu,
                        gp,
                        now,
                    )
                    &&& match r {
                        Ok((pw, p)) => create_spec(
                            old(self)@,
                            props.url@,
                            props.content@,
                            props.password@,
                            id,
                            gu,
                            gp,
                            now,
                        ) == Ok::<(Seq<char>, PasteModel), PasteError>((pw@, p@)),
                        Err(e) => create_spec(
                            old(self)@,
                            props.url@,
                            props.content@,
                            props.password@,
                            id,
                            gu,
                            gp,
                            now,
                        ) == Err::<(Seq<char>, PasteModel), PasteError>(e),
                    }
                    // a valid new slug and valid content succeed unless the
                    // drawn id is taken, and a missing password is replaced
                    // by ten generated hexadecimal digits
                    &&& fresh_valid_request(old(self)@, props.url@, props.content@) && !id_taken(
                        old(self)@,
                        id,
                    ) ==> (r matches Ok((pw, p)) && p@.url == normalize_spec(props.url@)->0
                        && p@.content == props.content@ && pw@.len() > 0 && (props.password@.len()
                        == 0 ==> generated_secret(pw@)))
                },
    {
        let id = random_id();
        let gu = random_id();
        let gp = random_id();
        let now = unix_epoch_millis();
        self.create_paste_with(props, id, gu, gp, now)
    }

    /// Drops every view record of `key`.
    fn remove_view_records(&mut self, key: &String)
        requires
            old(self).wf(),
            old(self).options.view_mode == ViewMode::AuthenticatedOnce ==> !old(
                self,
            ).cached_views@.contains_key(key@),
        ensures
            final(self).wf(),
            final(self)@ == (DatabaseModel { viewers: records_without(old(self)@.viewers, key@), ..old(self)@ }),
            final(self).pastes == old(self).pastes,
            final(self).cached_pastes == old(self).cached_pastes,
            final(self).cached_views == old(self).cached_views,
    {
        let ghost all = self@.viewers;
        let mut kept: Vec<ViewRecord> = Vec::new();
        let mut i: usize = 0;
        while i < self.views.len()
            invariant
                i <= self.views@.len(),
                all == self@.viewers,
                kept@.map_values(|r: ViewRecord| (r.url@, r.username@)) == records_without(
                    all.take(i as int),
                    key@,
                ),
            decreases self.views@.len() - i,
        {
            let rec = &self.views[i];
            let ghost kept_before = kept@.map_values(|r: ViewRecord| (r.url@, r.username@));
            if rec.url != *key {
                kept.push(ViewRecord { url: rec.url.clone(), username: rec.username.clone() });
            }
            proof {
                reveal(Seq::filter);
                let t = all.take(i + 1);
                assert(t.drop_last() =~= all.take(i as int));
                assert(t.last() == all[i as int]);
                assert(all[i as int] == (rec.url@, rec.username@));
                assert(records_without(t, key@) == if t.last().0 != key@ {
                    records_without(all.take(i as int), key@).push(t.last())
                } else {
                    records_without(all.take(i as int), key@)
                });
                if rec.url@ != key@ {
                    assert(kept@.map_values(|r: ViewRecord| (r.url@, r.username@)) =~= kept_before.push(
                        (rec.url@, rec.username@),
                    ));
                } else {
                    assert(kept@.map_values(|r: ViewRecord| (r.url@, r.username@)) =~= kept_before);
                }
                assert(kept@.map_values(|r: ViewRecord| (r.url@, r.username@)) =~= records_without(
                    all.take(i + 1),
                    key@,
                ));
            }
            i = i + 1;
        }
        assert(all.take(i as int) =~= all);
        let ghost before = *self;
        self.views = kept;
        proof {
            assert(self@.viewers == records_without(all, key@));
            if self.options.view_mode == ViewMode::AuthenticatedOnce {
                assert forall|k: Seq<char>| #[trigger] self.cached_views@.contains_key(k) implies self.cached_views@[k] as nat
                    == viewer_count(self@.viewers, k) by {
                    lemma_count_without(all, key@, k);
                }
            }
            assert(self@ =~= (DatabaseModel { viewers: records_without(all, key@), ..before@ }));
        }
    }

    /// Delete an existing paste by `url`, given its edit password; its view
    /// counter and view records go with it.
    pub fn delete_paste_by_url(&mut self, url: String, password: String) -> (r: Result<(), PasteError>)
        requires
            old(self).wf(),
        ensures
            final(self).wf(),
            r == delete_spec(old(self)@, url@, password@),
            final(self)@ == after_delete(old(self)@, url@, password@),
    {
        let key = match normalize(url.as_str()) {
            Some(k) => k,
            None => return Err(PasteError::ValueError),
        };
        let existing = match self.fetch(&key) {
            Some(p) => p,
            None => return Err(PasteError::NotFound),
        };
        if !verify_password(password.as_str(), &existing.password) {
            return Err(PasteError::PasswordIncorrect);
        }
        let ghost before = self@;
        let ghost old_ids = self.ids@;
        let ghost old_pastes = self.pastes@;
        self.cached_views.remove(key.as_str());
        self.pastes.remove(key.as_str());
        self.ids.remove(existing.id.as_str());
        self.cached_pastes.remove(key.as_str());
        proof {
            assert forall|k: Seq<char>| #[trigger] self.pastes@.contains_key(k) implies self.ids@.contains_key(
                self.pastes@[k].id@,
            ) && self.ids@[self.pastes@[k].id@]@ == k by {
                assert(old_pastes.contains_key(k));
                assert(old_ids[old_pastes[k].id@]@ == k);
            }
            assert forall|i: Seq<char>| #[trigger] self.ids@.contains_key(i) implies self.pastes@.contains_key(
                self.ids@[i]@,
            ) && self.pastes@[self.ids@[i]@].id@ == i by {
                assert(old_ids.contains_key(i));
            }
        }
        assert(self.wf());
        self.remove_view_records(&key);
        assert(self@.pastes =~= before.pastes.remove(key@));
        assert(self@.open_views =~= before.open_views.remove(key@));
        Ok(())
    }

    /// Edit an existing paste by `url`, stamping `now` as its edit time.
    ///
    /// An empty `new_url` keeps the slug and an empty `new_password` keeps the
    /// edit password. The password is not checked where `editing_as` owns the
    /// paste or may manage pastes.
    pub fn edit_paste_by_url_at(
        &mut self,
        url: String,
        password: String,
        new_content: String,
        new_url: String,
        new_password: String,
        editing_as: Option<Identity>,
        now: u128,
    ) -> (r: Result<(), PasteError>)
        requires
            old(self).wf(),
        ensures
            final(self).wf(),
            final(self)@ == after_edit(
                old(self)@,
                url@,
                password@,
                new_content@,
                new_url@,
                new_password@,
                editing_as,
                now,
            ),
            match r {
                Ok(()) => edit_spec(
                    old(self)@,
                    url@,
                    password@,
                    new_content@,
                    new_url@,
                    new_password@,
                    editing_as,
                    now,
                ) is Ok,
                Err(e) => edit_spec(
                    old(self)@,
                    url@,
                    password@,
                    new_content@,
                    new_url@,
                    new_password@,
                    editing_as,
                    now,
                ) == Err::<PasteModel, PasteError>(e),
            },
    {
        let key = match normalize(url.as_str()) {
            Some(k) => k,
            None => return Err(PasteError::ValueError),
        };
        let existing = match self.fetch(&key) {
            Some(p) => p,
            None => return Err(PasteError::NotFound),
        };
        if !may_bypass_password(&existing.metadata.owner, &editing_as) {
            if !verify_password(password.as_str(), &existing.password) {
                return Err(PasteError::PasswordIncorrect);
            }
        }
        let target = if new_url.as_str().is_empty() {
            existing.url.clone()
        } else {
            match normalize(new_url.as_str()) {
                Some(t) => t,
                None => return Err(PasteError::ValueError),
            }
        };
        match validate_content(new_content.as_str()) {
            Ok(()) => {},
            Err(e) => return Err(e),
        }
        if !new_url.as_str().is_empty() {
            match validate_slug(target.as_str()) {
                Ok(()) => {},
                Err(e) => return Err(e),
            }
        }
        if !(target == existing.url) && self.pastes.contains_key(target.as_str()) {
            return Err(PasteError::AlreadyExists);
        }
        let password_hash = if new_password.as_str().is_empty() {
            existing.password.clone()
        } else {
            hash(new_password.as_str())
        };
        let updated = Paste {
            id: existing.id,
            url: target,
            content: new_content,
            password: password_hash,
            date_published: existing.date_published,
            date_edited: now,
            metadata: existing.metadata,
        };
        let ghost before = self@;
        let ghost q = updated@;
        let ghost old_ids = self.ids@;
        let ghost old_pastes = self.pastes@;
        self.pastes.remove(key.as_str());
        self.cached_pastes.remove(key.as_str());
        self.ids.insert(updated.id.clone(), updated.url.clone());
        self.pastes.insert(updated.url.clone(), updated);
        proof {
            assert(old_pastes.contains_key(key@) && old_pastes[key@].id@ == q.id);
            assert forall|k: Seq<char>| #[trigger] self.pastes@.contains_key(k) implies self.pastes@[k].url@
                == k && slug_ok(k) && self.ids@.contains_key(self.pastes@[k].id@)
                && self.ids@[self.pastes@[k].id@]@ == k by {
                if k != q.url {
                    assert(old_pastes.contains_key(k));
                    assert(old_ids[old_pastes[k].id@]@ == k);
                }
            }
            assert forall|i: Seq<char>| #[trigger] self.ids@.contains_key(i) implies self.pastes@.contains_key(
                self.ids@[i]@,
            ) && self.pastes@[self.ids@[i]@].id@ == i by {
                if i != q.id {
                    assert(old_ids.contains_key(i));
                    assert(old_ids[i]@ != key@);
                }
            }
        }
        assert(self@.pastes =~= before.pastes.remove(key@).insert(q.url, q));
        Ok(())
    }

    /// Edit an existing paste by `url`, stamping the current time as its edit
    /// time.
    pub fn edit_paste_by_url(
        &mut self,
        url: String,
        password: String,
        new_content: String,
        new_url: String,
        new_password: String,
        editing_as: Option<Identity>,
    ) -> (r: Result<(), PasteError>)
        requires
            old(self).wf(),
        ensures
            final(self).wf(),
            exists|now: u128|
                {
                    &&& final(self)@ == after_edit(
                        old(self)@,
                        url@,
                        password@,
                        new_content@,
                        new_url@,
                        new_password@,
                        editing_as,
                        now,
                    )
                    &&& match r {
                        Ok(()) => edit_spec(
                            old(self)@,
                            url@,
                            password@,
                            new_content@,
                            new_url@,
                            new_password@,
                            editing_as,
                            now,
                        ) is Ok,
                        Err(e) => edit_spec(
                            old(self)@,
                            url@,
                            password@,
                            new_content@,
                            new_url@,
                            new_password@,
                            editing_as,
                            now,
                        ) == Err::<PasteModel, PasteError>(e),
                    }
                },
            edit_succeeds(old(self)@, url@, password@, new_content@, new_url@, editing_as) ==> r is Ok,
    {
        let now = unix_epoch_millis();
        self.edit_paste_by_url_at(url, password, new_content, new_url, new_password, editing_as, now)
    }

    /// Edit an existing paste's metadata by `url`; authorized as edits are.
    pub fn edit_paste_metadata_by_url(
        &mut self,
        url: String,
        password: String,
        metadata: PasteMetadata,
        editing_as: Option<Identity>,
    ) -> (r: Result<(), PasteError>)
        requires
            old(self).wf(),
        ensures
            final(self).wf(),
            r == edit_metadata_spec(old(self)@, url@, password@, editing_as),
            final(self)@ == after_edit_metadata(old(self)@, url@, password@, metadata@, editing_as),
    {
        let key = match normalize(url.as_str()) {
            Some(k) => k,
            None => return Err(PasteError::ValueError),
        };
        let existing = match self.fetch(&key) {
            Some(p) => p,
            None => return Err(PasteError::NotFound),
        };
        if !may_bypass_password(&existing.metadata.owner, &editing_as) {
            if !verify_password(password.as_str(), &existing.password) {
                return Err(PasteError::PasswordIncorrect);
            }
        }
        let updated = Paste { metadata, ..existing };
        let ghost before = self@;
        let ghost q = updated@;
        self.cached_pastes.remove(key.as_str());
        self.pastes.insert(key.clone(), updated);
        assert(self@.pastes =~= before.pastes.insert(key@, q));
        Ok(())
    }

    /// How many view records name `key`.
    fn count_view_records(&self, key: &String) -> (r: u64)
        ensures
            r as nat == viewer_count(self@.viewers, key@),
    {
        let ghost all = self@.viewers;
        let mut n: usize = 0;
        let mut i: usize = 0;
        while i < self.views.len()
            invariant
                i <= self.views@.len(),
                all == self@.viewers,
                n as nat == viewer_count(all.take(i as int), key@),
                n <= i,
            decreases self.views@.len() - i,
        {
            proof {
                assert(all.take(i + 1) =~= all.take(i as int).push(all[i as int]));
                lemma_count_push(all.take(i as int), all[i as int], key@);
            }
            if self.views[i].url == *key {
                n = n + 1;
            }
            i = i + 1;
        }
        assert(all.take(i as int) =~= all);
        n as u64
    }

    /// Whether a record says that `username` has been counted for `url`.
    fn has_view_record(&self, url: &String, username: &String) -> (r: bool)
        ensures
            r == self@.viewers.contains((url@, username@)),
    {
        let mut i: usize = 0;
        while i < self.views.len()
            invariant
                i <= self.views@.len(),
                forall|j: int| 0 <= j < i ==> self@.viewers[j] != (url@, username@),
            decreases self.views@.len() - i,
        {
            if self.views[i].url == *url && self.views[i].username == *username {
                assert(self@.viewers[i as int] == (url@, username@));
                return true;
            }
            i = i + 1;
        }
        false
    }

    /// Check if a user has viewed a paste given the `url` and their `username`
    /// (always false outside authenticated-once mode, and where the slug
    /// does not normalize)
    pub fn user_has_viewed_paste(&self, url: String, username: String) -> (r: bool)
        ensures
            r == (self@.options.view_mode == ViewMode::AuthenticatedOnce && (normalize_spec(
                url@,
            ) matches Some(u) && self@.viewers.contains((u, username@)))),
    {
        if self.options.view_mode != ViewMode::AuthenticatedOnce {
            return false;
        }
        match normalize(url.as_str()) {
            Some(key) => self.has_view_record(&key, &username),
            None => false,
        }
    }

    /// Get an existing url's view count
    pub fn get_views_by_url(&mut self, url: String) -> (r: u64)
        requires
            old(self).wf(),
        ensures
            final(self).wf(),
            final(self)@ == old(self)@,
            r as nat == view_count_spec(old(self)@, url@),
    {
        let key = match normalize(url.as_str()) {
            Some(k) => k,
            None => return 0,
        };
        match self.cached_views.get(key.as_str()) {
            Some(c) => {
                return *c;
            },
            None => {},
        }
        if self.options.view_mode == ViewMode::AuthenticatedOnce {
            let n = self.count_view_records(&key);
            let ghost before = self@;
            self.cached_views.insert(key, n);
            assert(self@ =~= before);
            n
        } else {
            0
        }
    }

    /// Count a view of `url` by `as_user`: in authenticated-once mode only
    /// an identity that was not counted yet adds to the count, in
    /// open-multiple mode every view does.
    pub fn incr_views_by_url(&mut self, url: String, as_user: Option<Identity>) -> (r: Result<(), PasteError>)
        requires
            old(self).wf(),
        ensures
            final(self).wf(),
            r == incr_spec(old(self)@, url@, as_user),
            final(self)@ == after_incr(old(self)@, url@, as_user),
    {
        let key = match normalize(url.as_str()) {
            Some(k) => k,
            None => return Err(PasteError::ValueError),
        };
        let ghost before = self@;
        if self.options.view_mode == ViewMode::AuthenticatedOnce {
            let user = match as_user {
                Some(ua) => ua,
                // not an error: anonymous views are not counted in this mode
                None => return Ok(()),
            };
            if self.has_view_record(&key, &user.username) {
                return Ok(());
            }
            let count = match self.cached_views.get(key.as_str()) {
                Some(c) => *c,
                None => self.count_view_records(&key),
            };
            if count == u64::MAX {
                return Err(PasteError::Other);
            }
            let ghost rec = (key@, user.username@);
            self.views.push(ViewRecord { url: key.clone(), username: user.username });
            self.cached_views.insert(key, count + 1);
            proof {
                assert(self@.viewers =~= before.viewers.push(rec));
                assert forall|k: Seq<char>| #[trigger] self.cached_views@.contains_key(k) implies self.cached_views@[k] as nat
                    == viewer_count(self@.viewers, k) by {
                    lemma_count_push(before.viewers, rec, k);
                }
                assert(self@ =~= (DatabaseModel { viewers: before.viewers.push(rec), ..before }));
            }
            Ok(())
        } else {
            let count = match self.cached_views.get(key.as_str()) {
                Some(c) => *c,
                None => 0,
            };
            if count == u64::MAX {
                return Err(PasteError::Other);
            }
            self.cached_views.insert(key, count + 1);
            assert(self@.open_views =~= before.open_views.insert(
                normalize_spec(url@)->0,
                view_count_spec(before, url@) + 1,
            ));
            Ok(())
        }
    }

    /// Empties the cache, as an operator may do at any time.
    pub fn clear_cache(&mut self)
        requires
            old(self).wf(),
        ensures
            final(self).wf(),
            final(self)@ == after_clear_cache(old(self)@),
    {
        self.cached_pastes.clear();
        self.cached_views.clear();
        assert(self@.open_views =~= Map::<Seq<char>, nat>::empty());
    }

    /// Where the document (`id`, `namespace`) stands, if it is stored.
    fn find_document(&self, id: &String, namespace: &String) -> (r: Option<usize>)
        requires
            self.wf(),
        ensures
            match r {
                Some(i) => has_document(self@.documents, id@, namespace@) && i as int
                    == document_index(self@.documents, id@, namespace@),
                None => !has_document(self@.documents, id@, namespace@),
            },
    {
        let mut i: usize = 0;
        while i < self.documents.len()
            invariant
                self.wf(),
                i <= self.documents@.len(),
                forall|j: int|
                    0 <= j < i ==> !((#[trigger] self@.documents[j]).id == id@
                        && self@.documents[j].namespace == namespace@),
            decreases self.documents@.len() - i,
        {
            if self.documents[i].id == *id && self.documents[i].namespace == *namespace {
                proof {
                    let docs = self@.documents;
                    assert(docs[i as int].id == id@ && docs[i as int].namespace == namespace@);
                    assert(has_document(docs, id@, namespace@));
                    let c = document_index(docs, id@, namespace@);
                    assert(0 <= c < docs.len() && docs[c].id == id@ && docs[c].namespace == namespace@);
                    assert(same_document_key(docs[i as int], docs[c]));
                }
                return Some(i);
            }
            i = i + 1;
        }
        None
    }

    /// Pull an existing document by `id`
    pub fn pull(&self, id: String, namespace: String) -> (r: Result<Document, PasteError>)
        requires
            self.wf(),
        ensures
            match r {
                Ok(d) => pull_spec(self@, id@, namespace@) == Ok::<DocumentModel, PasteError>(d@),
                Err(e) => pull_spec(self@, id@, namespace@) == Err::<DocumentModel, PasteError>(e),
            },
    {
        if !self.options.document_store {
            return Err(PasteError::Other);
        }
        match self.find_document(&id, &namespace) {
            Some(i) => Ok(self.documents[i].duplicate()),
            None => Err(PasteError::NotFound),
        }
    }

    /// Create a new document under `id`, stamped with `now`.
    pub fn push_with(&mut self, props: DocumentCreate, id: String, now: u128) -> (r: Result<
        Document,
        PasteError,
    >)
        requires
            old(self).wf(),
        ensures
            final(self).wf(),
            final(self)@ == after_push(
                old(self)@,
                props.namespace@,
                props.content@,
                props.metadata@,
                id@,
                now,
            ),
            match r {
                Ok(d) => push_spec(
                    old(self)@,
                    props.namespace@,
                    props.content@,
                    props.metadata@,
                    id@,
                    now,
                ) == Ok::<DocumentModel, PasteError>(d@),
                Err(e) => push_spec(
                    old(self)@,
                    props.namespace@,
                    props.content@,
                    props.metadata@,
                    id@,
                    now,
                ) == Err::<DocumentModel, PasteError>(e),
            },
    {
        if !self.options.document_store {
            return Err(PasteError::Other);
        }
        if self.find_document(&id, &props.namespace).is_some() {
            return Err(PasteError::Other);
        }
        let doc = Document {
            id,
            namespace: props.namespace,
            content: props.content,
            timestamp: now,
            metadata: props.metadata,
        };
        let ghost before = self@;
        self.documents.push(doc.duplicate());
        proof {
            assert(self@.documents =~= before.documents.push(doc@));
            let docs = self@.documents;
            assert forall|i: int, j: int|
                0 <= i < docs.len() && 0 <= j < docs.len() && i != j implies !same_document_key(
                #[trigger] docs[i],
                #[trigger] docs[j],
            ) by {
                if i == docs.len() - 1 {
                    assert(before.documents[j] == docs[j]);
                } else if j == docs.len() - 1 {
                    assert(before.documents[i] == docs[i]);
                }
            }
        }
        Ok(doc)
    }

    /// Create a new document, under a random identifier and stamped with the
    /// current time. Making sure values are unique should be done before
    /// calling `push`.
    pub fn push(&mut self, props: DocumentCreate) -> (r: Result<Document, PasteError>)
        requires
            old(self).wf(),
        ensures
            final(self).wf(),
            exists|id: Seq<char>, now: u128|
                {
                    &&& is_random_id(id)
                    &&& final(self)@ == after_push(
                        old(self)@,
                        props.namespace@,
                        props.content@,
                        props.metadata@,
                        id,
                        now,
                    )
                    &&& match r {
                        Ok(d) => push_spec(
                            old(self)@,
                            props.namespace@,
                            props.content@,
                            props.metadata@,
                            id,
                            now,
                        ) == Ok::<DocumentModel, PasteError>(d@),
                        Err(e) => push_spec(
                            old(self)@,
                            props.namespace@,
                            props.content@,
                            props.metadata@,
                            id,
                            now,
                        ) == Err::<DocumentModel, PasteError>(e),
                    }
                },
    {
        let id = random_id();
        let now = unix_epoch_millis();
        self.push_with(props, id, now)
    }

    /// Delete an existing document by `id`. Permission checks should be done
    /// before calling `drop`.
    pub fn drop(&mut self, id: String, namespace: String) -> (r: Result<(), PasteError>)
        requires
            old(self).wf(),
        ensures
            final(self).wf(),
            r == document_gate(old(self)@, id@, namespace@),
            final(self)@ == after_drop(old(self)@, id@, namespace@),
    {
        if !self.options.document_store {
            return Err(PasteError::Other);
        }
        let i = match self.find_document(&id, &namespace) {
            Some(i) => i,
            None => return Err(PasteError::NotFound),
        };
        let ghost before = self@;
        let _ = self.documents.remove(i);
        proof {
            assert(self@.documents =~= before.documents.remove(i as int));
            let docs = self@.documents;
            assert forall|a: int, b: int|
                0 <= a < docs.len() && 0 <= b < docs.len() && a != b implies !same_document_key(
                #[trigger] docs[a],
                #[trigger] docs[b],
            ) by {
                let a0 = if a < i { a } else { a + 1 };
                let b0 = if b < i { b } else { b + 1 };
                assert(docs[a] == before.documents[a0]);
                assert(docs[b] == before.documents[b0]);
            }
        }
        Ok(())
    }

    /// Edit an existing document's content by `id`. Permission checks should
    /// be done before calling `update`.
    pub fn update(&mut self, id: String, namespace: String, new_content: String) -> (r: Result<
        (),
        PasteError,
    >)
        requires
            old(self).wf(),
        ensures
            final(self).wf(),
            r == document_gate(old(self)@, id@, namespace@),
            final(self)@ == after_update(old(self)@, id@, namespace@, new_content@),
    {
        if !self.options.document_store {
            return Err(PasteError::Other);
        }
        let i = match self.find_document(&id, &namespace) {
            Some(i) => i,
            None => return Err(PasteError::NotFound),
        };
        let ghost before = self@;
        let ghost old_doc = before.documents[i as int];
        self.documents[i].content = new_content;
        proof {
            assert(self@.documents =~= before.documents.update(
                i as int,
                DocumentModel { content: new_content@, ..old_doc },
            ));
            lemma_same_keys_unique(before.documents, self@.documents);
        }
        Ok(())
    }

    /// Edit an existing document's metadata by `id`. Permission checks should
    /// be done before calling `update_metadata`.
    pub fn update_metadata(&mut self, id: String, namespace: String, metadata: PasteMetadata) -> (r:
        Result<(), PasteError>)
        requires
            old(self).wf(),
        ensures
            final(self).wf(),
            r == document_gate(old(self)@, id@, namespace@),
            final(self)@ == after_update_metadata(old(self)@, id@, namespace@, metadata@),
    {
        if !self.options.document_store {
            return Err(PasteError::Other);
        }
        let i = match self.find_document(&id, &namespace) {
            Some(i) => i,
            None => return Err(PasteError::NotFound),
        };
        let ghost before = self@;
        let ghost old_doc = before.documents[i as int];
        let ghost md = metadata@;
        self.documents[i].metadata = metadata;
        proof {
            assert(self@.documents =~= before.documents.update(
                i as int,
                DocumentModel { metadata: md, ..old_doc },
            ));
            lemma_same_keys_unique(before.documents, self@.documents);
        }
        Ok(())
    }

    /// The options the engine was deployed with.
    pub fn options(&self) -> (r: ServerOptions)
        ensures
            r == self@.options,
    {
        self.options
    }
}

} // verus!
