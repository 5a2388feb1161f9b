//! Laws of the paste engine, stated over the transition functions that the
//! operations' contracts use.
use vstd::prelude::*;
use crate::auth::Identity;
use crate::credentials::hash_of;
use crate::database::ViewMode;
use crate::state::{
    after_create, after_delete, after_edit, after_incr, create_spec, delete_spec, edit_spec,
    edit_succeeds,
    lookup_spec, view_count_spec, viewer_count, DatabaseModel,
};
use crate::model::{PasteError, PasteModel};
use crate::normalize::normalize_spec;
use crate::validate::{byte_len, content_ok, slug_ok, CONTENT_MAX_BYTES};

verus! {

/// Creating a paste under a slug whose key is already stored fails with
/// `AlreadyExists`.
pub proof fn lemma_create_existing_slug(
    m: DatabaseModel,
    url: Seq<char>,
    content: Seq<char>,
    password: Seq<char>,
    id: Seq<char>,
    generated_url: Seq<char>,
    generated_password: Seq<char>,
    now: u128,
)
    requires
        normalize_spec(url) matches Some(u) && m.pastes.contains_key(u),
    ensures
        create_spec(m, url, content, password, id, generated_url, generated_password, now)
            == Err::<(Seq<char>, PasteModel), PasteError>(PasteError::AlreadyExists),
{
}

/// Creating a paste with empty content, or with one byte more than allowed,
/// fails with `ValueError` (where the slug's key is not taken already).
pub proof fn lemma_create_bad_content_length(
    m: DatabaseModel,
    url: Seq<char>,
    content: Seq<char>,
    password: Seq<char>,
    id: Seq<char>,
    generated_url: Seq<char>,
    generated_password: Seq<char>,
    now: u128,
)
    requires
        normalize_spec(url) matches Some(u) && !m.pastes.contains_key(u),
        byte_len(content) == 0 || byte_len(content) == CONTENT_MAX_BYTES + 1,
    ensures
        create_spec(m, url, content, password, id, generated_url, generated_password, now)
            == Err::<(Seq<char>, PasteModel), PasteError>(PasteError::ValueError),
{
}

/// After a paste was created and then deleted with the password that
/// creating it returned, reading its slug gives `NotFound`.
pub proof fn lemma_create_then_delete(
    m: DatabaseModel,
    url: Seq<char>,
    content: Seq<char>,
    password: Seq<char>,
    id: Seq<char>,
    generated_url: Seq<char>,
    generated_password: Seq<char>,
    now: u128,
)
    requires
        m.valid(),
        create_spec(m, url, content, password, id, generated_url, generated_password, now) is Ok,
    ensures
        ({
            let created = after_create(
                m,
                url,
                content,
                password,
                id,
                generated_url,
                generated_password,
                now,
            );
            let pw = create_spec(
                m,
                url,
                content,
                password,
                id,
                generated_url,
                generated_password,
                now,
            )->Ok_0.0;
            lookup_spec(after_delete(created, url, pw), url) == Err::<PasteModel, PasteError>(
                PasteError::NotFound,
            )
        }),
{
}

/// After a paste was created under a slug with a non-empty key and then
/// edited with its password, new valid content and a later time (keeping
/// slug and password), reading the slug gives the new content and an edit
/// time after the publication time.
pub proof fn lemma_create_then_edit(
    m: DatabaseModel,
    url: Seq<char>,
    content: Seq<char>,
    password: Seq<char>,
    id: Seq<char>,
    generated_url: Seq<char>,
    generated_password: Seq<char>,
    now: u128,
    new_content: Seq<char>,
    later: u128,
)
    requires
        m.valid(),
        normalize_spec(url) matches Some(u) && u.len() > 0,
        create_spec(m, url, content, password, id, generated_url, generated_password, now) is Ok,
        content_ok(new_content),
        later > now,
    ensures
        ({
            let created = after_create(
                m,
                url,
                content,
                password,
                id,
                generated_url,
                generated_password,
                now,
            );
            let pw = create_spec(
                m,
                url,
                content,
                password,
                id,
                generated_url,
                generated_password,
                now,
            )->Ok_0.0;
            let edited = after_edit(
                created,
                url,
                pw,
                new_content,
                Seq::empty(),
                Seq::empty(),
                None,
                later,
            );
            &&& lookup_spec(edited, url) is Ok
            &&& lookup_spec(edited, url)->Ok_0.content == new_content
            &&& lookup_spec(edited, url)->Ok_0.date_edited > lookup_spec(
                edited,
                url,
            )->Ok_0.date_published
        }),
{
}

/// Deleting with a password whose hash is not the stored one fails with
/// `PasswordIncorrect`, and the paste can still be read.
pub proof fn lemma_delete_wrong_password(m: DatabaseModel, url: Seq<char>, wrong: Seq<char>)
    requires
        lookup_spec(m, url) is Ok,
        hash_of(wrong) != lookup_spec(m, url)->Ok_0.password,
    ensures
        delete_spec(m, url, wrong) == Err::<(), PasteError>(PasteError::PasswordIncorrect),
        lookup_spec(after_delete(m, url, wrong), url) == lookup_spec(m, url),
{
}

/// The state after `n` anonymous views of `raw`.
pub open spec fn after_views(m: DatabaseModel, raw: Seq<char>, n: nat) -> DatabaseModel
    decreases n,
{
    if n == 0 {
        m
    } else {
        after_incr(after_views(m, raw, (n - 1) as nat), raw, None)
    }
}

/// In open-multiple mode, `n` views of a slug add `n` to its count.
pub proof fn lemma_open_multiple_counts_every_view(m: DatabaseModel, raw: Seq<char>, n: nat)
    requires
        m.options.view_mode == ViewMode::OpenMultiple,
        normalize_spec(raw) is Some,
        view_count_spec(m, raw) + n <= u64::MAX,
    ensures
        view_count_spec(after_views(m, raw, n), raw) == view_count_spec(m, raw) + n,
        after_views(m, raw, n).options == m.options,
    decreases n,
{
    if n > 0 {
        lemma_open_multiple_counts_every_view(m, raw, (n - 1) as nat);
    }
}

/// No record names a slug whose count is zero.
proof fn lemma_zero_count_has_no_record(
    viewers: Seq<(Seq<char>, Seq<char>)>,
    url: Seq<char>,
    name: Seq<char>,
)
    requires
        viewer_count(viewers, url) == 0,
    ensures
        !viewers.contains((url, name)),
    decreases viewers.len(),
{
    reveal(Seq::filter);
    if viewers.len() > 0 {
        let rest = viewers.drop_last();
        lemma_zero_count_has_no_record(rest, url, name);
        assert(viewers =~= rest.push(viewers.last()));
        if viewers.contains((url, name)) {
            let i = choose|i: int| 0 <= i < viewers.len() && viewers[i] == (url, name);
            if i < viewers.len() - 1 {
                assert(rest[i] == (url, name));
            }
        }
    }
}

/// In authenticated-once mode, two views of a slug that nobody viewed yet
/// by one identity count once.
pub proof fn lemma_authenticated_once_same_viewer(m: DatabaseModel, raw: Seq<char>, viewer: Identity)
    requires
        m.options.view_mode == ViewMode::AuthenticatedOnce,
        normalize_spec(raw) is Some,
        view_count_spec(m, raw) == 0,
    ensures
        view_count_spec(
            after_incr(after_incr(m, raw, Some(viewer)), raw, Some(viewer)),
            raw,
        ) == 1,
{
    let u = normalize_spec(raw)->0;
    let x = (u, viewer.username@);
    lemma_zero_count_has_no_record(m.viewers, u, viewer.username@);
    let v1 = m.viewers.push(x);
    reveal(Seq::filter);
    assert(v1.drop_last() =~= m.viewers);
    assert(v1.contains(x)) by {
        assert(v1[v1.len() - 1] == x);
    }
}

/// In authenticated-once mode, views of a slug that nobody viewed yet by two
/// identities with distinct usernames count twice.
pub proof fn lemma_authenticated_once_two_viewers(
    m: DatabaseModel,
    raw: Seq<char>,
    first: Identity,
    second: Identity,
)
    requires
        m.options.view_mode == ViewMode::AuthenticatedOnce,
        normalize_spec(raw) is Some,
        view_count_spec(m, raw) == 0,
        first.username@ != second.username@,
    ensures
        view_count_spec(after_incr(after_incr(m, raw, Some(first)), raw, Some(second)), raw)
            == 2,
{
    let u = normalize_spec(raw)->0;
    let x = (u, first.username@);
    let y = (u, second.username@);
    lemma_zero_count_has_no_record(m.viewers, u, first.username@);
    lemma_zero_count_has_no_record(m.viewers, u, second.username@);
    let v1 = m.viewers.push(x);
    let v2 = v1.push(y);
    reveal(Seq::filter);
    assert(v1.drop_last() =~= m.viewers);
    assert(v2.drop_last() =~= v1);
    assert(!v1.contains(y)) by {
        if v1.contains(y) {
            let i = choose|i: int| 0 <= i < v1.len() && v1[i] == y;
            if i < v1.len() - 1 {
                assert(m.viewers[i] == y);
            }
        }
    }
}

/// An edit by the paste's owner succeeds whatever password it gives, with
/// valid new content and, where it asks for a new slug, a valid slug that no
/// other paste holds.
pub proof fn lemma_owner_edits_without_password(
    m: DatabaseModel,
    url: Seq<char>,
    password: Seq<char>,
    new_content: Seq<char>,
    new_url: Seq<char>,
    new_password: Seq<char>,
    requester: Identity,
    now: u128,
)
    requires
        lookup_spec(m, url) is Ok,
        requester.username@ == lookup_spec(m, url)->Ok_0.metadata.owner,
        content_ok(new_content),
        new_url.len() > 0 ==> (normalize_spec(new_url) matches Some(t) && slug_ok(t) && (t
            == lookup_spec(m, url)->Ok_0.url || !m.pastes.contains_key(t))),
    ensures
        edit_succeeds(m, url, password, new_content, new_url, Some(requester)),
        edit_spec(m, url, password, new_content, new_url, new_password, Some(requester), now) is Ok,
{
}

} // verus!
