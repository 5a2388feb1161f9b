//! Authorization resolver: whether a mutating request may skip the edit
//! password.
use vstd::prelude::*;
use crate::model::PasteMetadata;

verus! {

/// The identity of an authenticated requester.
#[derive(Clone, Debug)]
pub struct Identity {
    pub username: String,
    pub permissions: Vec<String>,
}

/// The capability that lets its holder manage every paste.
pub const MANAGE_PASTES: &'static str = "ManagePastes";

/// Whether `id` holds the permission named `perm`.
pub open spec fn holds_permission(id: Identity, perm: Seq<char>) -> bool {
    exists|i: int| 0 <= i < id.permissions@.len() && (#[trigger] id.permissions@[i])@ == perm
}

/// Whether the requester may act on a paste owned by `owner` without its
/// password: it is the owner, or it may manage pastes.
pub open spec fn bypass_spec(owner: Seq<char>, requester: Option<Identity>) -> bool {
    match requester {
        Some(id) => id.username@ == owner || holds_permission(id, MANAGE_PASTES@),
        None => false,
    }
}

/// Whether `id` holds the permission named `perm`.
pub fn has_permission(id: &Identity, perm: &str) -> (r: bool)
    ensures
        r == holds_permission(*id, perm@),
{
    let wanted = String::from_str(perm);
    let mut i: usize = 0;
    while i < id.permissions.len()
        invariant
            i <= id.permissions@.len(),
            wanted@ == perm@,
            forall|j: int| 0 <= j < i ==> (#[trigger] id.permissions@[j])@ != perm@,
        decreases id.permissions@.len() - i,
    {
        if id.permissions[i] == wanted {
            return true;
        }
        i = i + 1;
    }
    false
}

/// Whether a request by `requester` may skip the password check on a paste
/// owned by `existing_owner`.
pub fn may_bypass_password(existing_owner: &String, requester: &Option<Identity>) -> (r: bool)
    ensures
        r == bypass_spec(existing_owner@, *requester),
{
    match requester {
        Some(id) => {
            if id.username == *existing_owner {
                true
            } else {
                has_permission(id, MANAGE_PASTES)
            }
        },
        None => false,
    }
}

/// The owner that a metadata edit records: the requester's username where
/// ownership is enabled and the requester is known, else nobody.
pub open spec fn stamped_owner(requester: Option<Identity>, paste_ownership: bool) -> Seq<char> {
    match requester {
        Some(id) => if paste_ownership {
            id.username@
        } else {
            Seq::empty()
        },
        None => Seq::empty(),
    }
}

/// Sets the owner of metadata sent with an edit from the requester's
/// identity, so that clients cannot name an owner themselves.
pub fn stamp_owner(metadata: PasteMetadata, requester: &Option<Identity>, paste_ownership: bool) -> (r:
    PasteMetadata)
    ensures
        r.view_password@ == metadata.view_password@,
        r.owner@ == stamped_owner(*requester, paste_ownership),
{
    let owner = match requester {
        Some(id) => if paste_ownership {
            id.username.clone()
        } else {
            String::new()
        },
        None => String::new(),
    };
    PasteMetadata { owner, view_password: metadata.view_password }
}

} // verus!
