//! Records handled by the paste engine and the error kinds it reports.
use vstd::prelude::*;

verus! {

/// Extension record attached to every paste.
#[derive(Clone, Debug)]
pub struct PasteMetadata {
    /// Username of the paste's owner (empty when nobody owns it)
    pub owner: String,
    /// Password needed to view the paste (empty when none is set)
    pub view_password: String,
}

/// Abstract value of a [`PasteMetadata`].
pub struct MetadataModel {
    pub owner: Seq<char>,
    pub view_password: Seq<char>,
}

impl View for PasteMetadata {
    type V = MetadataModel;

    open spec fn view(&self) -> MetadataModel {
        MetadataModel { owner: self.owner@, view_password: self.view_password@ }
    }
}

impl PasteMetadata {
    /// Metadata of a fresh paste: no owner and no view password.
    pub fn empty() -> (r: PasteMetadata)
        ensures
            r@ == default_metadata(),
    {
        PasteMetadata { owner: String::new(), view_password: String::new() }
    }

    /// A field-by-field copy.
    pub fn duplicate(&self) -> (r: PasteMetadata)
        ensures
            r@ == self@,
    {
        PasteMetadata { owner: self.owner.clone(), view_password: self.view_password.clone() }
    }
}

impl Default for PasteMetadata {
    fn default() -> (r: PasteMetadata)
        ensures
            r@ == default_metadata(),
    {
        PasteMetadata::empty()
    }
}

/// Metadata with no owner and no view password.
pub open spec fn default_metadata() -> MetadataModel {
    MetadataModel { owner: Seq::empty(), view_password: Seq::empty() }
}

/// A stored paste.
#[derive(Clone, Debug)]
pub struct Paste {
    pub id: String,
    pub url: String,
    pub content: String,
    /// Hash of the edit password (the plaintext only in what `create` returns)
    pub password: String,
    pub date_published: u128,
    pub date_edited: u128,
    pub metadata: PasteMetadata,
}

/// Abstract value of a [`Paste`].
pub struct PasteModel {
    pub id: Seq<char>,
    pub url: Seq<char>,
    pub content: Seq<char>,
    pub password: Seq<char>,
    pub date_published: u128,
    pub date_edited: u128,
    pub metadata: MetadataModel,
}

impl View for Paste {
    type V = PasteModel;

    open spec fn view(&self) -> PasteModel {
        PasteModel {
            id: self.id@,
            url: self.url@,
            content: self.content@,
            password: self.password@,
            date_published: self.date_published,
            date_edited: self.date_edited,
            metadata: self.metadata@,
        }
    }
}

impl Paste {
    /// Whether reading the paste needs a view password, so that it is not
    /// served to anonymous readers.
    pub fn view_protected(&self) -> (r: bool)
        ensures
            r == (self.metadata.view_password@.len() > 0),
    {
        !self.metadata.view_password.as_str().is_empty()
    }

    /// A field-by-field copy.
    pub fn duplicate(&self) -> (r: Paste)
        ensures
            r@ == self@,
    {
        Paste {
            id: self.id.clone(),
            url: self.url.clone(),
            content: self.content.clone(),
            password: self.password.clone(),
            date_published: self.date_published,
            date_edited: self.date_edited,
            metadata: self.metadata.duplicate(),
        }
    }
}

/// Request to create a paste.
#[derive(Debug)]
pub struct PasteCreate {
    /// Requested slug; empty asks for a generated one
    pub url: String,
    pub content: String,
    /// Edit password; empty asks for a generated one
    pub password: String,
}

/// Request to delete a paste.
#[derive(Debug)]
pub struct PasteDelete {
    pub password: String,
}

/// Request to edit a paste.
#[derive(Debug)]
pub struct PasteEdit {
    pub password: String,
    pub new_content: String,
    /// Empty keeps the current edit password
    pub new_password: String,
    /// Empty keeps the current slug
    pub new_url: String,
}

/// Request to replace a paste's metadata.
#[derive(Debug)]
pub struct PasteEditMetadata {
    pub password: String,
    pub metadata: PasteMetadata,
}

/// A generic namespaced record.
#[derive(Clone, Debug)]
pub struct Document {
    pub id: String,
    pub namespace: String,
    pub content: String,
    pub timestamp: u128,
    pub metadata: PasteMetadata,
}

/// Abstract value of a [`Document`].
pub struct DocumentModel {
    pub id: Seq<char>,
    pub namespace: Seq<char>,
    pub content: Seq<char>,
    pub timestamp: u128,
    pub metadata: MetadataModel,
}

impl View for Document {
    type V = DocumentModel;

    open spec fn view(&self) -> DocumentModel {
        DocumentModel {
            id: self.id@,
            namespace: self.namespace@,
            content: self.content@,
            timestamp: self.timestamp,
            metadata: self.metadata@,
        }
    }
}

impl Document {
    /// A field-by-field copy.
    pub fn duplicate(&self) -> (r: Document)
        ensures
            r@ == self@,
    {
        Document {
            id: self.id.clone(),
            namespace: self.namespace.clone(),
            content: self.content.clone(),
            timestamp: self.timestamp,
            metadata: self.metadata.duplicate(),
        }
    }
}

/// Request to create a document.
#[derive(Debug)]
pub struct DocumentCreate {
    pub namespace: String,
    pub content: String,
    pub metadata: PasteMetadata,
}

/// General API errors
#[derive(Clone, Copy, Debug, PartialEq, Eq, Structural)]
pub enum PasteError {
    PasswordIncorrect,
    AlreadyExists,
    ValueError,
    NotFound,
    Other,
}

/// The message reported for each error kind.
pub open spec fn error_message(e: PasteError) -> Seq<char> {
    match e {
        PasteError::PasswordIncorrect => "The given password is invalid."@,
        PasteError::AlreadyExists => "A paste with this URL already exists."@,
        PasteError::ValueError => "One of the field values given is invalid."@,
        PasteError::NotFound => "No paste with this URL has been found."@,
        PasteError::Other => "An unspecified error has occured"@,
    }
}

impl PasteError {
    /// The message reported to clients for this error.
    pub fn to_string(&self) -> (r: String)
        ensures
            r@ == error_message(*self),
    {
        match self {
            PasteError::PasswordIncorrect => String::from_str("The given password is invalid."),
            PasteError::AlreadyExists => String::from_str("A paste with this URL already exists."),
            PasteError::ValueError => String::from_str("One of the field values given is invalid."),
            PasteError::NotFound => String::from_str("No paste with this URL has been found."),
            PasteError::Other => String::from_str("An unspecified error has occured"),
        }
    }

    /// The HTTP status code this error is reported with.
    pub fn status_code(&self) -> (r: u16)
        ensures
            r == match *self {
                PasteError::PasswordIncorrect => 401u16,
                PasteError::AlreadyExists => 400u16,
                PasteError::ValueError => 400u16,
                PasteError::NotFound => 404u16,
                PasteError::Other => 500u16,
            },
    {
        match self {
            PasteError::PasswordIncorrect => 401,
            PasteError::AlreadyExists => 400,
            PasteError::ValueError => 400,
            PasteError::NotFound => 404,
            PasteError::Other => 500,
        }
    }
}

} // verus!
