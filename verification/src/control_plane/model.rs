//! The messages of the control plane: shortcuts, aliases, references to shortcuts, and
//! the requests and responses of each operation.
use vstd::prelude::*;

use crate::data_plane::pagination::{PaginationContinuation, PaginationRequest};

verus! {

/// An alias of a shortcut, with its UID once it is committed.
#[derive(Debug, Clone, PartialEq, Eq)]
pub struct Alias {
    pub uid: Option<String>,
    pub name: String,
}

/// A committed shortcut.
#[derive(Debug, Clone, PartialEq, Eq)]
pub struct Shortcut {
    pub uid: String,
    pub url: String,
    pub num_params: i32,
    pub is_fallback: bool,
    pub is_default_fallback: bool,
    pub description: String,
    pub aliases: Vec<Alias>,
}

/// How a shortcut is referred to: by its UID or by one of its aliases.
#[derive(Debug, Clone, PartialEq, Eq)]
pub enum Reference {
    Uid(String),
    Alias(String),
}

/// A reference to a shortcut, which may be left unset.
#[derive(Debug, Clone, PartialEq, Eq)]
pub struct ShortcutReference {
    pub reference: Option<Reference>,
}

/// The shortcut to create.
#[derive(Debug, Clone, PartialEq, Eq)]
pub struct CreateShortcutRequestShortcut {
    pub url: String,
    pub is_fallback: Option<bool>,
    pub description: String,
    pub aliases: Vec<Alias>,
}

/// The new values of a shortcut; each one left unset keeps its value.
#[derive(Debug, Clone, PartialEq, Eq)]
pub struct UpdateShortcutRequestShortcut {
    pub url: Option<String>,
    pub is_fallback: Option<bool>,
    pub description: Option<String>,
}

#[derive(Debug, Clone, PartialEq, Eq)]
pub struct AddAliasesForShortcutRequest {
    pub shortcut_ref: Option<ShortcutReference>,
    pub aliases: Vec<Alias>,
}

#[derive(Debug, Clone, PartialEq, Eq)]
pub struct AddAliasesForShortcutResponse {
    pub aliases: Vec<Alias>,
}

#[derive(Debug, Clone, PartialEq, Eq)]
pub struct CreateShortcutRequest {
    pub shortcut: Option<CreateShortcutRequestShortcut>,
}

#[derive(Debug, Clone, PartialEq, Eq)]
pub struct CreateShortcutResponse {
    pub shortcut: Option<Shortcut>,
}

#[derive(Debug, Clone, PartialEq, Eq)]
pub struct DeleteAliasForShortcutRequest {
    pub alias: String,
}

#[derive(Debug, Clone, PartialEq, Eq)]
pub struct DeleteShortcutRequest {
    pub shortcut_ref: Option<ShortcutReference>,
}

#[derive(Debug, Clone, PartialEq, Eq)]
pub struct GetDefaultFallbackShortcutResponse {
    pub shortcut: Option<Shortcut>,
}

#[derive(Debug, Clone, PartialEq, Eq)]
pub struct GetShortcutRequest {
    pub shortcut_ref: Option<ShortcutReference>,
}

#[derive(Debug, Clone, PartialEq, Eq)]
pub struct GetShortcutResponse {
    pub shortcut: Option<Shortcut>,
}

#[derive(Debug, Clone, PartialEq, Eq)]
pub struct ListShortcutsRequest {
    pub pagination: Option<PaginationRequest>,
}

#[derive(Debug, Clone, PartialEq, Eq)]
pub struct ListShortcutsResponse {
    pub shortcuts: Vec<Shortcut>,
    pub pagination_continuation: Option<PaginationContinuation>,
}

#[derive(Debug, Clone, PartialEq, Eq)]
pub struct SetDefaultFallbackShortcutRequest {
    pub shortcut_ref: Option<ShortcutReference>,
}

#[derive(Debug, Clone, PartialEq, Eq)]
pub struct UpdateShortcutRequest {
    pub shortcut_ref: Option<ShortcutReference>,
    pub shortcut: Option<UpdateShortcutRequestShortcut>,
}

#[derive(Debug, Clone, PartialEq, Eq)]
pub struct UpdateShortcutResponse {
    pub shortcut: Option<Shortcut>,
}

/// The text a reference holds: the UID or the alias.
pub open spec fn reference_text(reference: Reference) -> Seq<char> {
    match reference {
        Reference::Uid(uid) => uid@,
        Reference::Alias(alias) => alias@,
    }
}

/// Access to the value of a shortcut reference.
pub trait ShortcutReferenceAccessExt {
    /// Get a ref to the shortcut reference value if provided.
    fn get_ref(&self) -> Option<&str>;

    /// Get a ref to the shortcut reference if provided, else the error that `err` makes.
    fn ok_or_else<E, F>(&self, err: F) -> Result<&Reference, E> where F: FnOnce() -> E
        requires
            call_requires(err, ()),
    ;
}

impl ShortcutReferenceAccessExt for ShortcutReference {
    fn get_ref(&self) -> (value: Option<&str>)
        ensures
            match self.reference {
                None => value is None,
                Some(reference) => value matches Some(v) && v@ == reference_text(reference),
            },
    {
        match self.reference.as_ref() {
            None => None,
            Some(reference) => match reference {
                Reference::Uid(uid) => Some(uid.as_str()),
                Reference::Alias(alias) => Some(alias.as_str()),
            },
        }
    }

    fn ok_or_else<E, F>(&self, err: F) -> (reference: Result<&Reference, E>) where F: FnOnce() -> E
        ensures
            match self.reference {
                None => reference matches Err(e) && call_ensures(err, (), e),
                Some(r) => reference == Ok::<&Reference, E>(&r),
            },
    {
        match self.reference.as_ref() {
            None => Err(err()),
            Some(reference) => Ok(reference),
        }
    }
}

} // verus!
