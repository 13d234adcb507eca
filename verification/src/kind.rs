//! The closed set of object kinds and the discriminator strings that name them.

use crate::error::{Error, ErrorView};
use crate::json::{get_member, member, same_text, text};
use serde_json::Value;
use vstd::prelude::*;

verus! {

/// The key of the discriminator member in a document.
pub const TYPE_FIELD: &'static str = "type";

/// The discriminator of an item.
pub const ITEM_TYPE: &'static str = "Item";

/// The discriminator of a catalog.
pub const CATALOG_TYPE: &'static str = "Catalog";

/// The discriminator of a collection.
pub const COLLECTION_TYPE: &'static str = "Collection";

/// Which of the three object variants a document declares itself to be.
#[derive(Clone, Copy, Debug, PartialEq, Eq, Structural)]
pub enum Kind {
    Item,
    Catalog,
    Collection,
}

impl Kind {
    /// The discriminator string of this kind.
    pub open spec fn name(self) -> Seq<char> {
        match self {
            Kind::Item => ITEM_TYPE@,
            Kind::Catalog => CATALOG_TYPE@,
            Kind::Collection => COLLECTION_TYPE@,
        }
    }

    /// The kind that a discriminator string names, if it names one. The
    /// comparison is exact: case matters and nothing is trimmed.
    pub open spec fn named(name: Seq<char>) -> Option<Kind> {
        if name == ITEM_TYPE@ {
            Some(Kind::Item)
        } else if name == CATALOG_TYPE@ {
            Some(Kind::Catalog)
        } else if name == COLLECTION_TYPE@ {
            Some(Kind::Collection)
        } else {
            None
        }
    }

    /// Returns the discriminator string of this kind.
    pub fn as_str(&self) -> (name: &'static str)
        ensures
            name@ == self.name(),
    {
        match self {
            Kind::Item => ITEM_TYPE,
            Kind::Catalog => CATALOG_TYPE,
            Kind::Collection => COLLECTION_TYPE,
        }
    }

    /// The kind that a document declares in its `type` member, or why it
    /// declares none: the member is absent, it is not a string (the error
    /// holds what was found), or it is a string that names no kind (the error
    /// holds the string).
    pub open spec fn declared(doc: Value) -> Result<Kind, ErrorView> {
        match member(doc, TYPE_FIELD@) {
            None => Err(ErrorView::MissingType),
            Some(found) => match text(found) {
                None => Err(ErrorView::InvalidTypeField(found)),
                Some(name) => match Kind::named(name) {
                    None => Err(ErrorView::InvalidTypeValue(name)),
                    Some(kind) => Ok(kind),
                },
            },
        }
    }

    /// Returns the kind that `name` names, or `None` if it is not one of the
    /// three discriminators.
    pub fn from_name(name: &str) -> (kind: Option<Kind>)
        ensures
            kind == Kind::named(name@),
    {
        if same_text(name, ITEM_TYPE) {
            Some(Kind::Item)
        } else if same_text(name, CATALOG_TYPE) {
            Some(Kind::Catalog)
        } else if same_text(name, COLLECTION_TYPE) {
            Some(Kind::Collection)
        } else {
            None
        }
    }

    /// Reads the kind that `doc` declares in its `type` member. Nothing but
    /// that member is looked at.
    pub fn from_value(doc: &Value) -> (resolved: Result<Kind, Error>)
        ensures
            match resolved {
                Ok(kind) => Kind::declared(*doc) == Ok::<Kind, ErrorView>(kind),
                Err(e) => Kind::declared(*doc) == Err::<Kind, ErrorView>(e@),
            },
    {
        if let Some(type_) = get_member(doc, TYPE_FIELD) {
            if let Some(name) = type_.as_str() {
                match Kind::from_name(name) {
                    Some(kind) => Ok(kind),
                    None => Err(Error::InvalidTypeValue(name.to_string())),
                }
            } else {
                Err(Error::InvalidTypeField(type_.clone()))
            }
        } else {
            Err(Error::MissingType)
        }
    }
}

/// The three discriminators are pairwise different, so every kind is the one
/// that its own discriminator names.
pub proof fn lemma_name_round_trip(kind: Kind)
    ensures
        Kind::named(kind.name()) == Some(kind),
{
    reveal_strlit("Item");
    reveal_strlit("Catalog");
    reveal_strlit("Collection");
    // The three differ already in length.
    assert(ITEM_TYPE@.len() == 4);
    assert(CATALOG_TYPE@.len() == 7);
    assert(COLLECTION_TYPE@.len() == 10);
}

/// A string names a kind only if it is that kind's discriminator.
pub proof fn lemma_named_is_exact(name: Seq<char>, kind: Kind)
    ensures
        Kind::named(name) == Some(kind) <==> name == kind.name(),
{
    lemma_name_round_trip(kind);
}

} // verus!
