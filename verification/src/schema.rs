//! Reading the members that a variant's schema asks for out of a document.

use crate::json::{elements, get_member, member, text};
use serde_json::Value;
use vstd::prelude::*;

verus! {

/// A member of a document that some variant's schema knows by name.
#[derive(Clone, Copy, Debug, PartialEq, Eq, Structural)]
pub enum Field {
    Version,
    Extensions,
    Id,
    Links,
    Href,
    Rel,
    Description,
    License,
    Properties,
    Assets,
}

impl Field {
    /// The key under which a document stores this member.
    pub open spec fn key(self) -> Seq<char> {
        match self {
            Field::Version => "stac_version"@,
            Field::Extensions => "stac_extensions"@,
            Field::Id => "id"@,
            Field::Links => "links"@,
            Field::Href => "href"@,
            Field::Rel => "rel"@,
            Field::Description => "description"@,
            Field::License => "license"@,
            Field::Properties => "properties"@,
            Field::Assets => "assets"@,
        }
    }

    /// Returns the key under which a document stores this member.
    pub fn as_str(&self) -> (key: &'static str)
        ensures
            key@ == self.key(),
    {
        match self {
            Field::Version => "stac_version",
            Field::Extensions => "stac_extensions",
            Field::Id => "id",
            Field::Links => "links",
            Field::Href => "href",
            Field::Rel => "rel",
            Field::Description => "description",
            Field::License => "license",
            Field::Properties => "properties",
            Field::Assets => "assets",
        }
    }
}

/// Why a document does not fit the schema of the variant that its
/// discriminator names.
#[derive(Clone, Copy, Debug, PartialEq, Eq, Structural)]
pub enum SchemaError {
    /// A required member is absent.
    MissingField(Field),
    /// A member is present but holds a value of the wrong type.
    InvalidField(Field),
}

/// The value of a member that must be present, whatever it holds.
pub open spec fn required_member(doc: Value, field: Field) -> Result<Value, SchemaError> {
    match member(doc, field.key()) {
        Some(found) => Ok(found),
        None => Err(SchemaError::MissingField(field)),
    }
}

/// The characters of a member that must be present and hold a string.
pub open spec fn required_text(doc: Value, field: Field) -> Result<Seq<char>, SchemaError> {
    match member(doc, field.key()) {
        Some(found) => match text(found) {
            Some(chars) => Ok(chars),
            None => Err(SchemaError::InvalidField(field)),
        },
        None => Err(SchemaError::MissingField(field)),
    }
}

/// Whether every one of `items` holds a string.
pub open spec fn all_text(items: Seq<Value>) -> bool {
    forall|i: int| 0 <= i < items.len() ==> text(#[trigger] items[i]) is Some
}

/// The characters of each of `items`, in order.
pub open spec fn texts_of(items: Seq<Value>) -> Seq<Seq<char>> {
    Seq::new(items.len(), |i: int| text(items[i]).unwrap())
}

/// The strings of a member that may be absent and otherwise must hold an
/// array of strings.
pub open spec fn optional_texts(doc: Value, field: Field) -> Result<
    Option<Seq<Seq<char>>>,
    SchemaError,
> {
    match member(doc, field.key()) {
        None => Ok(None),
        Some(found) => match elements(found) {
            Some(items) if all_text(items) => Ok(Some(texts_of(items))),
            _ => Err(SchemaError::InvalidField(field)),
        },
    }
}

/// Borrows the member stored under `field`, or reports it missing.
pub fn read_member<'a>(doc: &'a Value, field: Field) -> (found: Result<&'a Value, SchemaError>)
    ensures
        match found {
            Ok(value) => required_member(*doc, field) == Ok::<Value, SchemaError>(*value),
            Err(e) => required_member(*doc, field) == Err::<Value, SchemaError>(e),
        },
{
    match get_member(doc, field.as_str()) {
        Some(value) => Ok(value),
        None => Err(SchemaError::MissingField(field)),
    }
}

/// Copies the string stored under `field`, or reports the member missing or
/// not a string.
pub fn read_text(doc: &Value, field: Field) -> (found: Result<String, SchemaError>)
    ensures
        match found {
            Ok(s) => required_text(*doc, field) == Ok::<Seq<char>, SchemaError>(s@),
            Err(e) => required_text(*doc, field) == Err::<Seq<char>, SchemaError>(e),
        },
{
    match get_member(doc, field.as_str()) {
        Some(value) => match value.as_str() {
            Some(s) => Ok(s.to_owned()),
            None => Err(SchemaError::InvalidField(field)),
        },
        None => Err(SchemaError::MissingField(field)),
    }
}

/// Copies the strings of the array stored under `field`. An absent member
/// gives `None`; a member that is not an array of strings is an error.
pub fn read_texts(doc: &Value, field: Field) -> (found: Result<Option<Vec<String>>, SchemaError>)
    ensures
        match found {
            Ok(list) => optional_texts(*doc, field) == Ok::<Option<Seq<Seq<char>>>, SchemaError>(
                list.deep_view(),
            ),
            Err(e) => optional_texts(*doc, field) == Err::<Option<Seq<Seq<char>>>, SchemaError>(e),
        },
{
    match get_member(doc, field.as_str()) {
        None => Ok(None),
        Some(value) => match value.as_array() {
            None => Err(SchemaError::InvalidField(field)),
            Some(items) => {
                let mut list: Vec<String> = Vec::new();
                let mut i: usize = 0;
                while i < items.len()
                    invariant
                        i <= items.len(),
                        list.len() == i,
                        member(*doc, field.key()) == Some(*value),
                        elements(*value) == Some(items@),
                        forall|j: int| 0 <= j < i ==> text(#[trigger] items@[j]) == Some(list@[j]@),
                    decreases items.len() - i,
                {
                    match items[i].as_str() {
                        Some(s) => list.push(s.to_owned()),
                        None => {
                            assert(text(items@[i as int]) is None);
                            return Err(SchemaError::InvalidField(field));
                        },
                    }
                    i += 1;
                }
                assert(list.deep_view() =~= texts_of(items@));
                Ok(Some(list))
            },
        },
    }
}

} // verus!
