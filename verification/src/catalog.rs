//! Catalogs: objects that group other objects under a description.

use crate::common::{common_keys, core_of, CoreStruct, CoreView};
use crate::json::{members, remove_member};
use crate::schema::{read_text, required_text, Field, SchemaError};
use serde_json::Value;
use vstd::prelude::*;

verus! {

/// A catalog.
#[derive(Debug, PartialEq)]
pub struct Catalog {
    /// The fields that a catalog shares with the other variants.
    pub core: CoreStruct,
    /// What the catalog holds, in words.
    pub description: String,
}

/// The mathematical value of a [`Catalog`].
pub struct CatalogView {
    pub core: CoreView,
    pub description: Seq<char>,
}

impl View for Catalog {
    type V = CatalogView;

    open spec fn view(&self) -> CatalogView {
        CatalogView { core: self.core@, description: self.description@ }
    }
}

/// The keys that the schema of a catalog names.
pub open spec fn catalog_keys() -> Set<Seq<char>> {
    common_keys().insert(Field::Description.key())
}

/// The catalog that a document describes: the common fields, then a
/// `description`, which must be a string. The additional fields are the
/// members that the schema of a catalog does not name.
pub open spec fn catalog_of(doc: Value) -> Result<CatalogView, SchemaError> {
    match core_of(doc) {
        Err(e) => Err(e),
        Ok(core) => match required_text(doc, Field::Description) {
            Err(e) => Err(e),
            Ok(description) => Ok(
                CatalogView {
                    core: CoreView {
                        additional_fields: members(doc).remove_keys(catalog_keys()),
                        ..core
                    },
                    description,
                },
            ),
        },
    }
}

impl Catalog {
    /// Decodes the catalog that `doc` describes. The members of `doc` that
    /// the schema does not name become the additional fields.
    pub fn from_value(doc: &Value) -> (decoded: Result<Catalog, SchemaError>)
        ensures
            match decoded {
                Ok(catalog) => catalog_of(*doc) == Ok::<CatalogView, SchemaError>(catalog@),
                Err(e) => catalog_of(*doc) == Err::<CatalogView, SchemaError>(e),
            },
    {
        let mut core = CoreStruct::from_value(doc)?;
        let description = read_text(doc, Field::Description)?;
        remove_member(&mut core.additional_fields, Field::Description.as_str());
        assert(members(core.additional_fields) =~= members(*doc).remove_keys(catalog_keys()));
        Ok(Catalog { core, description })
    }
}

impl AsRef<CoreStruct> for Catalog {
    /// Borrows the common fields of this catalog.
    fn as_ref(&self) -> (core: &CoreStruct)
        ensures
            *core == self.core,
    {
        &self.core
    }
}

impl AsMut<CoreStruct> for Catalog {
    /// Borrows the common fields of this catalog for writing. Whatever the
    /// caller writes replaces the common fields and nothing else.
    fn as_mut(&mut self) -> (core: &mut CoreStruct)
        ensures
            *core == old(self).core,
            *final(self) == (Catalog { core: *final(core), ..*old(self) }),
    {
        &mut self.core
    }
}

} // verus!
