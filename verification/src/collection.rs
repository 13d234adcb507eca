//! Collections: catalogs of items that share a license.

use crate::common::{common_keys, core_of, CoreStruct, CoreView};
use crate::json::{members, remove_member};
use crate::schema::{read_text, required_text, Field, SchemaError};
use serde_json::Value;
use vstd::prelude::*;

verus! {

/// A collection.
#[derive(Debug, PartialEq)]
pub struct Collection {
    /// The fields that a collection shares with the other variants.
    pub core: CoreStruct,
    /// What the collection holds, in words.
    pub description: String,
    /// The license under which the data of the collection is offered.
    pub license: String,
}

/// The mathematical value of a [`Collection`].
pub struct CollectionView {
    pub core: CoreView,
    pub description: Seq<char>,
    pub license: Seq<char>,
}

impl View for Collection {
    type V = CollectionView;

    open spec fn view(&self) -> CollectionView {
        CollectionView {
            core: self.core@,
            description: self.description@,
            license: self.license@,
        }
    }
}

/// The keys that the schema of a collection names.
pub open spec fn collection_keys() -> Set<Seq<char>> {
    common_keys().insert(Field::Description.key()).insert(Field::License.key())
}

/// The collection that a document describes: the common fields, then a
/// `description` and a `license`, which must be strings. The additional
/// fields are the members that the schema of a collection does not name.
pub open spec fn collection_of(doc: Value) -> Result<CollectionView, SchemaError> {
    match core_of(doc) {
        Err(e) => Err(e),
        Ok(core) => match required_text(doc, Field::Description) {
            Err(e) => Err(e),
            Ok(description) => match required_text(doc, Field::License) {
                Err(e) => Err(e),
                Ok(license) => Ok(
                    CollectionView {
                        core: CoreView {
                            additional_fields: members(doc).remove_keys(collection_keys()),
                            ..core
                        },
                        description,
                        license,
                    },
                ),
            },
        },
    }
}

impl Collection {
    /// Decodes the collection that `doc` describes. The members of `doc`
    /// that the schema does not name become the additional fields.
    pub fn from_value(doc: &Value) -> (decoded: Result<Collection, SchemaError>)
        ensures
            match decoded {
                Ok(collection) => collection_of(*doc) == Ok::<CollectionView, SchemaError>(
                    collection@,
                ),
                Err(e) => collection_of(*doc) == Err::<CollectionView, SchemaError>(e),
            },
    {
        let mut core = CoreStruct::from_value(doc)?;
        let description = read_text(doc, Field::Description)?;
        let license = read_text(doc, Field::License)?;
        remove_member(&mut core.additional_fields, Field::Description.as_str());
        remove_member(&mut core.additional_fields, Field::License.as_str());
        assert(members(core.additional_fields) =~= members(*doc).remove_keys(
            collection_keys(),
        ));
        Ok(Collection { core, description, license })
    }
}

impl AsRef<CoreStruct> for Collection {
    /// Borrows the common fields of this collection.
    fn as_ref(&self) -> (core: &CoreStruct)
        ensures
            *core == self.core,
    {
        &self.core
    }
}

impl AsMut<CoreStruct> for Collection {
    /// Borrows the common fields of this collection for writing. Whatever the
    /// caller writes replaces the common fields and nothing else.
    fn as_mut(&mut self) -> (core: &mut CoreStruct)
        ensures
            *core == old(self).core,
            *final(self) == (Collection { core: *final(core), ..*old(self) }),
    {
        &mut self.core
    }
}

} // verus!
