//! Items: objects that describe one asset-bearing record.

use crate::common::{common_keys, core_of, CoreStruct, CoreView};
use crate::json::{members, remove_member};
use crate::schema::{read_member, required_member, Field, SchemaError};
use serde_json::Value;
use vstd::prelude::*;

verus! {

/// An item.
#[derive(Debug, PartialEq)]
pub struct Item {
    /// The fields that an item shares with the other variants.
    pub core: CoreStruct,
    /// The properties of the item, kept as the document gave them.
    pub properties: Value,
    /// The assets of the item, kept as the document gave them.
    pub assets: Value,
}

/// The mathematical value of an [`Item`].
pub struct ItemView {
    pub core: CoreView,
    pub properties: Value,
    pub assets: Value,
}

impl View for Item {
    type V = ItemView;

    open spec fn view(&self) -> ItemView {
        ItemView { core: self.core@, properties: self.properties, assets: self.assets }
    }
}

/// The keys that the schema of an item names.
pub open spec fn item_keys() -> Set<Seq<char>> {
    common_keys().insert(Field::Properties.key()).insert(Field::Assets.key())
}

/// The item that a document describes: the common fields, then `properties`
/// and `assets`, which must be present and are kept whatever they hold. The
/// additional fields are the members that the schema of an item does not
/// name.
pub open spec fn item_of(doc: Value) -> Result<ItemView, SchemaError> {
    match core_of(doc) {
        Err(e) => Err(e),
        Ok(core) => match required_member(doc, Field::Properties) {
            Err(e) => Err(e),
            Ok(properties) => match required_member(doc, Field::Assets) {
                Err(e) => Err(e),
                Ok(assets) => Ok(
                    ItemView {
                        core: CoreView {
                            additional_fields: members(doc).remove_keys(item_keys()),
                            ..core
                        },
                        properties,
                        assets,
                    },
                ),
            },
        },
    }
}

impl Item {
    /// Decodes the item that `doc` describes. The members of `doc` that the
    /// schema does not name become the additional fields.
    pub fn from_value(doc: &Value) -> (decoded: Result<Item, SchemaError>)
        ensures
            match decoded {
                Ok(item) => item_of(*doc) == Ok::<ItemView, SchemaError>(item@),
                Err(e) => item_of(*doc) == Err::<ItemView, SchemaError>(e),
            },
    {
        let mut core = CoreStruct::from_value(doc)?;
        let properties = read_member(doc, Field::Properties)?.clone();
        let assets = read_member(doc, Field::Assets)?.clone();
        remove_member(&mut core.additional_fields, Field::Properties.as_str());
        remove_member(&mut core.additional_fields, Field::Assets.as_str());
        assert(members(core.additional_fields) =~= members(*doc).remove_keys(item_keys()));
        Ok(Item { core, properties, assets })
    }
}

impl AsRef<CoreStruct> for Item {
    /// Borrows the common fields of this item.
    fn as_ref(&self) -> (core: &CoreStruct)
        ensures
            *core == self.core,
    {
        &self.core
    }
}

impl AsMut<CoreStruct> for Item {
    /// Borrows the common fields of this item for writing. Whatever the
    /// caller writes replaces the common fields and nothing else.
    fn as_mut(&mut self) -> (core: &mut CoreStruct)
        ensures
            *core == old(self).core,
            *final(self) == (Item { core: *final(core), ..*old(self) }),
    {
        &mut self.core
    }
}

} // verus!
