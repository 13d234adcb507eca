//! Objects: a document decoded into one of the three variants.

use crate::catalog::{catalog_keys, catalog_of, Catalog, CatalogView};
use crate::collection::{collection_keys, collection_of, Collection, CollectionView};
use crate::common::{CoreStruct, CoreView};
use crate::error::{Error, ErrorView};
use crate::item::{item_keys, item_of, Item, ItemView};
use crate::json::{member, members, text};
use crate::kind::{lemma_name_round_trip, lemma_named_is_exact, Kind, TYPE_FIELD};
use crate::schema::SchemaError;
use serde_json::Value;
use vstd::prelude::*;

verus! {

/// An item, a catalog or a collection.
#[derive(Debug, PartialEq)]
pub enum Object {
    /// An item.
    Item(Item),
    /// A catalog.
    Catalog(Catalog),
    /// A collection.
    Collection(Collection),
}

/// The mathematical value of an [`Object`].
pub enum ObjectView {
    Item(ItemView),
    Catalog(CatalogView),
    Collection(CollectionView),
}

impl ObjectView {
    /// The variant that this value is.
    pub open spec fn tag(self) -> Kind {
        match self {
            ObjectView::Item(_) => Kind::Item,
            ObjectView::Catalog(_) => Kind::Catalog,
            ObjectView::Collection(_) => Kind::Collection,
        }
    }

    /// The common fields of this value, whichever variant it is.
    pub open spec fn core_fields(self) -> CoreView {
        match self {
            ObjectView::Item(item) => item.core,
            ObjectView::Catalog(catalog) => catalog.core,
            ObjectView::Collection(collection) => collection.core,
        }
    }
}

impl View for Object {
    type V = ObjectView;

    open spec fn view(&self) -> ObjectView {
        match self {
            Object::Item(item) => ObjectView::Item(item@),
            Object::Catalog(catalog) => ObjectView::Catalog(catalog@),
            Object::Collection(collection) => ObjectView::Collection(collection@),
        }
    }
}

/// The keys that the schema of the variant `kind` names.
pub open spec fn schema_keys(kind: Kind) -> Set<Seq<char>> {
    match kind {
        Kind::Item => item_keys(),
        Kind::Catalog => catalog_keys(),
        Kind::Collection => collection_keys(),
    }
}

/// What the decoder of the variant `kind` makes of a document.
pub open spec fn payload_of(kind: Kind, doc: Value) -> Result<ObjectView, SchemaError> {
    match kind {
        Kind::Item => match item_of(doc) {
            Ok(item) => Ok(ObjectView::Item(item)),
            Err(e) => Err(e),
        },
        Kind::Catalog => match catalog_of(doc) {
            Ok(catalog) => Ok(ObjectView::Catalog(catalog)),
            Err(e) => Err(e),
        },
        Kind::Collection => match collection_of(doc) {
            Ok(collection) => Ok(ObjectView::Collection(collection)),
            Err(e) => Err(e),
        },
    }
}

/// The object that a document decodes to. The `type` member alone picks the
/// variant; the decoder of that variant then reads the whole document, and
/// its error, if it has one, is handed on unchanged.
pub open spec fn object_of(doc: Value) -> Result<ObjectView, ErrorView> {
    match Kind::declared(doc) {
        Err(e) => Err(e),
        Ok(kind) => match payload_of(kind, doc) {
            Ok(object) => Ok(object),
            Err(e) => Err(ErrorView::Schema(e)),
        },
    }
}

impl Object {
    /// The variant that this object is.
    pub open spec fn tag(&self) -> Kind {
        self@.tag()
    }

    /// The common fields of this object, whichever variant it is.
    pub open spec fn core_fields(&self) -> CoreStruct {
        match self {
            Object::Item(item) => item.core,
            Object::Catalog(catalog) => catalog.core,
            Object::Collection(collection) => collection.core,
        }
    }

    /// This object with `core` in place of its common fields.
    pub open spec fn with_core_fields(&self, core: CoreStruct) -> Object {
        match self {
            Object::Item(item) => Object::Item(Item { core, ..*item }),
            Object::Catalog(catalog) => Object::Catalog(Catalog { core, ..*catalog }),
            Object::Collection(collection) => Object::Collection(
                Collection { core, ..*collection },
            ),
        }
    }

    /// This object as an item, if it is one.
    pub open spec fn item(&self) -> Option<&Item> {
        match self {
            Object::Item(item) => Some(item),
            _ => None,
        }
    }

    /// This object as a catalog, if it is one.
    pub open spec fn catalog(&self) -> Option<&Catalog> {
        match self {
            Object::Catalog(catalog) => Some(catalog),
            _ => None,
        }
    }

    /// This object as a collection, if it is one.
    pub open spec fn collection(&self) -> Option<&Collection> {
        match self {
            Object::Collection(collection) => Some(collection),
            _ => None,
        }
    }

    /// Returns the variant that this object is.
    pub fn kind(&self) -> (kind: Kind)
        ensures
            kind == self.tag(),
    {
        match self {
            Object::Item(_) => Kind::Item,
            Object::Catalog(_) => Kind::Catalog,
            Object::Collection(_) => Kind::Collection,
        }
    }

    /// Returns a reference to this object as an item, or `None` if it is not
    /// an item.
    pub fn as_item(&self) -> (found: Option<&Item>)
        ensures
            found == self.item(),
    {
        match self {
            Object::Item(item) => Some(item),
            _ => None,
        }
    }

    /// Returns a reference to this object as a catalog, or `None` if it is
    /// not a catalog.
    pub fn as_catalog(&self) -> (found: Option<&Catalog>)
        ensures
            found == self.catalog(),
    {
        match self {
            Object::Catalog(catalog) => Some(catalog),
            _ => None,
        }
    }

    /// Returns a reference to this object as a collection, or `None` if it is
    /// not a collection.
    pub fn as_collection(&self) -> (found: Option<&Collection>)
        ensures
            found == self.collection(),
    {
        match self {
            Object::Collection(collection) => Some(collection),
            _ => None,
        }
    }

    /// Runs the decoder of the variant `kind` on a document, and no other
    /// decoder, whatever the document declares itself to be.
    pub fn from_value_as(kind: Kind, doc: &Value) -> (decoded: Result<Object, SchemaError>)
        ensures
            match decoded {
                Ok(object) => payload_of(kind, *doc) == Ok::<ObjectView, SchemaError>(object@),
                Err(e) => payload_of(kind, *doc) == Err::<ObjectView, SchemaError>(e),
            },
    {
        match kind {
            Kind::Item => match Item::from_value(doc) {
                Ok(item) => Ok(Object::Item(item)),
                Err(e) => Err(e),
            },
            Kind::Catalog => match Catalog::from_value(doc) {
                Ok(catalog) => Ok(Object::Catalog(catalog)),
                Err(e) => Err(e),
            },
            Kind::Collection => match Collection::from_value(doc) {
                Ok(collection) => Ok(Object::Collection(collection)),
                Err(e) => Err(e),
            },
        }
    }

    /// Decodes a document into the object that it describes.
    ///
    /// The `type` member of the document picks the variant, and only the
    /// decoder of that variant is run, on the whole document. A document
    /// without the member, with a member that is not a string, or with a
    /// string that names no variant is refused with the matching error; an
    /// error of the variant's decoder is returned inside [`Error::Schema`].
    ///
    /// The variant of the object that comes back is the one that the
    /// document declared. No member of the document is lost but the
    /// discriminator, which that variant stands for: the members that the
    /// schema of the variant does not name become the additional fields.
    pub fn from_value(value: Value) -> (decoded: Result<Object, Error>)
        ensures
            match decoded {
                Ok(object) => object_of(value) == Ok::<ObjectView, ErrorView>(object@),
                Err(e) => object_of(value) == Err::<ObjectView, ErrorView>(e@),
            },
            decoded matches Ok(object) ==> Kind::declared(value) == Ok::<Kind, ErrorView>(
                object.tag(),
            ),
    {
        match Kind::from_value(&value) {
            Ok(kind) => match Object::from_value_as(kind, &value) {
                Ok(object) => Ok(object),
                Err(e) => Err(Error::from(e)),
            },
            Err(e) => Err(e),
        }
    }
}

impl AsRef<CoreStruct> for Object {
    /// Borrows the common fields of this object, whichever variant it is.
    fn as_ref(&self) -> (core: &CoreStruct)
        ensures
            *core == self.core_fields(),
    {
        match self {
            Object::Item(item) => item.as_ref(),
            Object::Catalog(catalog) => catalog.as_ref(),
            Object::Collection(collection) => collection.as_ref(),
        }
    }
}

impl AsMut<CoreStruct> for Object {
    /// Borrows the common fields of this object for writing. Whatever the
    /// caller writes replaces the common fields and nothing else: the variant
    /// and the rest of the payload stay as they were.
    fn as_mut(&mut self) -> (core: &mut CoreStruct)
        ensures
            *core == old(self).core_fields(),
            *final(self) == old(self).with_core_fields(*final(core)),
            final(self).tag() == old(self).tag(),
    {
        match self {
            Object::Item(item) => item.as_mut(),
            Object::Catalog(catalog) => catalog.as_mut(),
            Object::Collection(collection) => collection.as_mut(),
        }
    }
}

/// A document whose `type` member is the discriminator of `kind`, and which
/// the decoder of that variant accepts, decodes to what that decoder makes of
/// it, and the result is of that variant.
pub proof fn lemma_accepted_document_decodes(doc: Value, kind: Kind)
    requires
        member(doc, TYPE_FIELD@) is Some,
        text(member(doc, TYPE_FIELD@).unwrap()) == Some(kind.name()),
        payload_of(kind, doc) is Ok,
    ensures
        object_of(doc) == Ok::<ObjectView, ErrorView>(payload_of(kind, doc)->Ok_0),
        object_of(doc)->Ok_0.tag() == kind,
{
    lemma_name_round_trip(kind);
}

/// Decoding fails with [`Error::MissingType`] exactly on the documents that
/// have no `type` member, whatever else they hold.
pub proof fn lemma_missing_type(doc: Value)
    ensures
        object_of(doc) == Err::<ObjectView, ErrorView>(ErrorView::MissingType)
            <==> member(doc, TYPE_FIELD@) is None,
{
}

/// Decoding fails with [`Error::InvalidTypeField`] holding `found` exactly on
/// the documents whose `type` member is `found` and is not a string.
pub proof fn lemma_invalid_type_field(doc: Value, found: Value)
    ensures
        object_of(doc) == Err::<ObjectView, ErrorView>(ErrorView::InvalidTypeField(found))
            <==> member(doc, TYPE_FIELD@) == Some(found) && text(found) is None,
{
}

/// Decoding fails with [`Error::InvalidTypeValue`] holding `name` exactly on
/// the documents whose `type` member is the string `name` and `name` is none
/// of the three discriminators.
pub proof fn lemma_invalid_type_value(doc: Value, name: Seq<char>)
    ensures
        object_of(doc) == Err::<ObjectView, ErrorView>(ErrorView::InvalidTypeValue(name))
            <==> member(doc, TYPE_FIELD@) is Some
            && text(member(doc, TYPE_FIELD@).unwrap()) == Some(name)
            && Kind::named(name) is None,
{
}

/// Decoding fails with [`Error::Schema`] holding `e` exactly on the documents
/// whose `type` member names a variant whose decoder fails with `e`. No other
/// decoder has a say.
pub proof fn lemma_schema_error(doc: Value, e: SchemaError)
    ensures
        object_of(doc) == Err::<ObjectView, ErrorView>(ErrorView::Schema(e))
            <==> Kind::declared(doc) is Ok
            && payload_of(Kind::declared(doc)->Ok_0, doc) == Err::<ObjectView, SchemaError>(e),
{
}

/// The variant of a decoded object is the one that the document declared:
/// the discriminator of the object's variant is the very string that the
/// document holds in its `type` member.
pub proof fn lemma_tag_is_declared(doc: Value)
    requires
        object_of(doc) is Ok,
    ensures
        Kind::declared(doc) == Ok::<Kind, ErrorView>(object_of(doc)->Ok_0.tag()),
        member(doc, TYPE_FIELD@) is Some,
        text(member(doc, TYPE_FIELD@).unwrap()) == Some(object_of(doc)->Ok_0.tag().name()),
{
    let name = text(member(doc, TYPE_FIELD@).unwrap()).unwrap();
    lemma_named_is_exact(name, object_of(doc)->Ok_0.tag());
}

/// A decoded object holds among its additional fields every member of the
/// document that the schema of its variant does not name, and no other.
pub proof fn lemma_members_kept(doc: Value)
    requires
        object_of(doc) is Ok,
    ensures
        object_of(doc)->Ok_0.core_fields().additional_fields == members(doc).remove_keys(
            schema_keys(object_of(doc)->Ok_0.tag()),
        ),
{
}

/// Reading the common fields gives back what was last put in their place;
/// putting back what was read changes nothing; and putting any common fields
/// in place leaves the variant as it was.
pub proof fn lemma_core_fields_replaced(object: Object, core: CoreStruct)
    ensures
        object.with_core_fields(core).core_fields() == core,
        object.with_core_fields(object.core_fields()) == object,
        object.with_core_fields(core).tag() == object.tag(),
{
}

/// Of the three narrowing accessors exactly one finds something, and it is
/// the one of the object's variant.
pub proof fn lemma_one_downcast(object: Object)
    ensures
        object.item() is Some <==> object.tag() == Kind::Item,
        object.catalog() is Some <==> object.tag() == Kind::Catalog,
        object.collection() is Some <==> object.tag() == Kind::Collection,
        object.item() is Some || object.catalog() is Some || object.collection() is Some,
        !(object.item() is Some && object.catalog() is Some),
        !(object.item() is Some && object.collection() is Some),
        !(object.catalog() is Some && object.collection() is Some),
{
}

} // verus!
