//! Typed objects decoded from untyped JSON documents.
//!
//! A document declares in its `type` member which of three variants it is: an
//! item, a catalog or a collection. [`Object::from_value`] reads that member,
//! runs the decoder of the variant it names, and returns the typed object or
//! an [`Error`] that says which step refused the document. Every object gives
//! access to the fields that all variants share through `AsRef<CoreStruct>`
//! and `AsMut<CoreStruct>`.

pub mod catalog;
pub mod collection;
pub mod common;
pub mod error;
pub mod item;
pub mod json;
pub mod kind;
pub mod object;
pub mod schema;

pub use catalog::Catalog;
pub use collection::Collection;
pub use common::{CoreStruct, Link};
pub use error::Error;
pub use item::Item;
pub use kind::{Kind, CATALOG_TYPE, COLLECTION_TYPE, ITEM_TYPE, TYPE_FIELD};
pub use object::Object;
pub use schema::{Field, SchemaError};
