//! The fields that every object variant carries, and how they are read from a
//! document.

use crate::json::{elements, get_member, member, members, remove_member};
use crate::kind::TYPE_FIELD;
use crate::schema::{
    optional_texts, read_text, read_texts, required_text, Field, SchemaError,
};
use serde_json::Value;
use vstd::prelude::*;

verus! {

/// A navigational link from one object to another resource.
#[derive(Debug, PartialEq)]
pub struct Link {
    /// Where the link points.
    pub href: String,
    /// How the target relates to the object that holds the link.
    pub rel: String,
    /// The members of the link's document other than `href` and `rel`.
    pub additional_fields: Value,
}

/// The mathematical value of a [`Link`].
pub struct LinkView {
    pub href: Seq<char>,
    pub rel: Seq<char>,
    pub additional_fields: Map<Seq<char>, Value>,
}

impl View for Link {
    type V = LinkView;

    open spec fn view(&self) -> LinkView {
        LinkView {
            href: self.href@,
            rel: self.rel@,
            additional_fields: members(self.additional_fields),
        }
    }
}

impl DeepView for Link {
    type V = LinkView;

    open spec fn deep_view(&self) -> LinkView {
        self@
    }
}

/// The fields shared by items, catalogs and collections.
#[derive(Debug, PartialEq)]
pub struct CoreStruct {
    /// The identifier of the object.
    pub id: String,
    /// The version of the format that the object is written in.
    pub version: String,
    /// The identifiers of the extensions that the object uses, if it lists any.
    pub extensions: Option<Vec<String>>,
    /// The links of the object.
    pub links: Vec<Link>,
    /// The members of the object's document that the schema of its variant
    /// does not name, kept as the document gave them.
    pub additional_fields: Value,
}

/// The mathematical value of a [`CoreStruct`].
pub struct CoreView {
    pub id: Seq<char>,
    pub version: Seq<char>,
    pub extensions: Option<Seq<Seq<char>>>,
    pub links: Seq<LinkView>,
    pub additional_fields: Map<Seq<char>, Value>,
}

impl View for CoreStruct {
    type V = CoreView;

    open spec fn view(&self) -> CoreView {
        CoreView {
            id: self.id@,
            version: self.version@,
            extensions: self.extensions.deep_view(),
            links: self.links.deep_view(),
            additional_fields: members(self.additional_fields),
        }
    }
}

/// The keys that the schema of a link names.
pub open spec fn link_keys() -> Set<Seq<char>> {
    set![Field::Href.key(), Field::Rel.key()]
}

/// The keys of the discriminator and of the common fields.
pub open spec fn common_keys() -> Set<Seq<char>> {
    set![
        TYPE_FIELD@,
        Field::Version.key(),
        Field::Extensions.key(),
        Field::Id.key(),
        Field::Links.key(),
    ]
}

/// The link that a document describes: its `href` and its `rel`, both
/// required strings, asked for in that order, and every other member that
/// the document holds.
pub open spec fn link_of(doc: Value) -> Result<LinkView, SchemaError> {
    match required_text(doc, Field::Href) {
        Err(e) => Err(e),
        Ok(href) => match required_text(doc, Field::Rel) {
            Err(e) => Err(e),
            Ok(rel) => Ok(
                LinkView {
                    href,
                    rel,
                    additional_fields: members(doc).remove_keys(link_keys()),
                },
            ),
        },
    }
}

/// Whether every one of `items` describes a link.
pub open spec fn all_links(items: Seq<Value>) -> bool {
    forall|i: int| 0 <= i < items.len() ==> link_of(#[trigger] items[i]) is Ok
}

/// Whether `items[i]` is the first of `items` that does not describe a link.
pub open spec fn first_broken_link(items: Seq<Value>, i: int) -> bool {
    &&& 0 <= i < items.len()
    &&& link_of(items[i]) is Err
    &&& forall|j: int| 0 <= j < i ==> link_of(#[trigger] items[j]) is Ok
}

/// The links that `items` describe, in order, or the error of the first one
/// that describes none.
pub open spec fn links_of(items: Seq<Value>) -> Result<Seq<LinkView>, SchemaError> {
    if all_links(items) {
        Ok(Seq::new(items.len(), |i: int| link_of(items[i])->Ok_0))
    } else {
        let i = choose|i: int| first_broken_link(items, i);
        Err(link_of(items[i])->Err_0)
    }
}

/// The links of a document: its `links` member, which must be an array in
/// which every element describes a link.
pub open spec fn required_links(doc: Value) -> Result<Seq<LinkView>, SchemaError> {
    match member(doc, Field::Links.key()) {
        None => Err(SchemaError::MissingField(Field::Links)),
        Some(found) => match elements(found) {
            None => Err(SchemaError::InvalidField(Field::Links)),
            Some(items) => links_of(items),
        },
    }
}

/// The common fields of a document. The members are asked for in the order
/// version, extensions, identifier, links, and the first that fails gives
/// the error. Every member that is neither the discriminator nor one of
/// these is kept as an additional field.
pub open spec fn core_of(doc: Value) -> Result<CoreView, SchemaError> {
    match required_text(doc, Field::Version) {
        Err(e) => Err(e),
        Ok(version) => match optional_texts(doc, Field::Extensions) {
            Err(e) => Err(e),
            Ok(extensions) => match required_text(doc, Field::Id) {
                Err(e) => Err(e),
                Ok(id) => match required_links(doc) {
                    Err(e) => Err(e),
                    Ok(links) => Ok(
                        CoreView {
                            id,
                            version,
                            extensions,
                            links,
                            additional_fields: members(doc).remove_keys(common_keys()),
                        },
                    ),
                },
            },
        },
    }
}

impl Link {
    /// Decodes the link that `doc` describes. No member of `doc` is lost:
    /// those that are neither `href` nor `rel` become the additional fields.
    pub fn from_value(doc: &Value) -> (decoded: Result<Link, SchemaError>)
        ensures
            match decoded {
                Ok(link) => link_of(*doc) == Ok::<LinkView, SchemaError>(link@),
                Err(e) => link_of(*doc) == Err::<LinkView, SchemaError>(e),
            },
    {
        let href = read_text(doc, Field::Href)?;
        let rel = read_text(doc, Field::Rel)?;
        let mut additional_fields = doc.clone();
        remove_member(&mut additional_fields, Field::Href.as_str());
        remove_member(&mut additional_fields, Field::Rel.as_str());
        assert(members(additional_fields) =~= members(*doc).remove_keys(link_keys()));
        Ok(Link { href, rel, additional_fields })
    }
}

/// Decodes the links of `doc`.
pub fn read_links(doc: &Value) -> (decoded: Result<Vec<Link>, SchemaError>)
    ensures
        match decoded {
            Ok(links) => required_links(*doc) == Ok::<Seq<LinkView>, SchemaError>(
                links.deep_view(),
            ),
            Err(e) => required_links(*doc) == Err::<Seq<LinkView>, SchemaError>(e),
        },
{
    match get_member(doc, Field::Links.as_str()) {
        None => Err(SchemaError::MissingField(Field::Links)),
        Some(value) => match value.as_array() {
            None => Err(SchemaError::InvalidField(Field::Links)),
            Some(items) => {
                let mut links: Vec<Link> = Vec::new();
                let mut i: usize = 0;
                while i < items.len()
                    invariant
                        i <= items.len(),
                        links.len() == i,
                        member(*doc, Field::Links.key()) == Some(*value),
                        elements(*value) == Some(items@),
                        forall|j: int|
                            0 <= j < i ==> link_of(#[trigger] items@[j]) == Ok::<
                                LinkView,
                                SchemaError,
                            >(links@[j]@),
                    decreases items.len() - i,
                {
                    match Link::from_value(&items[i]) {
                        Ok(link) => links.push(link),
                        Err(e) => {
                            proof {
                                let first = choose|k: int| first_broken_link(items@, k);
                                assert(first_broken_link(items@, i as int));
                                assert(first == i);
                            }
                            return Err(e);
                        },
                    }
                    i += 1;
                }
                assert(links.deep_view() =~= links_of(items@)->Ok_0);
                Ok(links)
            },
        },
    }
}

impl CoreStruct {
    /// Decodes the common fields of `doc`. No member of `doc` but the
    /// discriminator is lost: those that are not common fields become the
    /// additional fields.
    pub fn from_value(doc: &Value) -> (decoded: Result<CoreStruct, SchemaError>)
        ensures
            match decoded {
                Ok(core) => core_of(*doc) == Ok::<CoreView, SchemaError>(core@),
                Err(e) => core_of(*doc) == Err::<CoreView, SchemaError>(e),
            },
    {
        let version = read_text(doc, Field::Version)?;
        let extensions = read_texts(doc, Field::Extensions)?;
        let id = read_text(doc, Field::Id)?;
        let links = read_links(doc)?;
        let mut additional_fields = doc.clone();
        remove_member(&mut additional_fields, TYPE_FIELD);
        remove_member(&mut additional_fields, Field::Version.as_str());
        remove_member(&mut additional_fields, Field::Extensions.as_str());
        remove_member(&mut additional_fields, Field::Id.as_str());
        remove_member(&mut additional_fields, Field::Links.as_str());
        assert(members(additional_fields) =~= members(*doc).remove_keys(common_keys()));
        Ok(CoreStruct { id, version, extensions, links, additional_fields })
    }
}

} // verus!
