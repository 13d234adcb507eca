use serde_json::Value;
use stac::common::read_links;
use stac::schema::{read_member, read_text, read_texts};
use stac::{Catalog, Collection, CoreStruct, Error, Field, Item, Link, SchemaError};

fn parse(text: &str) -> Value {
    serde_json::from_str(text).expect("the test document is well-formed JSON")
}

#[test]
fn read_member_borrows_the_member() {
    let doc = parse(r#"{"properties": {"a": [1, 2.5, null]}, "assets": 7}"#);
    assert_eq!(
        read_member(&doc, Field::Properties),
        Ok(&parse(r#"{"a": [1, 2.5, null]}"#))
    );
    assert_eq!(read_member(&doc, Field::Assets), Ok(&parse("7")));
}

#[test]
fn read_member_reports_an_absent_member() {
    let doc = parse(r#"{"properties": {}}"#);
    assert_eq!(
        read_member(&doc, Field::Assets),
        Err(SchemaError::MissingField(Field::Assets))
    );
    assert_eq!(
        read_member(&parse("[1, 2]"), Field::Properties),
        Err(SchemaError::MissingField(Field::Properties))
    );
}

#[test]
fn read_member_accepts_null() {
    let doc = parse(r#"{"assets": null}"#);
    assert_eq!(read_member(&doc, Field::Assets), Ok(&Value::Null));
}

#[test]
fn read_text_copies_the_string() {
    let doc = parse(r#"{"id": "an id", "stac_version": ""}"#);
    assert_eq!(read_text(&doc, Field::Id), Ok("an id".to_string()));
    assert_eq!(read_text(&doc, Field::Version), Ok(String::new()));
}

#[test]
fn read_text_reports_an_absent_member() {
    assert_eq!(
        read_text(&parse("{}"), Field::Id),
        Err(SchemaError::MissingField(Field::Id))
    );
}

#[test]
fn read_text_reports_a_member_that_is_no_string() {
    for doc in [
        r#"{"id": 1}"#,
        r#"{"id": null}"#,
        r#"{"id": true}"#,
        r#"{"id": ["x"]}"#,
        r#"{"id": {"id": "x"}}"#,
    ] {
        assert_eq!(
            read_text(&parse(doc), Field::Id),
            Err(SchemaError::InvalidField(Field::Id))
        );
    }
}

#[test]
fn read_texts_copies_the_strings_in_order() {
    let doc = parse(r#"{"stac_extensions": ["b", "a", "b", ""]}"#);
    assert_eq!(
        read_texts(&doc, Field::Extensions),
        Ok(Some(vec![
            "b".to_string(),
            "a".to_string(),
            "b".to_string(),
            String::new()
        ]))
    );
}

#[test]
fn read_texts_tells_absent_from_empty() {
    assert_eq!(read_texts(&parse("{}"), Field::Extensions), Ok(None));
    assert_eq!(
        read_texts(&parse(r#"{"stac_extensions": []}"#), Field::Extensions),
        Ok(Some(vec![]))
    );
}

#[test]
fn read_texts_reports_what_is_no_array_of_strings() {
    for doc in [
        r#"{"stac_extensions": "a"}"#,
        r#"{"stac_extensions": null}"#,
        r#"{"stac_extensions": {"0": "a"}}"#,
        r#"{"stac_extensions": ["a", 1]}"#,
        r#"{"stac_extensions": [null]}"#,
        r#"{"stac_extensions": ["a", ["b"]]}"#,
    ] {
        assert_eq!(
            read_texts(&parse(doc), Field::Extensions),
            Err(SchemaError::InvalidField(Field::Extensions))
        );
    }
}

#[test]
fn link_is_decoded_with_its_other_members() {
    let doc = parse(r#"{"href": "./a.json", "rel": "child", "type": "application/json"}"#);
    assert_eq!(
        Link::from_value(&doc),
        Ok(Link {
            href: "./a.json".to_string(),
            rel: "child".to_string(),
            additional_fields: parse(r#"{"type": "application/json"}"#),
        })
    );
}

#[test]
fn link_asks_for_href_before_rel() {
    assert_eq!(
        Link::from_value(&parse("{}")),
        Err(SchemaError::MissingField(Field::Href))
    );
    assert_eq!(
        Link::from_value(&parse(r#"{"href": 1}"#)),
        Err(SchemaError::InvalidField(Field::Href))
    );
    assert_eq!(
        Link::from_value(&parse(r#"{"href": "h"}"#)),
        Err(SchemaError::MissingField(Field::Rel))
    );
    assert_eq!(
        Link::from_value(&parse(r#"{"href": "h", "rel": []}"#)),
        Err(SchemaError::InvalidField(Field::Rel))
    );
    assert_eq!(
        Link::from_value(&parse(r#""./a.json""#)),
        Err(SchemaError::MissingField(Field::Href))
    );
}

#[test]
fn links_are_decoded_in_order() {
    let doc = parse(
        r#"{"links": [
            {"href": "1", "rel": "a"},
            {"href": "2", "rel": "b"},
            {"href": "3", "rel": "a"}
        ]}"#,
    );
    let links = read_links(&doc).unwrap();
    let hrefs: Vec<&str> = links.iter().map(|link| link.href.as_str()).collect();
    let rels: Vec<&str> = links.iter().map(|link| link.rel.as_str()).collect();
    assert_eq!(hrefs, vec!["1", "2", "3"]);
    assert_eq!(rels, vec!["a", "b", "a"]);
}

#[test]
fn links_must_be_present_and_an_array() {
    assert_eq!(
        read_links(&parse("{}")),
        Err(SchemaError::MissingField(Field::Links))
    );
    assert_eq!(
        read_links(&parse(r#"{"links": {"href": "1", "rel": "a"}}"#)),
        Err(SchemaError::InvalidField(Field::Links))
    );
    assert_eq!(read_links(&parse(r#"{"links": []}"#)), Ok(vec![]));
}

#[test]
fn the_first_broken_link_gives_the_error() {
    let doc = parse(
        r#"{"links": [
            {"href": "1", "rel": "a"},
            {"href": "2", "rel": 5},
            {"rel": "c"},
            {"href": "4", "rel": "d"}
        ]}"#,
    );
    assert_eq!(
        read_links(&doc),
        Err(SchemaError::InvalidField(Field::Rel))
    );
    let doc = parse(r#"{"links": [{"href": "1", "rel": "a"}, 3]}"#);
    assert_eq!(
        read_links(&doc),
        Err(SchemaError::MissingField(Field::Href))
    );
}

#[test]
fn common_fields_are_decoded() {
    let doc = parse(
        r#"{
            "type": "Catalog",
            "stac_version": "1.0.0",
            "stac_extensions": ["e"],
            "id": "an-id",
            "links": [{"href": "h", "rel": "r"}],
            "description": "d",
            "title": "t"
        }"#,
    );
    assert_eq!(
        CoreStruct::from_value(&doc),
        Ok(CoreStruct {
            id: "an-id".to_string(),
            version: "1.0.0".to_string(),
            extensions: Some(vec!["e".to_string()]),
            links: vec![Link {
                href: "h".to_string(),
                rel: "r".to_string(),
                additional_fields: parse("{}"),
            }],
            additional_fields: parse(r#"{"description": "d", "title": "t"}"#),
        })
    );
}

#[test]
fn common_fields_are_asked_for_in_order() {
    assert_eq!(
        CoreStruct::from_value(&parse(r#"{"stac_extensions": 1, "id": 2, "links": 3}"#)),
        Err(SchemaError::MissingField(Field::Version))
    );
    assert_eq!(
        CoreStruct::from_value(&parse(
            r#"{"stac_version": 0, "stac_extensions": 1, "id": 2, "links": 3}"#
        )),
        Err(SchemaError::InvalidField(Field::Version))
    );
    assert_eq!(
        CoreStruct::from_value(&parse(
            r#"{"stac_version": "v", "stac_extensions": 1, "id": 2, "links": 3}"#
        )),
        Err(SchemaError::InvalidField(Field::Extensions))
    );
    assert_eq!(
        CoreStruct::from_value(&parse(r#"{"stac_version": "v", "links": 3}"#)),
        Err(SchemaError::MissingField(Field::Id))
    );
    assert_eq!(
        CoreStruct::from_value(&parse(r#"{"stac_version": "v", "id": 2, "links": 3}"#)),
        Err(SchemaError::InvalidField(Field::Id))
    );
    assert_eq!(
        CoreStruct::from_value(&parse(r#"{"stac_version": "v", "id": "i"}"#)),
        Err(SchemaError::MissingField(Field::Links))
    );
    assert_eq!(
        CoreStruct::from_value(&parse(r#"{"stac_version": "v", "id": "i", "links": 3}"#)),
        Err(SchemaError::InvalidField(Field::Links))
    );
    assert_eq!(
        CoreStruct::from_value(&parse(r#"{"stac_version": "v", "id": "i", "links": [{}]}"#)),
        Err(SchemaError::MissingField(Field::Href))
    );
}

#[test]
fn item_decoder_keeps_properties_and_assets_as_given() {
    let doc = parse(
        r#"{"stac_version": "v", "id": "i", "links": [],
            "properties": {"eo:cloud_cover": 12.5, "tags": ["x"]},
            "assets": {"thumb": {"href": "t.png"}},
            "bbox": [1, 2, 3, 4]}"#,
    );
    let item = Item::from_value(&doc).unwrap();
    assert_eq!(
        item.properties,
        parse(r#"{"eo:cloud_cover": 12.5, "tags": ["x"]}"#)
    );
    assert_eq!(item.assets, parse(r#"{"thumb": {"href": "t.png"}}"#));
    assert_eq!(item.core.additional_fields, parse(r#"{"bbox": [1, 2, 3, 4]}"#));
}

#[test]
fn item_decoder_asks_for_the_common_fields_first() {
    assert_eq!(
        Item::from_value(&parse(r#"{"properties": {}, "assets": {}}"#)),
        Err(SchemaError::MissingField(Field::Version))
    );
    assert_eq!(
        Item::from_value(&parse(r#"{"stac_version": "v", "id": "i", "links": []}"#)),
        Err(SchemaError::MissingField(Field::Properties))
    );
}

#[test]
fn catalog_decoder_wants_a_description() {
    let doc = parse(r#"{"stac_version": "v", "id": "i", "links": [], "description": "d"}"#);
    let catalog = Catalog::from_value(&doc).unwrap();
    assert_eq!(catalog.description, "d");
    assert_eq!(catalog.core.additional_fields, parse("{}"));
    let doc = parse(r#"{"stac_version": "v", "id": "i", "links": [], "description": 4}"#);
    assert_eq!(
        Catalog::from_value(&doc),
        Err(SchemaError::InvalidField(Field::Description))
    );
}

#[test]
fn collection_decoder_wants_description_then_license() {
    let doc = parse(
        r#"{"stac_version": "v", "id": "i", "links": [], "description": "d", "license": "l"}"#,
    );
    let collection = Collection::from_value(&doc).unwrap();
    assert_eq!(collection.description, "d");
    assert_eq!(collection.license, "l");
    let doc = parse(r#"{"stac_version": "v", "id": "i", "links": [], "license": "l"}"#);
    assert_eq!(
        Collection::from_value(&doc),
        Err(SchemaError::MissingField(Field::Description))
    );
    let doc = parse(r#"{"stac_version": "v", "id": "i", "links": [], "description": "d"}"#);
    assert_eq!(
        Collection::from_value(&doc),
        Err(SchemaError::MissingField(Field::License))
    );
}

#[test]
fn schema_error_is_wrapped_unchanged() {
    let inner = SchemaError::InvalidField(Field::Links);
    assert_eq!(Error::from(inner), Error::Schema(inner));
    let inner = SchemaError::MissingField(Field::Id);
    assert_eq!(Error::from(inner), Error::Schema(inner));
}
