//! Field projection with positional fallback naming, and variant projection
//! with shape flags, style tags and discriminants.

use luaproc::ast::{FieldNode, VariantNode, VariantShape};
use luaproc::builders::{fields, project_variant};
use luaproc::descriptor::VariantStyle;

fn unnamed(ty: &str) -> FieldNode {
    FieldNode {
        name: None,
        ty_src: ty.to_string(),
        attrs: Vec::new(),
    }
}

fn named(name: &str, ty: &str) -> FieldNode {
    FieldNode {
        name: Some(name.to_string()),
        ty_src: ty.to_string(),
        attrs: Vec::new(),
    }
}

#[test]
fn positional_names_count_from_zero() {
    let nodes = vec![unnamed("i32"), unnamed("u8"), unnamed("String")];
    let out = fields(&nodes).unwrap();
    let names: Vec<&str> = out.iter().map(|f| f.name.as_str()).collect();
    assert_eq!(names, vec!["_0", "_1", "_2"]);
    let tys: Vec<&str> = out.iter().map(|f| f.ty.as_str()).collect();
    assert_eq!(tys, vec!["i32", "u8", "String"]);
}

#[test]
fn positional_names_past_ten() {
    let nodes: Vec<FieldNode> = (0..12).map(|_| unnamed("u8")).collect();
    let out = fields(&nodes).unwrap();
    assert_eq!(out[9].name, "_9");
    assert_eq!(out[10].name, "_10");
    assert_eq!(out[11].name, "_11");
}

#[test]
fn declared_names_pass_through_in_order() {
    let nodes = vec![named("id", "u64"), named("name", "String")];
    let out = fields(&nodes).unwrap();
    assert_eq!(out[0].name, "id");
    assert_eq!(out[1].name, "name");
    assert_eq!(out.len(), 2);
}

#[test]
fn unit_variant_shape() {
    let v = project_variant(&VariantNode {
        name: "Empty".to_string(),
        attrs: Vec::new(),
        shape: VariantShape::Unit,
        discriminant_src: None,
    })
    .unwrap();
    assert_eq!(v.name, "Empty");
    assert!(v.is_unit);
    assert!(!v.is_tuple);
    assert!(matches!(v.style, VariantStyle::Unit));
    assert_eq!(v.fields.len(), 0);
    assert!(v.discriminant.is_none());
}

#[test]
fn tuple_variant_shape_and_positional_fields() {
    let v = project_variant(&VariantNode {
        name: "Pair".to_string(),
        attrs: Vec::new(),
        shape: VariantShape::Tuple(vec![unnamed("i32"), unnamed("i32")]),
        discriminant_src: None,
    })
    .unwrap();
    assert!(v.is_tuple);
    assert!(!v.is_unit);
    assert!(matches!(v.style, VariantStyle::Tuple));
    assert_eq!(v.fields.len(), 2);
    assert_eq!(v.fields[0].name, "_0");
    assert_eq!(v.fields[1].name, "_1");
}

#[test]
fn struct_variant_shape_and_named_fields() {
    let v = project_variant(&VariantNode {
        name: "Labeled".to_string(),
        attrs: Vec::new(),
        shape: VariantShape::Struct(vec![named("text", "String")]),
        discriminant_src: None,
    })
    .unwrap();
    assert!(!v.is_tuple);
    assert!(!v.is_unit);
    assert!(matches!(v.style, VariantStyle::Struct));
    assert_eq!(v.fields.len(), 1);
    assert_eq!(v.fields[0].name, "text");
}

#[test]
fn discriminant_text_passes_through() {
    let v = project_variant(&VariantNode {
        name: "Third".to_string(),
        attrs: Vec::new(),
        shape: VariantShape::Unit,
        discriminant_src: Some("3".to_string()),
    })
    .unwrap();
    assert_eq!(v.discriminant.as_deref(), Some("3"));
}

#[test]
fn empty_tuple_payload_is_still_a_tuple() {
    // A case written `Nothing()` keeps the tuple style and flags even though
    // it carries no fields; only a payload-free case counts as unit.
    let v = project_variant(&VariantNode {
        name: "Nothing".to_string(),
        attrs: Vec::new(),
        shape: VariantShape::Tuple(Vec::new()),
        discriminant_src: None,
    })
    .unwrap();
    assert!(v.is_tuple);
    assert!(!v.is_unit);
    assert!(matches!(v.style, VariantStyle::Tuple));
    assert_eq!(v.fields.len(), 0);
}

#[test]
fn empty_field_list_projects_empty() {
    let out = fields(&Vec::new()).unwrap();
    assert_eq!(out.len(), 0);
}

#[test]
fn style_tags_render_as_their_names() {
    assert_eq!(VariantStyle::Struct.as_str(), "struct");
    assert_eq!(VariantStyle::Tuple.as_str(), "tuple");
    assert_eq!(VariantStyle::Unit.as_str(), "unit");
}
