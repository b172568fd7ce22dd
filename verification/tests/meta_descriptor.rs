//! Resolution of the mandatory controlling attribute and composition of whole
//! descriptors for product and sum types.

use luaproc::ast::{AttrNode, AttrPayload, FieldNode, TypeBody, TypeNode, VariantNode, VariantShape};
use luaproc::builders::build_descriptor;
use luaproc::descriptor::{Descriptor, Generics, LuaMeta, VariantStyle};
use luaproc::error::ProcError;

fn script_attr(path: &str) -> AttrNode {
    AttrNode {
        name: Some("luaproc".to_string()),
        outer_src: format!("luaproc (\"{path}\")"),
        payload: AttrPayload::List {
            args_src: format!("\"{path}\""),
        },
    }
}

fn empty_generics() -> Generics {
    Generics {
        impl_clause: String::new(),
        type_clause: String::new(),
        where_clause: String::new(),
    }
}

fn named(name: &str, ty: &str) -> FieldNode {
    FieldNode {
        name: Some(name.to_string()),
        ty_src: ty.to_string(),
        attrs: Vec::new(),
    }
}

fn product(attrs: Vec<AttrNode>, fields: Vec<FieldNode>) -> TypeNode {
    TypeNode {
        name: "Point".to_string(),
        attrs,
        generics: empty_generics(),
        body: TypeBody::Product(fields),
    }
}

#[test]
fn missing_controlling_attribute_aborts() {
    let node = product(Vec::new(), vec![named("id", "u64")]);
    let err = build_descriptor(&node).unwrap_err();
    assert!(matches!(err, ProcError::MissingScriptAttr));
    let msg = err.message();
    assert_eq!(
        msg,
        "Failed to find script path. Specify #[luaproc(\"script_path\")]"
    );
}

#[test]
fn controlling_attribute_resolves_script_path() {
    let node = product(vec![script_attr("gen/point.lua")], vec![named("id", "u64")]);
    let (_, path) = build_descriptor(&node).unwrap();
    assert_eq!(path, "gen/point.lua");
}

#[test]
fn first_wellformed_controlling_attribute_wins() {
    let malformed = AttrNode {
        name: Some("luaproc".to_string()),
        outer_src: "luaproc (1 + 2)".to_string(),
        payload: AttrPayload::List {
            args_src: "1 + 2".to_string(),
        },
    };
    let node = product(
        vec![malformed, script_attr("first.lua"), script_attr("second.lua")],
        Vec::new(),
    );
    let (_, path) = build_descriptor(&node).unwrap();
    assert_eq!(path, "first.lua");
}

#[test]
fn bare_path_controlling_attribute_does_not_count() {
    let bare = AttrNode {
        name: Some("luaproc".to_string()),
        outer_src: "luaproc".to_string(),
        payload: AttrPayload::Path,
    };
    let node = product(vec![bare], Vec::new());
    assert!(matches!(
        build_descriptor(&node),
        Err(ProcError::MissingScriptAttr)
    ));
}

#[test]
fn meta_keeps_controlling_attribute_and_generics() {
    let node = TypeNode {
        name: "Wrapper".to_string(),
        attrs: vec![script_attr("w.lua")],
        generics: Generics {
            impl_clause: "< T : Clone >".to_string(),
            type_clause: "< T >".to_string(),
            where_clause: "where T : Send".to_string(),
        },
        body: TypeBody::Product(Vec::new()),
    };
    let (meta, path) = LuaMeta::new(&node).unwrap();
    assert_eq!(path, "w.lua");
    assert_eq!(meta.ident, "Wrapper");
    assert_eq!(meta.attributes.len(), 1);
    assert_eq!(meta.attributes[0].name.as_deref(), Some("luaproc"));
    assert_eq!(meta.generics.impl_clause, "< T : Clone >");
    assert_eq!(meta.generics.type_clause, "< T >");
    assert_eq!(meta.generics.where_clause, "where T : Send");
}

#[test]
fn enum_descriptor_mixes_all_three_shapes() {
    let node = TypeNode {
        name: "Shape".to_string(),
        attrs: vec![script_attr("shape.lua")],
        generics: empty_generics(),
        body: TypeBody::Sum(vec![
            VariantNode {
                name: "Empty".to_string(),
                attrs: Vec::new(),
                shape: VariantShape::Unit,
                discriminant_src: None,
            },
            VariantNode {
                name: "Pair".to_string(),
                attrs: Vec::new(),
                shape: VariantShape::Tuple(vec![
                    FieldNode {
                        name: None,
                        ty_src: "i32".to_string(),
                        attrs: Vec::new(),
                    },
                    FieldNode {
                        name: None,
                        ty_src: "i32".to_string(),
                        attrs: Vec::new(),
                    },
                ]),
                discriminant_src: None,
            },
            VariantNode {
                name: "Labeled".to_string(),
                attrs: Vec::new(),
                shape: VariantShape::Struct(vec![named("text", "String")]),
                discriminant_src: None,
            },
        ]),
    };
    let (descriptor, _) = build_descriptor(&node).unwrap();
    let e = match descriptor {
        Descriptor::Sum(e) => e,
        Descriptor::Product(_) => panic!("expected a sum descriptor"),
    };
    assert_eq!(e.variants.len(), 3);
    assert_eq!(e.fields.len(), 0);
    let names: Vec<&str> = e.variants.iter().map(|v| v.name.as_str()).collect();
    assert_eq!(names, vec!["Empty", "Pair", "Labeled"]);
    let styles: Vec<&str> = e.variants.iter().map(|v| v.style.as_str()).collect();
    assert_eq!(styles, vec!["unit", "tuple", "struct"]);
    let lens: Vec<usize> = e.variants.iter().map(|v| v.fields.len()).collect();
    assert_eq!(lens, vec![0, 2, 1]);
    for v in &e.variants {
        let flags = (v.is_unit, v.is_tuple);
        match v.style {
            VariantStyle::Unit => assert_eq!(flags, (true, false)),
            VariantStyle::Tuple => assert_eq!(flags, (false, true)),
            VariantStyle::Struct => assert_eq!(flags, (false, false)),
        }
    }
}

#[test]
fn empty_enum_descriptor_has_no_variants() {
    let node = TypeNode {
        name: "Never".to_string(),
        attrs: vec![script_attr("n.lua")],
        generics: empty_generics(),
        body: TypeBody::Sum(Vec::new()),
    };
    let (descriptor, _) = build_descriptor(&node).unwrap();
    match descriptor {
        Descriptor::Sum(e) => {
            assert_eq!(e.variants.len(), 0);
            assert_eq!(e.fields.len(), 0);
            assert_eq!(e.meta.ident, "Never");
        }
        Descriptor::Product(_) => panic!("expected a sum descriptor"),
    }
}

#[test]
fn bad_field_attribute_aborts_the_whole_build() {
    let bad_field = FieldNode {
        name: Some("x".to_string()),
        ty_src: "u8".to_string(),
        attrs: vec![AttrNode {
            name: Some("broken".to_string()),
            outer_src: "broken(fn fn)".to_string(),
            payload: AttrPayload::List {
                args_src: "fn fn".to_string(),
            },
        }],
    };
    let node = product(vec![script_attr("p.lua")], vec![bad_field]);
    let err = build_descriptor(&node).unwrap_err();
    assert!(err.message().contains("broken(fn fn)"));
}
