//! Shape of the serialized value tree: record keys in declaration order,
//! lists in input order, optional slots as nil, style tags as text.

use luaproc::ast::{AttrNode, AttrPayload, FieldNode, TypeBody, TypeNode};
use luaproc::builders::build_descriptor;
use luaproc::descriptor::Generics;
use luaproc::value::{descriptor_value, Entry, Value};

fn script_attr(path: &str) -> AttrNode {
    AttrNode {
        name: Some("luaproc".to_string()),
        outer_src: format!("luaproc (\"{path}\")"),
        payload: AttrPayload::List {
            args_src: format!("\"{path}\""),
        },
    }
}

fn named(name: &str, ty: &str) -> FieldNode {
    FieldNode {
        name: Some(name.to_string()),
        ty_src: ty.to_string(),
        attrs: Vec::new(),
    }
}

fn record_entries(v: &Value) -> &Vec<Entry> {
    match v {
        Value::Record(es) => es,
        _ => panic!("expected a record"),
    }
}

fn list_items(v: &Value) -> &Vec<Value> {
    match v {
        Value::List(xs) => xs,
        _ => panic!("expected a list"),
    }
}

fn text(v: &Value) -> &str {
    match v {
        Value::Text(s) => s.as_str(),
        _ => panic!("expected text"),
    }
}

#[test]
fn struct_descriptor_serializes_fields_then_meta() {
    let node = TypeNode {
        name: "Point".to_string(),
        attrs: vec![script_attr("p.lua")],
        generics: Generics {
            impl_clause: String::new(),
            type_clause: String::new(),
            where_clause: String::new(),
        },
        body: TypeBody::Product(vec![named("id", "u64"), named("name", "String")]),
    };
    let (descriptor, _) = build_descriptor(&node).unwrap();
    let tree = descriptor_value(&descriptor);
    let top = record_entries(&tree);
    assert_eq!(top.len(), 2);
    assert_eq!(top[0].key, "fields");
    assert_eq!(top[1].key, "meta");

    let fields = list_items(&top[0].val);
    assert_eq!(fields.len(), 2);
    let first = record_entries(&fields[0]);
    assert_eq!(first[0].key, "name");
    assert_eq!(text(&first[0].val), "id");
    assert_eq!(first[1].key, "type");
    assert_eq!(text(&first[1].val), "u64");
    assert_eq!(first[2].key, "attributes");
    assert_eq!(list_items(&first[2].val).len(), 0);
    let second = record_entries(&fields[1]);
    assert_eq!(text(&second[0].val), "name");
    assert_eq!(text(&second[1].val), "String");

    let meta = record_entries(&top[1].val);
    assert_eq!(meta[0].key, "ident");
    assert_eq!(text(&meta[0].val), "Point");
    assert_eq!(meta[1].key, "attributes");
    let meta_attrs = list_items(&meta[1].val);
    assert_eq!(meta_attrs.len(), 1);
    let control = record_entries(&meta_attrs[0]);
    assert_eq!(control[0].key, "name");
    assert_eq!(text(&control[0].val), "luaproc");
    assert_eq!(control[3].key, "style");
    assert_eq!(text(&control[3].val), "list");
    assert_eq!(meta[2].key, "generics");
    let generics = record_entries(&meta[2].val);
    assert_eq!(generics[0].key, "impl");
    assert_eq!(generics[1].key, "type");
    assert_eq!(generics[2].key, "where");
}

#[test]
fn absent_name_serializes_as_nil() {
    let attrs = vec![AttrNode {
        name: None,
        outer_src: "a :: b".to_string(),
        payload: AttrPayload::Path,
    }];
    let out = luaproc::builders::attributes(&attrs).unwrap();
    let v = luaproc::value::value_of_attr(&out[0]);
    let entries = record_entries(&v);
    assert_eq!(entries[0].key, "name");
    assert!(matches!(entries[0].val, Value::Nil));
    assert_eq!(entries[3].key, "style");
    assert_eq!(text(&entries[3].val), "path");
}
