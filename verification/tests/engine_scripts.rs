//! The bridge against a real Lua runtime: binding descriptors as globals,
//! running scripts, and surfacing script failures with the script's path.

use luaproc::ast::{AttrNode, AttrPayload, FieldNode, TypeBody, TypeNode, VariantNode, VariantShape};
use luaproc::builders::build_descriptor;
use luaproc::descriptor::Generics;
use luaproc::engine::{lua_exec_code, lua_set_var, run_script};
use luaproc::error::ProcError;
use luaproc::value::Value;

fn script_attr(path: &str) -> AttrNode {
    AttrNode {
        name: Some("luaproc".to_string()),
        outer_src: format!("luaproc (\"{path}\")"),
        payload: AttrPayload::List {
            args_src: format!("\"{path}\""),
        },
    }
}

fn empty_generics() -> Generics {
    Generics {
        impl_clause: String::new(),
        type_clause: String::new(),
        where_clause: String::new(),
    }
}

fn product_node() -> TypeNode {
    TypeNode {
        name: "Point".to_string(),
        attrs: vec![script_attr("gen/point.lua")],
        generics: empty_generics(),
        body: TypeBody::Product(vec![
            FieldNode {
                name: Some("id".to_string()),
                ty_src: "u64".to_string(),
                attrs: Vec::new(),
            },
            FieldNode {
                name: Some("name".to_string()),
                ty_src: "String".to_string(),
                attrs: Vec::new(),
            },
        ]),
    }
}

#[test]
fn script_sees_two_fields_in_order() {
    let (descriptor, path) = build_descriptor(&product_node()).unwrap();
    let lua = mlua::Lua::new();
    let code = "\
        assert(#item.fields == 2)\n\
        assert(item.fields[1].name == 'id')\n\
        assert(item.fields[1].type == 'u64')\n\
        assert(item.fields[2].name == 'name')\n\
        assert(item.meta.ident == 'Point')\n";
    run_script(&lua, "item", &descriptor, code, &path).unwrap();
}

#[test]
fn script_sees_variant_styles_and_flags() {
    let node = TypeNode {
        name: "Shape".to_string(),
        attrs: vec![script_attr("gen/shape.lua")],
        generics: empty_generics(),
        body: TypeBody::Sum(vec![
            VariantNode {
                name: "Empty".to_string(),
                attrs: Vec::new(),
                shape: VariantShape::Unit,
                discriminant_src: Some("7".to_string()),
            },
            VariantNode {
                name: "Pair".to_string(),
                attrs: Vec::new(),
                shape: VariantShape::Tuple(vec![
                    FieldNode {
                        name: None,
                        ty_src: "i32".to_string(),
                        attrs: Vec::new(),
                    },
                    FieldNode {
                        name: None,
                        ty_src: "i32".to_string(),
                        attrs: Vec::new(),
                    },
                ]),
                discriminant_src: None,
            },
        ]),
    };
    let (descriptor, path) = build_descriptor(&node).unwrap();
    let lua = mlua::Lua::new();
    let code = "\
        assert(#item.variants == 2)\n\
        assert(item.variants[1].name == 'Empty')\n\
        assert(item.variants[1].style == 'unit')\n\
        assert(item.variants[1].is_unit == true)\n\
        assert(item.variants[1].discriminant == '7')\n\
        assert(item.variants[2].style == 'tuple')\n\
        assert(item.variants[2].is_tuple == true)\n\
        assert(item.variants[2].discriminant == nil)\n\
        assert(item.variants[2].fields[1].name == '_0')\n\
        assert(item.variants[2].fields[2].name == '_1')\n\
        assert(#item.fields == 0)\n";
    run_script(&lua, "item", &descriptor, code, &path).unwrap();
}

#[test]
fn script_error_report_names_path_and_message() {
    let lua = mlua::Lua::new();
    let err = lua_exec_code(&lua, "error('boom')", "gen/fail.lua").unwrap_err();
    match &err {
        ProcError::Script { path, detail } => {
            assert_eq!(path, "gen/fail.lua");
            assert!(detail.contains("boom"));
        }
        _ => panic!("expected a script error"),
    }
    let msg = err.message();
    assert!(msg.contains("gen/fail.lua"));
    assert!(msg.contains("boom"));
    assert!(msg.starts_with("error in Lua script "));
}

#[test]
fn load_failure_is_a_script_error_too() {
    let lua = mlua::Lua::new();
    let err = lua_exec_code(&lua, "this is not lua", "gen/syntax.lua").unwrap_err();
    assert!(err.message().contains("gen/syntax.lua"));
}

#[test]
fn bound_global_survives_until_execution() {
    let lua = mlua::Lua::new();
    lua_set_var(&lua, "greeting", &Value::Text("hello".to_string())).unwrap();
    lua_exec_code(&lua, "assert(greeting == 'hello')", "inline").unwrap();
}

#[test]
fn nested_tree_binds_bool_nil_and_lists() {
    let lua = mlua::Lua::new();
    let tree = Value::Record(vec![
        luaproc::value::Entry {
            key: "flag".to_string(),
            val: Value::Flag(true),
        },
        luaproc::value::Entry {
            key: "absent".to_string(),
            val: Value::Nil,
        },
        luaproc::value::Entry {
            key: "items".to_string(),
            val: Value::List(vec![
                Value::Text("a".to_string()),
                Value::Text("b".to_string()),
            ]),
        },
    ]);
    lua_set_var(&lua, "t", &tree).unwrap();
    let code = "\
        assert(t.flag == true)\n\
        assert(t.absent == nil)\n\
        assert(#t.items == 2)\n\
        assert(t.items[1] == 'a')\n\
        assert(t.items[2] == 'b')\n";
    lua_exec_code(&lua, code, "inline").unwrap();
}
