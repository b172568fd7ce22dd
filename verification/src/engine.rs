//! The scripting bridge: a serialized value tree is rebuilt as a Lua value,
//! bound as a global of a Lua state, and a script chunk is run against that
//! state. Each Lua state is created fresh by the caller and shared with
//! nothing. Every failure surfaces as a `ProcError`; a script failure carries
//! the script's path next to the runtime's own message.

use mlua::Value as LuaValue;
use vstd::prelude::*;

use crate::descriptor::Descriptor;
use crate::error::{ProcError, ProcErrorV};
use crate::value::{descriptor_rep, Value};

verus! {

broadcast use vstd::std_specs::vec::axiom_vec_index_decreases;

#[verifier::external_type_specification]
#[verifier::external_body]
/// A Lua interpreter state, opaque to the verifier.
pub struct ExLua(mlua::Lua);

#[verifier::external_type_specification]
#[verifier::external_body]
/// A Lua table handle, opaque to the verifier.
pub struct ExLuaTable(mlua::Table);

#[verifier::external_type_specification]
#[verifier::external_body]
/// A Lua value, opaque to the verifier.
pub struct ExLuaValue(LuaValue);

/// Relies on `mlua::Lua::create_table`: makes a fresh empty table.
#[verifier::external_body]
fn new_table(lua: &mlua::Lua) -> (r: Result<mlua::Table, String>) {
    lua.create_table().map_err(|e| e.to_string())
}

/// Relies on `mlua::Table::set` with an integer key.
#[verifier::external_body]
fn table_set_index(t: &mlua::Table, idx: usize, v: LuaValue) -> (r: Result<(), String>) {
    t.set(idx, v).map_err(|e| e.to_string())
}

/// Relies on `mlua::Table::set` with a string key.
#[verifier::external_body]
fn table_set_key(t: &mlua::Table, key: &str, v: LuaValue) -> (r: Result<(), String>) {
    t.set(key, v).map_err(|e| e.to_string())
}

/// Relies on `mlua::Lua::create_string`: interns text in the Lua state.
#[verifier::external_body]
fn lua_text(lua: &mlua::Lua, s: &str) -> (r: Result<LuaValue, String>) {
    lua.create_string(s).map(LuaValue::String).map_err(|e| e.to_string())
}

/// Relies on `mlua::Value::Boolean` construction.
#[verifier::external_body]
fn lua_flag(b: bool) -> (r: LuaValue) {
    LuaValue::Boolean(b)
}

/// Relies on `mlua::Value::Nil` construction.
#[verifier::external_body]
fn lua_nil() -> (r: LuaValue) {
    LuaValue::Nil
}

/// Relies on `mlua::Value::Table` construction.
#[verifier::external_body]
fn lua_table_value(t: mlua::Table) -> (r: LuaValue) {
    LuaValue::Table(t)
}

/// Relies on `mlua::Lua::globals`: the state's global namespace table.
#[verifier::external_body]
fn lua_globals(lua: &mlua::Lua) -> (t: mlua::Table) {
    lua.globals()
}

/// Relies on `mlua::Lua::load` and `mlua::Chunk::exec`: loads `code` as one
/// chunk and runs it to completion against the state's current globals; on a
/// load or runtime failure the runtime's own message comes back.
#[verifier::external_body]
fn exec_chunk(lua: &mlua::Lua, code: &str) -> (r: Result<(), String>) {
    match lua.load(code).exec() {
        Ok(()) => Ok(()),
        Err(e) => Err(e.to_string()),
    }
}

/// Rebuilds a value tree as a Lua value: text, booleans and `Nil` map
/// directly, a list becomes a table keyed `1..n` in order, a record becomes a
/// table keyed by its entry names. A failure of the runtime is handed back,
/// never swallowed.
#[verifier::loop_isolation(false)]
fn to_lua(lua: &mlua::Lua, v: &Value) -> (r: Result<LuaValue, String>)
    decreases *v,
{
    match v {
        Value::Text(s) => lua_text(lua, s.as_str()),
        Value::Flag(b) => Ok(lua_flag(*b)),
        Value::Nil => Ok(lua_nil()),
        Value::List(xs) => {
            let t = match new_table(lua) {
                Ok(t) => t,
                Err(e) => {
                    return Err(e);
                },
            };
            let mut i: usize = 0;
            while i < xs.len()
                invariant
                    0 <= i <= xs@.len(),
                decreases xs@.len() - i,
            {
                let item = match to_lua(lua, &xs[i]) {
                    Ok(item) => item,
                    Err(e) => {
                        return Err(e);
                    },
                };
                match table_set_index(&t, i + 1, item) {
                    Ok(()) => {},
                    Err(e) => {
                        return Err(e);
                    },
                }
                i += 1;
            }
            Ok(lua_table_value(t))
        },
        Value::Record(es) => {
            let t = match new_table(lua) {
                Ok(t) => t,
                Err(e) => {
                    return Err(e);
                },
            };
            let mut i: usize = 0;
            while i < es.len()
                invariant
                    0 <= i <= es@.len(),
                decreases es@.len() - i,
            {
                let entry = &es[i];
                let item = match to_lua(lua, &entry.val) {
                    Ok(item) => item,
                    Err(e) => {
                        return Err(e);
                    },
                };
                match table_set_key(&t, entry.key.as_str(), item) {
                    Ok(()) => {},
                    Err(e) => {
                        return Err(e);
                    },
                }
                i += 1;
            }
            Ok(lua_table_value(t))
        },
    }
}

/// Binds the Lua projection of a value tree under the global name `var`.
/// A serialization or binding failure is reported with that name.
pub fn lua_set_var(lua: &mlua::Lua, var: &str, v: &Value) -> (r: Result<(), ProcError>)
    ensures
        r matches Err(e) ==> e@ matches ProcErrorV::Bind { var: bv, detail: _ } && bv == var@,
{
    let converted = match to_lua(lua, v) {
        Ok(lv) => lv,
        Err(detail) => {
            return Err(ProcError::Bind { var: var.to_owned(), detail });
        },
    };
    let globals = lua_globals(lua);
    match table_set_key(&globals, var, converted) {
        Ok(()) => Ok(()),
        Err(detail) => Err(ProcError::Bind { var: var.to_owned(), detail }),
    }
}

/// Loads and runs `code` as one Lua chunk against the state's current
/// globals; the bound descriptors must already be in place. `path` only
/// labels failures: any load or runtime error is reported with the script's
/// path beside the runtime's own message.
pub fn lua_exec_code(lua: &mlua::Lua, code: &str, path: &str) -> (r: Result<(), ProcError>)
    ensures
        r matches Err(e) ==> e@ matches ProcErrorV::Script { path: p, detail: _ } && p == path@,
{
    match exec_chunk(lua, code) {
        Ok(()) => Ok(()),
        Err(detail) => Err(ProcError::Script { path: path.to_owned(), detail }),
    }
}

/// The whole bridge step for one finished descriptor: serializes it, binds
/// it under `var`, then runs the script chunk. Bind-then-run, never
/// interleaved; the first failure aborts the step.
pub fn run_script(
    lua: &mlua::Lua,
    var: &str,
    d: &Descriptor,
    code: &str,
    path: &str,
) -> (r: Result<(), ProcError>)
    ensures
        r matches Err(e) ==> (e@ matches ProcErrorV::Bind { var: bv, detail: _ } && bv == var@)
            || (e@ matches ProcErrorV::Script { path: p, detail: _ } && p == path@),
{
    let tree = crate::value::descriptor_value(d);
    proof {
        assert(tree@ == descriptor_rep(d@));
    }
    match lua_set_var(lua, var, &tree) {
        Ok(()) => {},
        Err(e) => {
            return Err(e);
        },
    }
    lua_exec_code(lua, code, path)
}

} // verus!
