//! Compile-time descriptor extraction for type definitions, plus a bridge
//! that hands the extracted descriptor to an embedded Lua runtime.
//!
//! The crate takes a plain-value picture of a type definition (its name,
//! attributes, generic clauses and either a field list or a variant list),
//! projects it into a serializable descriptor, turns the descriptor into a
//! dynamic value tree, and binds that tree as a global of a Lua state before
//! running a user-supplied generation script against it.

pub mod ast;
pub mod builders;
pub mod descriptor;
pub mod engine;
pub mod error;
pub mod laws;
pub mod syntax;
pub mod text;
pub mod value;
