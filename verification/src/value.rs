//! The dynamic value tree a descriptor serializes to before it is handed to
//! the scripting runtime: one generic structural projection, driven purely by
//! the descriptor's declared shape. Records keep their entries in
//! declaration order; lists keep input order; optional slots become `Nil`;
//! style tags become their text.

use vstd::prelude::*;

use crate::descriptor::{
    attr_style_text, variant_style_text, Attr, AttrV, Descriptor, DescriptorV, Field, FieldV,
    Generics, GenericsV, LuaEnum, LuaEnumV, LuaMeta, LuaMetaV, LuaStruct, LuaStructV, Variant,
    VariantV,
};

verus! {

broadcast use vstd::std_specs::vec::axiom_vec_index_decreases;

/// One keyed entry of a record value.
#[derive(Debug)]
pub struct Entry {
    /// The entry's key.
    pub key: String,
    /// The entry's value.
    pub val: Value,
}

/// One node of the dynamic value tree.
#[derive(Debug)]
pub enum Value {
    /// A text value.
    Text(String),
    /// A boolean value.
    Flag(bool),
    /// The absent value an empty optional slot serializes to.
    Nil,
    /// An ordered list.
    List(Vec<Value>),
    /// An ordered record of keyed entries.
    Record(Vec<Entry>),
}

/// Spec-level record entry.
pub struct EntryV {
    pub key: Seq<char>,
    pub val: ValueV,
}

/// Spec-level value tree.
pub enum ValueV {
    Text(Seq<char>),
    Flag(bool),
    Nil,
    List(Seq<ValueV>),
    Record(Seq<EntryV>),
}

/// The spec-level picture of a value tree.
pub open spec fn value_rep(v: Value) -> ValueV
    decreases v,
{
    match v {
        Value::Text(s) => ValueV::Text(s@),
        Value::Flag(b) => ValueV::Flag(b),
        Value::Nil => ValueV::Nil,
        Value::List(xs) => ValueV::List(
            Seq::new(
                xs@.len(),
                |i: int|
                    if 0 <= i < xs@.len() {
                        value_rep(xs@[i])
                    } else {
                        ValueV::Nil
                    },
            ),
        ),
        Value::Record(es) => ValueV::Record(
            Seq::new(
                es@.len(),
                |i: int|
                    if 0 <= i < es@.len() {
                        EntryV { key: es@[i].key@, val: value_rep(es@[i].val) }
                    } else {
                        EntryV { key: Seq::empty(), val: ValueV::Nil }
                    },
            ),
        ),
    }
}

impl View for Value {
    type V = ValueV;

    open spec fn view(&self) -> ValueV {
        value_rep(*self)
    }
}

/// The serialization of an optional text slot: the text, or `Nil`.
pub open spec fn opt_text_value(o: Option<Seq<char>>) -> ValueV {
    match o {
        Option::Some(s) => ValueV::Text(s),
        Option::None => ValueV::Nil,
    }
}

/// The serialization of one classified attribute.
pub open spec fn attr_value(a: AttrV) -> ValueV {
    ValueV::Record(
        seq![
            EntryV { key: "name"@, val: opt_text_value(a.name) },
            EntryV { key: "inner"@, val: ValueV::Text(a.inner) },
            EntryV { key: "outer"@, val: ValueV::Text(a.outer) },
            EntryV { key: "style"@, val: ValueV::Text(attr_style_text(a.style)) },
        ],
    )
}

/// The serializations of a sequence of attributes, in order.
pub open spec fn attr_values(s: Seq<AttrV>) -> Seq<ValueV> {
    Seq::new(s.len(), |i: int| attr_value(s[i]))
}

/// The serialization of one projected field.
pub open spec fn field_value(f: FieldV) -> ValueV {
    ValueV::Record(
        seq![
            EntryV { key: "name"@, val: ValueV::Text(f.name) },
            EntryV { key: "type"@, val: ValueV::Text(f.ty) },
            EntryV { key: "attributes"@, val: ValueV::List(attr_values(f.attributes)) },
        ],
    )
}

/// The serializations of a sequence of fields, in order.
pub open spec fn field_values(s: Seq<FieldV>) -> Seq<ValueV> {
    Seq::new(s.len(), |i: int| field_value(s[i]))
}

/// The serialization of one projected variant.
pub open spec fn variant_value(v: VariantV) -> ValueV {
    ValueV::Record(
        seq![
            EntryV { key: "name"@, val: ValueV::Text(v.name) },
            EntryV { key: "attributes"@, val: ValueV::List(attr_values(v.attributes)) },
            EntryV { key: "is_tuple"@, val: ValueV::Flag(v.is_tuple) },
            EntryV { key: "is_unit"@, val: ValueV::Flag(v.is_unit) },
            EntryV { key: "discriminant"@, val: opt_text_value(v.discriminant) },
            EntryV { key: "fields"@, val: ValueV::List(field_values(v.fields)) },
            EntryV { key: "style"@, val: ValueV::Text(variant_style_text(v.style)) },
        ],
    )
}

/// The serializations of a sequence of variants, in order.
pub open spec fn variant_values(s: Seq<VariantV>) -> Seq<ValueV> {
    Seq::new(s.len(), |i: int| variant_value(s[i]))
}

/// The serialization of the generic clauses.
pub open spec fn generics_value(g: GenericsV) -> ValueV {
    ValueV::Record(
        seq![
            EntryV { key: "impl"@, val: ValueV::Text(g.impl_clause) },
            EntryV { key: "type"@, val: ValueV::Text(g.type_clause) },
            EntryV { key: "where"@, val: ValueV::Text(g.where_clause) },
        ],
    )
}

/// The serialization of the type-level metadata.
pub open spec fn meta_value(m: LuaMetaV) -> ValueV {
    ValueV::Record(
        seq![
            EntryV { key: "ident"@, val: ValueV::Text(m.ident) },
            EntryV { key: "attributes"@, val: ValueV::List(attr_values(m.attributes)) },
            EntryV { key: "generics"@, val: generics_value(m.generics) },
        ],
    )
}

/// The serialization of a product descriptor.
pub open spec fn struct_value(s: LuaStructV) -> ValueV {
    ValueV::Record(
        seq![
            EntryV { key: "fields"@, val: ValueV::List(field_values(s.fields)) },
            EntryV { key: "meta"@, val: meta_value(s.meta) },
        ],
    )
}

/// The serialization of a sum descriptor.
pub open spec fn enum_value(e: LuaEnumV) -> ValueV {
    ValueV::Record(
        seq![
            EntryV { key: "variants"@, val: ValueV::List(variant_values(e.variants)) },
            EntryV { key: "fields"@, val: ValueV::List(field_values(e.fields)) },
            EntryV { key: "meta"@, val: meta_value(e.meta) },
        ],
    )
}

/// The serialization of a descriptor of either kind.
pub open spec fn descriptor_rep(d: DescriptorV) -> ValueV {
    match d {
        DescriptorV::Product(s) => struct_value(s),
        DescriptorV::Sum(e) => enum_value(e),
    }
}

/// Serializes an optional text slot.
fn value_of_opt_text(o: &Option<String>) -> (v: Value)
    ensures
        v@ == opt_text_value(crate::ast::opt_view(*o)),
{
    match o {
        Option::Some(s) => text_value(s),
        Option::None => Value::Nil,
    }
}

/// Wraps owned text.
fn text_value(s: &String) -> (v: Value)
    ensures
        v@ == ValueV::Text(s@),
{
    Value::Text(s.clone())
}

/// Wraps borrowed text.
fn text_of_str(s: &str) -> (v: Value)
    ensures
        v@ == ValueV::Text(s@),
{
    Value::Text(s.to_owned())
}

/// Wraps a boolean.
fn flag_value(b: bool) -> (v: Value)
    ensures
        v@ == ValueV::Flag(b),
{
    Value::Flag(b)
}

/// Serializes one classified attribute.
pub fn value_of_attr(a: &Attr) -> (v: Value)
    ensures
        v@ == attr_value(a@),
{
    let mut entries: Vec<Entry> = Vec::new();
    entries.push(Entry { key: "name".to_owned(), val: value_of_opt_text(&a.name) });
    entries.push(Entry { key: "inner".to_owned(), val: text_value(&a.inner) });
    entries.push(Entry { key: "outer".to_owned(), val: text_value(&a.outer) });
    entries.push(Entry { key: "style".to_owned(), val: text_of_str(a.style.as_str()) });
    let v = Value::Record(entries);
    proof {
        assert(v@ matches ValueV::Record(es) && es =~= attr_value(a@)->Record_0);
    }
    v
}

/// Serializes a list of classified attributes, in order.
pub fn value_of_attrs(attrs: &Vec<Attr>) -> (v: Value)
    ensures
        v@ == ValueV::List(attr_values(crate::descriptor::attr_views(attrs@))),
{
    let mut items: Vec<Value> = Vec::new();
    let mut idx: usize = 0;
    while idx < attrs.len()
        invariant
            0 <= idx <= attrs@.len(),
            items@.len() == idx,
            forall|j: int| 0 <= j < idx ==> value_rep(#[trigger] items@[j]) == attr_value(
                attrs@[j]@,
            ),
        decreases attrs@.len() - idx,
    {
        items.push(value_of_attr(&attrs[idx]));
        idx += 1;
    }
    let v = Value::List(items);
    proof {
        assert(v@ matches ValueV::List(s) && s =~= attr_values(
            crate::descriptor::attr_views(attrs@),
        ));
    }
    v
}

/// Serializes one projected field.
pub fn value_of_field(f: &Field) -> (v: Value)
    ensures
        v@ == field_value(f@),
{
    let mut entries: Vec<Entry> = Vec::new();
    entries.push(Entry { key: "name".to_owned(), val: text_value(&f.name) });
    entries.push(Entry { key: "type".to_owned(), val: text_value(&f.ty) });
    entries.push(Entry { key: "attributes".to_owned(), val: value_of_attrs(&f.attributes) });
    let v = Value::Record(entries);
    proof {
        assert(v@ matches ValueV::Record(es) && es =~= field_value(f@)->Record_0);
    }
    v
}

/// Serializes a list of projected fields, in order.
pub fn value_of_fields(fs: &Vec<Field>) -> (v: Value)
    ensures
        v@ == ValueV::List(field_values(crate::descriptor::field_views(fs@))),
{
    let mut items: Vec<Value> = Vec::new();
    let mut idx: usize = 0;
    while idx < fs.len()
        invariant
            0 <= idx <= fs@.len(),
            items@.len() == idx,
            forall|j: int| 0 <= j < idx ==> value_rep(#[trigger] items@[j]) == field_value(
                fs@[j]@,
            ),
        decreases fs@.len() - idx,
    {
        items.push(value_of_field(&fs[idx]));
        idx += 1;
    }
    let v = Value::List(items);
    proof {
        assert(v@ matches ValueV::List(s) && s =~= field_values(
            crate::descriptor::field_views(fs@),
        ));
    }
    v
}

/// Serializes one projected variant.
pub fn value_of_variant(vr: &Variant) -> (v: Value)
    ensures
        v@ == variant_value(vr@),
{
    let mut entries: Vec<Entry> = Vec::new();
    entries.push(Entry { key: "name".to_owned(), val: text_value(&vr.name) });
    entries.push(Entry { key: "attributes".to_owned(), val: value_of_attrs(&vr.attributes) });
    entries.push(Entry { key: "is_tuple".to_owned(), val: flag_value(vr.is_tuple) });
    entries.push(Entry { key: "is_unit".to_owned(), val: flag_value(vr.is_unit) });
    entries.push(Entry { key: "discriminant".to_owned(), val: value_of_opt_text(&vr.discriminant) });
    entries.push(Entry { key: "fields".to_owned(), val: value_of_fields(&vr.fields) });
    entries.push(Entry { key: "style".to_owned(), val: text_of_str(vr.style.as_str()) });
    let v = Value::Record(entries);
    proof {
        assert(v@ matches ValueV::Record(es) && es =~= variant_value(vr@)->Record_0);
    }
    v
}

/// Serializes the generic clauses.
pub fn value_of_generics(g: &Generics) -> (v: Value)
    ensures
        v@ == generics_value(g@),
{
    let mut entries: Vec<Entry> = Vec::new();
    entries.push(Entry { key: "impl".to_owned(), val: text_value(&g.impl_clause) });
    entries.push(Entry { key: "type".to_owned(), val: text_value(&g.type_clause) });
    entries.push(Entry { key: "where".to_owned(), val: text_value(&g.where_clause) });
    let v = Value::Record(entries);
    proof {
        assert(v@ matches ValueV::Record(es) && es =~= generics_value(g@)->Record_0);
    }
    v
}

/// Serializes the type-level metadata.
pub fn value_of_meta(m: &LuaMeta) -> (v: Value)
    ensures
        v@ == meta_value(m@),
{
    let mut entries: Vec<Entry> = Vec::new();
    entries.push(Entry { key: "ident".to_owned(), val: text_value(&m.ident) });
    entries.push(Entry { key: "attributes".to_owned(), val: value_of_attrs(&m.attributes) });
    entries.push(Entry { key: "generics".to_owned(), val: value_of_generics(&m.generics) });
    let v = Value::Record(entries);
    proof {
        assert(v@ matches ValueV::Record(es) && es =~= meta_value(m@)->Record_0);
    }
    v
}

/// Serializes a product descriptor.
pub fn value_of_struct(s: &LuaStruct) -> (v: Value)
    ensures
        v@ == struct_value(s@),
{
    let mut entries: Vec<Entry> = Vec::new();
    entries.push(Entry { key: "fields".to_owned(), val: value_of_fields(&s.fields) });
    entries.push(Entry { key: "meta".to_owned(), val: value_of_meta(&s.meta) });
    let v = Value::Record(entries);
    proof {
        assert(v@ matches ValueV::Record(es) && es =~= struct_value(s@)->Record_0);
    }
    v
}

/// Serializes a sum descriptor.
pub fn value_of_enum(e: &LuaEnum) -> (v: Value)
    ensures
        v@ == enum_value(e@),
{
    let mut items: Vec<Value> = Vec::new();
    let mut idx: usize = 0;
    while idx < e.variants.len()
        invariant
            0 <= idx <= e.variants@.len(),
            items@.len() == idx,
            forall|j: int| 0 <= j < idx ==> value_rep(#[trigger] items@[j]) == variant_value(
                e.variants@[j]@,
            ),
        decreases e.variants@.len() - idx,
    {
        items.push(value_of_variant(&e.variants[idx]));
        idx += 1;
    }
    let variants = Value::List(items);
    proof {
        assert(variants@ matches ValueV::List(s) && s =~= variant_values(
            crate::descriptor::variant_views(e.variants@),
        ));
    }
    let mut entries: Vec<Entry> = Vec::new();
    entries.push(Entry { key: "variants".to_owned(), val: variants });
    entries.push(Entry { key: "fields".to_owned(), val: value_of_fields(&e.fields) });
    entries.push(Entry { key: "meta".to_owned(), val: value_of_meta(&e.meta) });
    let v = Value::Record(entries);
    proof {
        assert(v@ matches ValueV::Record(es) && es =~= enum_value(e@)->Record_0);
    }
    v
}

/// Serializes a descriptor of either kind.
pub fn descriptor_value(d: &Descriptor) -> (v: Value)
    ensures
        v@ == descriptor_rep(d@),
{
    match d {
        Descriptor::Product(s) => value_of_struct(s),
        Descriptor::Sum(e) => value_of_enum(e),
    }
}

} // verus!
